//! The paste record and the storage capability interface.

use vstd::prelude::*;

use crate::error::AppError;
use crate::highlight::{renders_lines, Highlighter};
use crate::text::split_lines;

verus! {

/// A stored paste: a unique 128-bit identifier, assigned at creation, and the
/// immutable content.
pub struct Paste {
    pub id: u128,
    pub content: String,
}

impl Paste {
    pub fn new(id: u128, content: String) -> (p: Paste)
        ensures
            p.id == id,
            p.content == content,
    {
        Paste { id, content }
    }

    /// Apply syntax highlighting to the paste's content, as
    /// `Highlighter::render` does. `syntax` is the extension code of the
    /// language to highlight the content as, for example `rs` for Rust.
    pub fn to_highlighted(&self, hl: &Highlighter, syntax: &str, theme: &str) -> (r: String)
        ensures
            !hl.hints().contains(syntax@) ==> r@ == self.content@,
            hl.hints().contains(syntax@) ==> renders_lines(split_lines(self.content@), r@),
    {
        hl.render(self.content.as_str(), syntax, theme)
    }
}

/// The capability interface for creating, reading and deleting pastes.
///
/// A backend is abstracted as a map from live ids to content. Absence of an
/// id is a normal outcome, reported as `None`; only backend unavailability is
/// an error, and an operation that fails leaves the stored map unchanged.
pub trait PasteStore: Sized {
    /// The pastes currently live, as a map from id to content.
    spec fn pastes(&self) -> Map<u128, Seq<char>>;

    /// The backend's internal well-formedness.
    spec fn wf(&self) -> bool;

    /// Allocate a fresh unique id, persist `(id, content)`, and return the
    /// full record.
    fn create(&mut self, content: String) -> (r: Result<Paste, AppError>)
        requires
            old(self).wf(),
        ensures
            final(self).wf(),
            match r {
                Ok(p) => !old(self).pastes().contains_key(p.id) && p.content@ == content@
                    && final(self).pastes() == old(self).pastes().insert(p.id, content@),
                Err(_) => final(self).pastes() == old(self).pastes(),
            },
    ;

    /// Return the record stored under `id`, or `None` when `id` is not live.
    fn get(&self, id: u128) -> (r: Result<Option<Paste>, AppError>)
        requires
            self.wf(),
        ensures
            match r {
                Ok(Some(p)) => self.pastes().contains_key(id) && p.id == id && p.content@
                    == self.pastes()[id],
                Ok(None) => !self.pastes().contains_key(id),
                Err(_) => true,
            },
    ;

    /// Delete the record stored under `id` and return it; when `id` is not
    /// live, return `None` and leave the store unchanged.
    fn remove(&mut self, id: u128) -> (r: Result<Option<Paste>, AppError>)
        requires
            old(self).wf(),
        ensures
            final(self).wf(),
            match r {
                Ok(Some(p)) => old(self).pastes().contains_key(id) && p.id == id && p.content@
                    == old(self).pastes()[id] && final(self).pastes() == old(
                    self,
                ).pastes().remove(id),
                Ok(None) => !old(self).pastes().contains_key(id) && final(self).pastes() == old(
                    self,
                ).pastes(),
                Err(_) => final(self).pastes() == old(self).pastes(),
            },
    ;
}

/// Round trip: content stored under a fresh id by `create` is exactly what a
/// later `get` of that id finds. `create` turns the stored map `pastes` into
/// `pastes.insert(id, content)`, and on that map `get` of `id` returns the
/// record with this content.
pub proof fn lemma_create_get_round_trip(pastes: Map<u128, Seq<char>>, id: u128, content: Seq<char>)
    ensures
        pastes.insert(id, content).contains_key(id),
        pastes.insert(id, content)[id] == content,
{
}

/// Deletion finality: after a successful `remove` of an id, the id is no
/// longer live, so a `get` of the same id is absent.
pub proof fn lemma_remove_then_absent(pastes: Map<u128, Seq<char>>, id: u128)
    ensures
        !pastes.remove(id).contains_key(id),
{
}

/// Idempotent absence: removing a live id twice yields exactly one non-absent
/// result. The first `remove` returns the record and drops the id; on the
/// resulting map the id is absent, so the second `remove` (and every later
/// one) returns `None` and changes nothing.
pub proof fn lemma_remove_idempotent(pastes: Map<u128, Seq<char>>, id: u128)
    requires
        pastes.contains_key(id),
    ensures
        !pastes.remove(id).contains_key(id),
        pastes.remove(id).remove(id) == pastes.remove(id),
{
    assert(pastes.remove(id).remove(id) =~= pastes.remove(id));
}

} // verus!
