//! The request handlers: each composes the store and the highlighter and
//! maps the outcome of the operation to a status code and body.

use vstd::prelude::*;
use vstd::string::StringExecFns;

use crate::error::AppError;
use crate::highlight::{renders_lines, Highlighter};
use crate::id::{uuid_seq, uuid_string};
use crate::paste::PasteStore;
use crate::status::Status;
use crate::text::split_lines;
use crate::util::{scheme, scheme_spec};

verus! {

/// The usage text served at the root.
pub const USAGE: &'static str = "
    USAGE

      POST /

          accepts raw data in the body of the request and responds with a URL of
          a page containing the body's content

      GET /<id>

          retrieves the content for the paste with id `<id>`
    ";

/// The fixed body of a NOT FOUND response.
pub const NOT_FOUND_BODY: &'static str = "Paste not found";

/// The fixed body of a successful delete response.
pub const DELETED_BODY: &'static str = "Deleted!";

/// The theme used for highlighted retrieval.
pub const DEFAULT_THEME: &'static str = "base16-ocean.dark";

/// The application context: one store handle and one highlighter handle,
/// built once at startup and shared by all request handlers.
pub struct App<S: PasteStore> {
    pub pastes: S,
    pub highlighter: Highlighter,
}

impl<S: PasteStore> App<S> {
    /// Bundle a store and a highlighter.
    pub fn new(pastes: S, highlighter: Highlighter) -> (app: App<S>)
        ensures
            app.pastes == pastes,
            app.highlighter == highlighter,
    {
        App { pastes, highlighter }
    }
}

/// The URL under which a newly created paste is reachable: scheme from the
/// host, then the host, then the id in canonical hyphenated form.
pub open spec fn upload_url(host: Seq<char>, id: u128) -> Seq<char> {
    scheme_spec(host) + "://"@ + host + "/"@ + uuid_seq(id)
}

/// Serve the usage text.
pub fn index() -> (r: (Status, String))
    ensures
        r.0 == Status::Okay,
        r.1@ == USAGE@,
{
    (Status::Okay, USAGE.to_owned())
}

/// The response for a create outcome: CREATED, with the full URL of the new
/// paste as the body.
pub fn upload_response(host: &str, id: u128) -> (r: (Status, String))
    ensures
        r.0 == Status::Created,
        r.1@ == upload_url(host@, id),
{
    let mut url = scheme(host).to_owned();
    url.append("://");
    url.append(host);
    url.append("/");
    let id_str = uuid_string(id);
    url.append(id_str.as_str());
    (Status::Created, url)
}

/// The response for a retrieve outcome: OK with the content when the paste
/// was found, NOT FOUND with the fixed message when it was not.
pub fn retrieve_response(content: Option<String>) -> (r: (Status, String))
    ensures
        match content {
            Some(c) => r.0 == Status::Okay && r.1 == c,
            None => r.0 == Status::NotFound && r.1@ == NOT_FOUND_BODY@,
        },
{
    match content {
        Some(c) => (Status::Okay, c),
        None => (Status::NotFound, NOT_FOUND_BODY.to_owned()),
    }
}

/// The response for a remove outcome: OK with the fixed confirmation when a
/// paste was deleted, NOT FOUND with the fixed message when none was live.
pub fn remove_response(removed: bool) -> (r: (Status, String))
    ensures
        removed ==> r.0 == Status::Okay && r.1@ == DELETED_BODY@,
        !removed ==> r.0 == Status::NotFound && r.1@ == NOT_FOUND_BODY@,
{
    if removed {
        (Status::Okay, DELETED_BODY.to_owned())
    } else {
        (Status::NotFound, NOT_FOUND_BODY.to_owned())
    }
}

/// Create a paste from the raw request body and answer CREATED with the full
/// URL of the new paste; a storage failure propagates as the error.
pub fn upload<S: PasteStore>(app: &mut App<S>, host: &str, body: String) -> (r: Result<
    (Status, String),
    AppError,
>)
    requires
        old(app).pastes.wf(),
    ensures
        final(app).pastes.wf(),
        final(app).highlighter == old(app).highlighter,
        match r {
            Ok((st, url)) => st == Status::Created && exists|id: u128|
                {
                    &&& !old(app).pastes.pastes().contains_key(id)
                    &&& final(app).pastes.pastes() == old(app).pastes.pastes().insert(id, body@)
                    &&& url@ == #[trigger] upload_url(host@, id)
                },
            Err(_) => final(app).pastes.pastes() == old(app).pastes.pastes(),
        },
{
    match app.pastes.create(body) {
        Ok(p) => {
            let r = upload_response(host, p.id);
            proof {
                assert(r.1@ == upload_url(host@, p.id));
            }
            Ok(r)
        },
        Err(e) => Err(e),
    }
}

/// Retrieve a paste by id: OK with the stored content, or NOT FOUND with the
/// fixed message when the id is not live.
pub fn retrieve<S: PasteStore>(app: &App<S>, id: u128) -> (r: Result<(Status, String), AppError>)
    requires
        app.pastes.wf(),
    ensures
        match r {
            Ok((st, body)) => if app.pastes.pastes().contains_key(id) {
                st == Status::Okay && body@ == app.pastes.pastes()[id]
            } else {
                st == Status::NotFound && body@ == NOT_FOUND_BODY@
            },
            Err(_) => true,
        },
{
    match app.pastes.get(id) {
        Ok(Some(p)) => Ok(retrieve_response(Some(p.content))),
        Ok(None) => Ok(retrieve_response(None)),
        Err(e) => Err(e),
    }
}

/// Retrieve a paste by id and color it as the language hinted at by `lang`
/// under the default theme: OK with the rendering (the content unchanged
/// when the hint is unknown), or NOT FOUND with the fixed message.
pub fn retrieve_and_syntax_highlight<S: PasteStore>(app: &App<S>, id: u128, lang: &str) -> (r:
    Result<(Status, String), AppError>)
    requires
        app.pastes.wf(),
    ensures
        match r {
            Ok((st, body)) => if app.pastes.pastes().contains_key(id) {
                &&& st == Status::Okay
                &&& !app.highlighter.hints().contains(lang@) ==> body@
                    == app.pastes.pastes()[id]
                &&& app.highlighter.hints().contains(lang@) ==> renders_lines(
                    split_lines(app.pastes.pastes()[id]),
                    body@,
                )
            } else {
                st == Status::NotFound && body@ == NOT_FOUND_BODY@
            },
            Err(_) => true,
        },
{
    match app.pastes.get(id) {
        Ok(Some(p)) => {
            let rendered = app.highlighter.render(p.content.as_str(), lang, DEFAULT_THEME);
            Ok((Status::Okay, rendered))
        },
        Ok(None) => Ok((Status::NotFound, NOT_FOUND_BODY.to_owned())),
        Err(e) => Err(e),
    }
}

/// Remove a paste by id: OK with the fixed confirmation when the id was
/// live, NOT FOUND with the fixed message (and no change) when it was not; a
/// storage failure propagates as the error and leaves the store unchanged.
pub fn remove<S: PasteStore>(app: &mut App<S>, id: u128) -> (r: Result<(Status, String), AppError>)
    requires
        old(app).pastes.wf(),
    ensures
        final(app).pastes.wf(),
        final(app).highlighter == old(app).highlighter,
        match r {
            Ok((st, body)) => if old(app).pastes.pastes().contains_key(id) {
                &&& st == Status::Okay
                &&& body@ == DELETED_BODY@
                &&& final(app).pastes.pastes() == old(app).pastes.pastes().remove(id)
            } else {
                &&& st == Status::NotFound
                &&& body@ == NOT_FOUND_BODY@
                &&& final(app).pastes.pastes() == old(app).pastes.pastes()
            },
            Err(_) => final(app).pastes.pastes() == old(app).pastes.pastes(),
        },
{
    match app.pastes.remove(id) {
        Ok(Some(_)) => Ok(remove_response(true)),
        Ok(None) => Ok(remove_response(false)),
        Err(e) => Err(e),
    }
}

} // verus!
