//! Conversion of optional content to a status/body pair.

use vstd::prelude::*;

use crate::status::Status;

verus! {

/// Unwrap optional content: present content pairs with OK, absence with
/// NOT FOUND and an empty body.
pub fn unwrap_or_not_found(content: Option<String>) -> (r: (Status, String))
    ensures
        match content {
            Some(c) => r.0 == Status::Okay && r.1 == c,
            None => r.0 == Status::NotFound && r.1@ == Seq::<char>::empty(),
        },
{
    match content {
        Some(c) => (Status::Okay, c),
        None => (Status::NotFound, String::new()),
    }
}

} // verus!
