//! A minimal text-sharing library: pastes are created, retrieved (optionally
//! with syntax coloring), and removed through a storage abstraction, and the
//! request-handling layer maps each outcome to a status code and body.

pub mod error;
pub mod ext;
pub mod highlight;
pub mod id;
pub mod paste;
pub mod routes;
pub mod status;
pub mod store;
pub mod text;
pub mod util;
