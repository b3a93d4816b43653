//! Scenario tests for the request handlers over the in-memory backend,
//! covering the operation-to-status mapping.

use pastebin::error::AppError;
use pastebin::highlight::Highlighter;
use pastebin::routes::{
    index, remove, retrieve, retrieve_and_syntax_highlight, upload, App, USAGE,
};
use pastebin::status::Status;
use pastebin::store::MemStore;

fn ok<T>(r: Result<T, AppError>) -> T {
    match r {
        Ok(v) => v,
        Err(_) => panic!("unexpected storage error"),
    }
}

fn mem_app() -> App<MemStore> {
    App::new(MemStore::new(), Highlighter::new())
}

/// Extract the id from the URL returned by `upload`.
fn id_of_url(url: &str) -> u128 {
    let tail = url.rsplit('/').next().expect("url has a last segment");
    uuid::Uuid::parse_str(tail)
        .expect("url ends in a canonical uuid")
        .as_u128()
}

#[test]
fn test_index() {
    let (status, body) = index();
    assert_eq!(status, Status::Okay);
    assert_eq!(status.code(), 200);
    assert_eq!(body, USAGE);
}

#[test]
fn test_add_get() {
    let mut app = mem_app();
    let paste = "This is a paste!";

    let (status, url) = ok(upload(&mut app, "localhost:3000", paste.to_string()));
    assert_eq!(status, Status::Created);
    assert_eq!(status.code(), 201);
    assert!(url.starts_with("http://localhost:3000/"));

    let id = id_of_url(&url);
    let (status, body) = ok(retrieve(&app, id));
    assert_eq!(status, Status::Okay);
    assert_eq!(body, paste);
}

#[test]
fn test_get_non_existent() {
    let app = mem_app();
    let id = uuid::Uuid::new_v4().as_u128();
    let (status, body) = ok(retrieve(&app, id));
    assert_eq!(status, Status::NotFound);
    assert_eq!(status.code(), 404);
    assert_eq!(body, "Paste not found");
}

#[test]
fn test_delete() {
    let mut app = mem_app();
    let paste = "This is a paste!";

    let (status, url) = ok(upload(&mut app, "localhost:3000", paste.to_string()));
    assert_eq!(status, Status::Created);

    let id = id_of_url(&url);
    let (status, body) = ok(retrieve(&app, id));
    assert_eq!(status, Status::Okay);
    assert_eq!(body, paste);

    let (status, body) = ok(remove(&mut app, id));
    assert_eq!(status, Status::Okay);
    assert_eq!(body, "Deleted!");

    let (status, _) = ok(retrieve(&app, id));
    assert_eq!(status, Status::NotFound);
}

#[test]
fn test_delete_non_existent() {
    let mut app = mem_app();
    let id = uuid::Uuid::new_v4().as_u128();
    let (status, body) = ok(remove(&mut app, id));
    assert_eq!(status, Status::NotFound);
    assert_eq!(body, "Paste not found");
}

#[test]
fn test_get_syntax_highlighted() {
    let mut app = mem_app();
    let paste = "let x = 5;";

    let (status, url) = ok(upload(&mut app, "localhost:3000", paste.to_string()));
    assert_eq!(status, Status::Created);

    let id = id_of_url(&url);
    let (status, body) = ok(retrieve(&app, id));
    assert_eq!(status, Status::Okay);
    assert_eq!(body, paste);

    let (status, highlighted) = ok(retrieve_and_syntax_highlight(&app, id, "rs"));
    assert_eq!(status, Status::Okay);
    assert_ne!(highlighted, paste);
    assert_eq!(strip_ansi_escapes::strip_str(&highlighted), paste);
}

#[test]
fn upload_secure_host_url() {
    let mut app = mem_app();
    let (status, url) = ok(upload(&mut app, "paste.example.com", "hello".to_string()));
    assert_eq!(status, Status::Created);
    assert!(url.starts_with("https://paste.example.com/"));
    let id = id_of_url(&url);
    let (_, body) = ok(retrieve(&app, id));
    assert_eq!(body, "hello");
}
