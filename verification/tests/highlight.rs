//! Tests for the highlighting pipeline: fallbacks, line structure, and the
//! color-reset terminator.

use pastebin::highlight::Highlighter;
use pastebin::paste::Paste;
use pastebin::text::lines_with_endings;

#[test]
fn fallback_unknown_syntax_returns_content_unchanged() {
    let hl = Highlighter::new();
    let content = "fn main() {\n    println!(\"hi\");\n}\n";
    let rendered = hl.render(content, "no-such-lang", "base16-ocean.dark");
    assert_eq!(rendered, content);
}

#[test]
fn known_syntax_strips_back_to_content() {
    let hl = Highlighter::new();
    let content = "let x = 5;";
    let rendered = hl.render(content, "rs", "base16-ocean.dark");
    assert_ne!(rendered, content);
    assert!(rendered.ends_with("\x1b[0m"));
    assert_eq!(strip_ansi_escapes::strip_str(&rendered), content);
}

#[test]
fn unknown_theme_falls_back_to_default() {
    let hl = Highlighter::new();
    let content = "let x = 5;\nlet y = 6;\n";
    let rendered = hl.render(content, "rs", "no-such-theme");
    assert_eq!(strip_ansi_escapes::strip_str(&rendered), content);
}

#[test]
fn multi_line_content_keeps_line_structure() {
    let hl = Highlighter::new();
    let content = "fn id(x: u8) -> u8 {\n    x\n}\n";
    let rendered = hl.render(content, "rs", "base16-ocean.dark");
    let stripped = strip_ansi_escapes::strip_str(&rendered);
    assert_eq!(stripped, content);
    assert_eq!(
        lines_with_endings(&stripped).len(),
        lines_with_endings(content).len()
    );
}

#[test]
fn paste_to_highlighted_matches_render() {
    let hl = Highlighter::new();
    let paste = Paste::new(7, "let x = 5;".to_string());
    let rendered = paste.to_highlighted(&hl, "rs", "base16-ocean.dark");
    assert_eq!(rendered, hl.render("let x = 5;", "rs", "base16-ocean.dark"));
}

#[test]
fn empty_content_renders_empty() {
    let hl = Highlighter::new();
    assert_eq!(hl.render("", "rs", "base16-ocean.dark"), "");
    assert_eq!(hl.render("", "no-such-lang", "base16-ocean.dark"), "");
}

#[test]
fn lines_with_endings_splits_and_rejoins() {
    let lines = lines_with_endings("a\nbc\n\nd");
    assert_eq!(lines, vec!["a\n", "bc\n", "\n", "d"]);
    assert_eq!(lines.concat(), "a\nbc\n\nd");
    assert_eq!(lines_with_endings(""), Vec::<String>::new());
    assert_eq!(lines_with_endings("\n"), vec!["\n"]);
    assert_eq!(lines_with_endings("xyz"), vec!["xyz"]);
}
