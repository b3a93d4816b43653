//! Syntax coloring of paste content.
//!
//! The syntax grammars and color themes are loaded once when the
//! `Highlighter` is constructed and are read-only afterwards. Rendering
//! resolves the syntax hint against the grammars — falling back to the
//! content unchanged when the hint is unknown — resolves the theme name with
//! a fallback to the default theme, and processes the content line by line:
//! a line that highlights successfully is emitted with a terminating
//! color-reset escape, a line that fails is emitted unchanged.

use vstd::prelude::*;
use vstd::string::StringExecFns;

use crate::text::{concat_all, lemma_concat_all_push, lines_with_endings, split_lines};

verus! {

#[verifier::external_type_specification]
#[verifier::external_body]
pub struct ExSyntaxSet(syntect::parsing::SyntaxSet);

#[verifier::external_type_specification]
#[verifier::external_body]
pub struct ExSyntaxReference(syntect::parsing::SyntaxReference);

#[verifier::external_type_specification]
#[verifier::external_body]
pub struct ExThemeSet(syntect::highlighting::ThemeSet);

#[verifier::external_type_specification]
#[verifier::external_body]
pub struct ExTheme(syntect::highlighting::Theme);

#[verifier::external_type_specification]
#[verifier::external_body]
pub struct ExHighlightLines<'a>(syntect::easy::HighlightLines<'a>);

/// The syntax hints (file extensions) that resolve to a grammar of the set.
pub uninterp spec fn syntax_hints(ss: syntect::parsing::SyntaxSet) -> Set<Seq<char>>;

/// The names under which the set holds a theme.
pub uninterp spec fn theme_names(ts: syntect::highlighting::ThemeSet) -> Set<Seq<char>>;

/// Relies on `SyntaxSet::load_defaults_newlines`: the bundled grammars, for
/// line-by-line highlighting.
#[verifier::external_body]
fn load_syntaxes() -> syntect::parsing::SyntaxSet {
    syntect::parsing::SyntaxSet::load_defaults_newlines()
}

/// Relies on `ThemeSet::load_defaults`: the bundled color themes.
#[verifier::external_body]
fn load_themes() -> syntect::highlighting::ThemeSet {
    syntect::highlighting::ThemeSet::load_defaults()
}

/// Relies on `SyntaxSet::find_syntax_by_extension`: a grammar is returned
/// exactly when the set knows the extension.
#[verifier::external_body]
fn find_syntax<'a>(ss: &'a syntect::parsing::SyntaxSet, hint: &str) -> (r: Option<
    &'a syntect::parsing::SyntaxReference,
>)
    ensures
        r is Some <==> syntax_hints(*ss).contains(hint@),
{
    ss.find_syntax_by_extension(hint)
}

/// Relies on `BTreeMap::get` on `ThemeSet::themes`: a theme is returned
/// exactly when one is stored under the name.
#[verifier::external_body]
fn find_theme<'a>(ts: &'a syntect::highlighting::ThemeSet, name: &str) -> (r: Option<
    &'a syntect::highlighting::Theme,
>)
    ensures
        r is Some <==> theme_names(*ts).contains(name@),
{
    ts.themes.get(name)
}

/// Relies on `Theme::default` for the fallback theme.
#[verifier::external_body]
fn default_theme() -> syntect::highlighting::Theme {
    syntect::highlighting::Theme::default()
}

/// Relies on `Theme::clone`.
#[verifier::external_body]
fn clone_theme(t: &syntect::highlighting::Theme) -> syntect::highlighting::Theme {
    t.clone()
}

/// Relies on `HighlightLines::new` to start the per-render parser state.
#[verifier::external_body]
fn new_highlighter<'a>(
    syntax: &syntect::parsing::SyntaxReference,
    theme: &'a syntect::highlighting::Theme,
) -> syntect::easy::HighlightLines<'a> {
    syntect::easy::HighlightLines::new(syntax, theme)
}

/// A parameter character of an ANSI control sequence: a decimal digit or a
/// semicolon.
pub open spec fn is_csi_param_char(c: char) -> bool {
    c == ';' || ('0' <= c && c <= '9')
}

/// An ANSI color escape: `ESC [`, then parameter characters, then `m`.
pub open spec fn is_color_escape(e: Seq<char>) -> bool {
    &&& e.len() >= 3
    &&& e[0] == '\u{1b}'
    &&& e[1] == '['
    &&& e[e.len() - 1] == 'm'
    &&& forall|k: int| 2 <= k < e.len() - 1 ==> is_csi_param_char(#[trigger] e[k])
}

/// The chunks of an escaped line, flattened: each chunk is one color escape
/// followed by one slice of the line's text.
pub open spec fn chunks_cat(chunks: Seq<(Seq<char>, Seq<char>)>) -> Seq<char>
    decreases chunks.len(),
{
    if chunks.len() == 0 {
        Seq::empty()
    } else {
        chunks[0].0 + chunks[0].1 + chunks_cat(chunks.skip(1))
    }
}

/// The text slices of the chunks, concatenated without the escapes.
pub open spec fn chunks_text(chunks: Seq<(Seq<char>, Seq<char>)>) -> Seq<char>
    decreases chunks.len(),
{
    if chunks.len() == 0 {
        Seq::empty()
    } else {
        chunks[0].1 + chunks_text(chunks.skip(1))
    }
}

/// `s` is `text` with color escapes interleaved: a sequence of chunks, each
/// an ANSI color escape followed by a slice of `text`, the slices
/// concatenating to `text` in order.
pub open spec fn is_escaped_of(s: Seq<char>, text: Seq<char>) -> bool {
    exists|chunks: Seq<(Seq<char>, Seq<char>)>|
        {
            &&& s == chunks_cat(chunks)
            &&& text == chunks_text(chunks)
            &&& forall|k: int| 0 <= k < chunks.len() ==> is_color_escape(#[trigger] chunks[k].0)
        }
}

/// Relies on `HighlightLines::highlight_line`: the returned style ranges
/// hold slices of the line, in order and covering it; and on
/// `as_24_bit_terminal_escaped` (background off): each slice is emitted
/// verbatim after its 24-bit foreground color escape
/// (`ESC [38;2;<r>;<g>;<b>m`). A per-line failure becomes `None`.
#[verifier::external_body]
fn highlight_line_escaped(
    hl: &mut syntect::easy::HighlightLines,
    line: &str,
    ss: &syntect::parsing::SyntaxSet,
) -> (r: Option<String>)
    ensures
        r matches Some(esc) ==> is_escaped_of(esc@, line@),
{
    match hl.highlight_line(line, ss) {
        Ok(ranges) => Some(syntect::util::as_24_bit_terminal_escaped(&ranges[..], false)),
        Err(_) => None,
    }
}

/// The four-character color-reset escape sequence.
pub open spec fn reset_seq() -> Seq<char> {
    seq!['\u{1b}', '[', '0', 'm']
}

/// `piece` is the successfully highlighted form of `line`: the line's text
/// with color escapes interleaved, terminated by the color reset.
pub open spec fn highlighted_piece_of(piece: Seq<char>, line: Seq<char>) -> bool {
    exists|esc: Seq<char>| is_escaped_of(esc, line) && piece == esc + reset_seq()
}

/// `pieces` renders `lines` into `out`: one piece per line, concatenated in
/// order, where each piece is either its line unchanged (the per-line
/// fallback) or the line's color-escaped form terminated by the color
/// reset.
pub open spec fn renders_lines_with(
    lines: Seq<Seq<char>>,
    pieces: Seq<Seq<char>>,
    out: Seq<char>,
) -> bool {
    &&& pieces.len() == lines.len()
    &&& out == concat_all(pieces)
    &&& forall|j: int|
        0 <= j < lines.len() ==> pieces[j] == lines[j] || highlighted_piece_of(
            #[trigger] pieces[j],
            lines[j],
        )
}

/// `out` is a line-by-line rendering of `lines`.
pub open spec fn renders_lines(lines: Seq<Seq<char>>, out: Seq<char>) -> bool {
    exists|pieces: Seq<Seq<char>>| renders_lines_with(lines, pieces, out)
}

/// The syntax-coloring pipeline: grammars and themes, loaded once at
/// construction, applied as a pure function of content, syntax hint and
/// theme name.
pub struct Highlighter {
    syntaxes: syntect::parsing::SyntaxSet,
    themes: syntect::highlighting::ThemeSet,
}

impl Highlighter {
    /// The syntax hints this highlighter resolves.
    pub closed spec fn hints(&self) -> Set<Seq<char>> {
        syntax_hints(self.syntaxes)
    }

    /// Load the bundled grammars and themes.
    pub fn new() -> Highlighter {
        Highlighter { syntaxes: load_syntaxes(), themes: load_themes() }
    }

    /// Render `content`, coloring it as the syntax hinted at by
    /// `syntax_hint` under the named theme.
    ///
    /// An unknown syntax hint falls back to the content unchanged. An
    /// unknown theme name falls back to the default theme. Content is
    /// processed line by line (lines keep their endings); a line that fails
    /// to highlight is emitted unchanged, and a successfully highlighted
    /// line contributes its own text with color escapes interleaved,
    /// terminated by the color-reset escape.
    pub fn render(&self, content: &str, syntax_hint: &str, theme_name: &str) -> (r: String)
        ensures
            !self.hints().contains(syntax_hint@) ==> r@ == content@,
            self.hints().contains(syntax_hint@) ==> renders_lines(split_lines(content@), r@),
    {
        let syntax = find_syntax(&self.syntaxes, syntax_hint);
        match syntax {
            None => content.to_owned(),
            Some(sy) => {
                let theme = match find_theme(&self.themes, theme_name) {
                    Some(t) => clone_theme(t),
                    None => default_theme(),
                };
                let mut hl = new_highlighter(sy, &theme);
                let lines = lines_with_endings(content);
                let ghost lines_seq = lines@.map_values(|l: String| l@);
                let mut out = String::new();
                let ghost mut pieces: Seq<Seq<char>> = Seq::empty();
                proof {
                    assert(concat_all(pieces) =~= Seq::<char>::empty());
                }
                let n = lines.len();
                let mut i: usize = 0;
                while i < n
                    invariant
                        i <= n,
                        n == lines@.len(),
                        lines_seq == lines@.map_values(|l: String| l@),
                        pieces.len() == i,
                        out@ == concat_all(pieces),
                        forall|j: int|
                            0 <= j < i ==> pieces[j] == lines_seq[j] || highlighted_piece_of(
                                #[trigger] pieces[j],
                                lines_seq[j],
                            ),
                    decreases n - i,
                {
                    let line = &lines[i];
                    match highlight_line_escaped(&mut hl, line.as_str(), &self.syntaxes) {
                        Some(esc) => {
                            let ghost esc_view = esc@;
                            let mut piece = esc;
                            piece.append("\x1b[0m");
                            out.append(piece.as_str());
                            proof {
                                reveal_strlit("\x1b[0m");
                                assert("\x1b[0m"@ =~= reset_seq());
                                assert(is_escaped_of(esc_view, lines_seq[i as int]) && piece@
                                    == esc_view + reset_seq());
                                assert(highlighted_piece_of(piece@, lines_seq[i as int]));
                                lemma_concat_all_push(pieces, piece@);
                                pieces = pieces.push(piece@);
                            }
                        },
                        None => {
                            out.append(line.as_str());
                            proof {
                                lemma_concat_all_push(pieces, line@);
                                pieces = pieces.push(line@);
                                assert(pieces[i as int] == lines_seq[i as int]);
                            }
                        },
                    }
                    i += 1;
                }
                proof {
                    assert(renders_lines_with(lines_seq, pieces, out@));
                }
                out
            },
        }
    }
}

/// Apply syntax highlighting with `hl`, as `render` does.
pub fn highlight(hl: &Highlighter, content: &str, syntax: &str, theme: &str) -> (r: String)
    ensures
        !hl.hints().contains(syntax@) ==> r@ == content@,
        hl.hints().contains(syntax@) ==> renders_lines(split_lines(content@), r@),
{
    hl.render(content, syntax, theme)
}

} // verus!
