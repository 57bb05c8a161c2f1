//! Rendering token lines as colored text, through the `colored` crate.

use vstd::prelude::*;

use colored::Colorize;

use crate::token::Color;
use crate::token::Token;
use crate::token::TokenKind;
use crate::token::color_of;
use crate::token::spec_color_of;

verus! {

/// The ANSI reset sequence that ends a colored span.
pub open spec fn reset_seq() -> Seq<char> {
    seq!['\u{1b}', '[', '0', 'm']
}

/// The ANSI escape that starts a span of the foreground color `code`.
pub open spec fn style_prefix(code: Seq<char>) -> Seq<char> {
    seq!['\u{1b}', '['] + code + seq!['m']
}

/// The ANSI foreground code of each color, as `colored` writes it.
pub open spec fn fg_code(c: Color) -> Seq<char> {
    match c {
        Color::BrightYellow => seq!['9', '3'],
        Color::BrightRed => seq!['9', '1'],
        Color::BrightBlue => seq!['9', '4'],
        Color::BrightCyan => seq!['9', '6'],
        Color::White => seq!['3', '7'],
    }
}

/// `text` wrapped in the escape of color `c` and the reset.
pub open spec fn painted(text: Seq<char>, c: Color) -> Seq<char> {
    style_prefix(fg_code(c)) + text + reset_seq()
}

/// Whether `s` holds the reset sequence somewhere. `colored` re-styles such
/// text from the inside, and is promised nothing about it here.
pub open spec fn holds_reset(s: Seq<char>) -> bool {
    exists|i: int| 0 <= i && i + 4 <= s.len() && #[trigger] s.subrange(i, i + 4) == reset_seq()
}

/// What coloring `text` with `c` may return: the text unchanged when the
/// terminal takes no color, or the text wrapped in the color's escape and the
/// reset.
pub open spec fn colorized(text: Seq<char>, c: Color, r: Seq<char>) -> bool {
    holds_reset(text) || r == text || r == painted(text, c)
}

/// Relies on colored's `Colorize::bright_yellow` on `&str` and on
/// `ColoredString`'s `Display`: the text comes back unchanged when coloring
/// is off, and wrapped in the bright-yellow escape (code 93) and the reset
/// otherwise; text already holding a reset is re-styled inside instead.
#[verifier::external_body]
fn paint_bright_yellow(s: &str) -> (r: String)
    ensures
        colorized(s@, Color::BrightYellow, r@),
{
    s.bright_yellow().to_string()
}

/// Relies on colored's `Colorize::bright_red` (code 91), as
/// `paint_bright_yellow` does on its color.
#[verifier::external_body]
fn paint_bright_red(s: &str) -> (r: String)
    ensures
        colorized(s@, Color::BrightRed, r@),
{
    s.bright_red().to_string()
}

/// Relies on colored's `Colorize::bright_blue` (code 94), as
/// `paint_bright_yellow` does on its color.
#[verifier::external_body]
fn paint_bright_blue(s: &str) -> (r: String)
    ensures
        colorized(s@, Color::BrightBlue, r@),
{
    s.bright_blue().to_string()
}

/// Relies on colored's `Colorize::bright_cyan` (code 96), as
/// `paint_bright_yellow` does on its color.
#[verifier::external_body]
fn paint_bright_cyan(s: &str) -> (r: String)
    ensures
        colorized(s@, Color::BrightCyan, r@),
{
    s.bright_cyan().to_string()
}

/// Relies on colored's `Colorize::white` (code 37), as `paint_bright_yellow`
/// does on its color.
#[verifier::external_body]
fn paint_white(s: &str) -> (r: String)
    ensures
        colorized(s@, Color::White, r@),
{
    s.white().to_string()
}

/// Colors one token's text by the color table of its kind.
pub fn colorize(text: &str, kind: TokenKind) -> (r: String)
    ensures
        colorized(text@, spec_color_of(kind), r@),
{
    match color_of(kind) {
        Color::BrightYellow => paint_bright_yellow(text),
        Color::BrightRed => paint_bright_red(text),
        Color::BrightBlue => paint_bright_blue(text),
        Color::BrightCyan => paint_bright_cyan(text),
        Color::White => paint_white(text),
    }
}

/// The concatenation of a sequence of character strings, in order.
pub open spec fn concat_all(parts: Seq<Seq<char>>) -> Seq<char>
    decreases parts.len(),
{
    if parts.len() == 0 {
        Seq::empty()
    } else {
        concat_all(parts.drop_last()) + parts.last()
    }
}

/// Each part is the matching token's text, colored by the token's kind.
pub open spec fn colorized_parts(tokens: Seq<Token>, parts: Seq<Seq<char>>) -> bool {
    &&& parts.len() == tokens.len()
    &&& forall|i: int|
        0 <= i < tokens.len() ==> colorized(
            tokens[i].text@,
            spec_color_of(tokens[i].kind),
            #[trigger] parts[i],
        )
}

/// `line` is one rendering of `tokens`: each token's text colored by its
/// kind, joined in order.
pub open spec fn rendered_ok(tokens: Seq<Token>, line: Seq<char>) -> bool {
    exists|parts: Seq<Seq<char>>| colorized_parts(tokens, parts) && line == concat_all(parts)
}

/// Renders one instruction line: every token's text colored by its kind and
/// joined in order, without a line break.
pub fn render_line(tokens: &Vec<Token>) -> (r: String)
    ensures
        rendered_ok(tokens@, r@),
        tokens@.len() == 0 ==> r@ == Seq::<char>::empty(),
{
    let mut r = String::new();
    let ghost mut parts: Seq<Seq<char>> = Seq::empty();
    let mut i: usize = 0;
    while i < tokens.len()
        invariant
            i <= tokens@.len(),
            parts.len() == i,
            forall|j: int|
                0 <= j < i ==> colorized(
                    tokens@[j].text@,
                    spec_color_of(tokens@[j].kind),
                    #[trigger] parts[j],
                ),
            r@ == concat_all(parts),
        decreases tokens@.len() - i,
    {
        let seg = colorize(tokens[i].text.as_str(), tokens[i].kind);
        r.append(seg.as_str());
        proof {
            let prior = parts;
            parts = parts.push(seg@);
            assert(parts.drop_last() =~= prior);
        }
        i = i + 1;
    }
    proof {
        assert(colorized_parts(tokens@, parts) && r@ == concat_all(parts));
    }
    r
}

/// Renders every instruction line, in order.
pub fn render_lines(lines: &Vec<Vec<Token>>) -> (r: Vec<String>)
    ensures
        r@.len() == lines@.len(),
        forall|i: int| 0 <= i < lines@.len() ==> rendered_ok(lines@[i]@, (#[trigger] r@[i])@),
{
    let mut out: Vec<String> = Vec::new();
    let mut i: usize = 0;
    while i < lines.len()
        invariant
            out@.len() == i <= lines@.len(),
            forall|j: int| 0 <= j < i ==> rendered_ok(lines@[j]@, (#[trigger] out@[j])@),
        decreases lines@.len() - i,
    {
        let line = render_line(&lines[i]);
        out.push(line);
        i = i + 1;
    }
    out
}

} // verus!
