//! Tokens of a formatted instruction and the color each semantic kind gets.

use vstd::prelude::*;

verus! {

/// Semantic kind of one text fragment of a formatted instruction.
/// `Other` stands for every kind that gets no highlight of its own.
#[derive(Clone, Copy, PartialEq, Eq, Structural, Debug)]
pub enum TokenKind {
    Directive,
    Keyword,
    Prefix,
    Mnemonic,
    Register,
    Number,
    Other,
}

/// Display color of a token, one of the colors the renderer hands out.
#[derive(Clone, Copy, PartialEq, Eq, Structural, Debug)]
pub enum Color {
    BrightYellow,
    BrightRed,
    BrightBlue,
    BrightCyan,
    White,
}

/// One text fragment of a formatted instruction line.
pub struct Token {
    pub text: String,
    pub kind: TokenKind,
}

/// The color table: directives and keywords bright yellow, prefixes and
/// mnemonics bright red, registers bright blue, numbers bright cyan, and
/// everything else plain white.
pub open spec fn spec_color_of(kind: TokenKind) -> Color {
    match kind {
        TokenKind::Directive | TokenKind::Keyword => Color::BrightYellow,
        TokenKind::Prefix | TokenKind::Mnemonic => Color::BrightRed,
        TokenKind::Register => Color::BrightBlue,
        TokenKind::Number => Color::BrightCyan,
        TokenKind::Other => Color::White,
    }
}

/// Picks the display color of a token kind.
pub fn color_of(kind: TokenKind) -> (c: Color)
    ensures
        c == spec_color_of(kind),
{
    match kind {
        TokenKind::Directive | TokenKind::Keyword => Color::BrightYellow,
        TokenKind::Prefix | TokenKind::Mnemonic => Color::BrightRed,
        TokenKind::Register => Color::BrightBlue,
        TokenKind::Number => Color::BrightCyan,
        TokenKind::Other => Color::White,
    }
}

/// Law: the color mapping is total and fixed. Each declared kind maps to
/// exactly one color, the highlighted kinds to theirs, and any kind outside
/// the highlighted groups to plain white.
pub proof fn lemma_color_mapping_total(kind: TokenKind)
    ensures
        spec_color_of(TokenKind::Directive) == Color::BrightYellow,
        spec_color_of(TokenKind::Keyword) == Color::BrightYellow,
        spec_color_of(TokenKind::Prefix) == Color::BrightRed,
        spec_color_of(TokenKind::Mnemonic) == Color::BrightRed,
        spec_color_of(TokenKind::Register) == Color::BrightBlue,
        spec_color_of(TokenKind::Number) == Color::BrightCyan,
        !(kind == TokenKind::Directive || kind == TokenKind::Keyword
            || kind == TokenKind::Prefix || kind == TokenKind::Mnemonic
            || kind == TokenKind::Register || kind == TokenKind::Number)
            ==> spec_color_of(kind) == Color::White,
{
}

} // verus!
