//! Terminal styling. The escape sequences themselves come from the `colored`
//! crate, which also decides, from the process it runs in, whether a text is
//! styled at all; this module states what either outcome looks like.

use colored::Colorize;
use vstd::prelude::*;

verus! {

/// The foreground colours the launcher writes in.
#[derive(Clone, Copy, Debug, PartialEq, Eq, Structural)]
pub enum Tone {
    Red,
    Green,
    Yellow,
    BrightBlue,
    BrightMagenta,
}

/// How a piece of text is to appear.
#[derive(Clone, Copy, Debug, PartialEq, Eq, Structural)]
pub enum Look {
    Plain,
    Tinted(Tone),
    Dimmed,
}

/// The sequence that ends all styling.
pub open spec fn reset_sequence() -> Seq<char> {
    seq!['\u{1b}', '[', '0', 'm']
}

/// The sequence that switches on the style with the given parameter.
pub open spec fn opening(code: Seq<char>) -> Seq<char> {
    seq!['\u{1b}', '['] + code + seq!['m']
}

/// The parameter that selects a foreground colour.
pub open spec fn tone_code(tone: Tone) -> Seq<char> {
    match tone {
        Tone::Red => seq!['3', '1'],
        Tone::Green => seq!['3', '2'],
        Tone::Yellow => seq!['3', '3'],
        Tone::BrightBlue => seq!['9', '4'],
        Tone::BrightMagenta => seq!['9', '5'],
    }
}

/// The parameter that selects faint text.
pub open spec fn dim_code() -> Seq<char> {
    seq!['2']
}

/// `text` with the style switched on again after each reset sequence inside
/// it, so that text which is already styled in part stays styled to its end.
pub open spec fn reopened(text: Seq<char>, open: Seq<char>) -> Seq<char>
    decreases text.len(),
{
    if text.len() < 4 {
        text
    } else if text.subrange(0, 4) == reset_sequence() {
        reset_sequence() + open + reopened(text.skip(4), open)
    } else {
        seq![text[0]] + reopened(text.skip(1), open)
    }
}

/// `text` between the opening sequence of a style and the reset sequence.
pub open spec fn styled(text: Seq<char>, code: Seq<char>) -> Seq<char> {
    opening(code) + reopened(text, opening(code)) + reset_sequence()
}

/// `out` is one of the two forms in which `text` can come back from
/// styling: untouched, where the process has colours switched off, or
/// styled.
pub open spec fn shows(out: Seq<char>, text: Seq<char>, code: Seq<char>) -> bool {
    out == text || out == styled(text, code)
}

/// `out` is a way for `text` to appear with the given look.
pub open spec fn appears(out: Seq<char>, text: Seq<char>, look: Look) -> bool {
    match look {
        Look::Plain => out == text,
        Look::Tinted(tone) => shows(out, text, tone_code(tone)),
        Look::Dimmed => shows(out, text, dim_code()),
    }
}

/// `text` in the given colour, as `colored` writes it: the result of
/// `colored::Colorize::color` on `text`, formatted by the `Display` impl of
/// `colored::ColoredString`.
///
/// The contract is taken on trust from the source of `colored`. Whether
/// colours are on is for `colored` to decide, from the environment of the
/// process, from whether its output is a terminal, and from an override
/// that the process may have set. Where they are off, the text comes back
/// unchanged. Where they are on, it comes back between `ESC [ <code> m` and
/// `ESC [ 0 m`, with the opening sequence repeated after every reset
/// sequence that the text itself holds; the code of a colour is the one that
/// `colored::Color::to_fg_str` gives.
///
/// `colored` looks at its switch more than once while it formats one text.
/// The contract stands for a process in which no other thread turns the
/// override of `colored` over in the meantime; this crate never sets it.
#[verifier::external_body]
pub(crate) fn tint(text: &str, tone: Tone) -> (out: String)
    ensures
        shows(out@, text@, tone_code(tone)),
{
    let color = match tone {
        Tone::Red => colored::Color::Red,
        Tone::Green => colored::Color::Green,
        Tone::Yellow => colored::Color::Yellow,
        Tone::BrightBlue => colored::Color::BrightBlue,
        Tone::BrightMagenta => colored::Color::BrightMagenta,
    };
    text.color(color).to_string()
}

/// `text` in faint type, as `colored` writes it: the result of
/// `colored::Colorize::dimmed` on `text`, formatted by the `Display` impl of
/// `colored::ColoredString`.
///
/// The contract is taken on trust from the source of `colored`, and says of
/// faint type what the contract of `tint` says of a colour; the code is `2`,
/// the one that `colored` has for `Styles::Dimmed`.
#[verifier::external_body]
pub(crate) fn dim(text: &str) -> (out: String)
    ensures
        shows(out@, text@, dim_code()),
{
    text.dimmed().to_string()
}

/// `text` as it is to be written for the given look.
pub fn show(text: &str, look: Look) -> (out: String)
    ensures
        appears(out@, text@, look),
{
    match look {
        Look::Plain => text.to_owned(),
        Look::Tinted(tone) => tint(text, tone),
        Look::Dimmed => dim(text),
    }
}

/// Text that holds no escape character is not changed inside its style.
pub proof fn lemma_reopened_without_escape(text: Seq<char>, open: Seq<char>)
    requires
        forall|i: int| 0 <= i < text.len() ==> text[i] != '\u{1b}',
    ensures
        reopened(text, open) == text,
    decreases text.len(),
{
    if text.len() >= 4 {
        lemma_reopened_without_escape(text.skip(1), open);
    }
}

} // verus!
