//! The trusted boundary to the terminal backend.
//!
//! Rendering in this crate queues bytes onto an in-memory buffer; the
//! functions here are the only places where those bytes are produced by the
//! backend. Each styled byte sequence is given a name (an uninterpreted spec
//! function), and every caller's contract is stated over those names.
//!
//! crossterm suppresses color escapes globally when the `NO_COLOR`
//! environment variable is set, and lets any caller flip that switch at run
//! time, so the raw backend output is not a function of the style alone.
//! Each wrapper here therefore forces colored output on immediately before
//! it queues: this library always emits color escapes, and an application
//! that wants to honor a no-color policy decides that for itself, outside
//! the library.

use vstd::prelude::*;

verus! {

#[verifier::external_type_specification]
#[verifier::external_body]
pub struct ExColor(crossterm::style::Color);

#[verifier::external_type_specification]
#[verifier::external_body]
pub struct ExAttribute(crossterm::style::Attribute);

/// The bytes that the backend queues for a piece of text under a style,
/// with colored output forced on: a function of the optional colors, the
/// set of attributes (duplicates collapse into a bit set) and the text,
/// nothing else.
pub uninterp spec fn styled_bytes(
    fg: Option<crossterm::style::Color>,
    bg: Option<crossterm::style::Color>,
    attrs: Set<crossterm::style::Attribute>,
    text: Seq<char>,
) -> Seq<u8>;

/// The bytes of the escape sequence that selects a foreground color, with
/// colored output forced on.
pub uninterp spec fn fg_bytes(c: crossterm::style::Color) -> Seq<u8>;

/// The bytes of the escape sequence that selects a background color, with
/// colored output forced on.
pub uninterp spec fn bg_bytes(c: crossterm::style::Color) -> Seq<u8>;

/// The ASCII digits of `n` in decimal, most significant first.
pub open spec fn ascii_decimal(n: int) -> Seq<u8>
    decreases n,
{
    if n < 10 {
        seq![(48 + n) as u8]
    } else {
        ascii_decimal(n / 10) + seq![(48 + n % 10) as u8]
    }
}

/// The escape sequence that moves the cursor to column `x`, row `y` (both
/// zero-based): the control sequence introducer `ESC [`, then the one-based
/// row and column in decimal separated by `;`, then `H`.
pub open spec fn move_to_bytes(x: u16, y: u16) -> Seq<u8> {
    seq![0x1bu8, 0x5bu8] + ascii_decimal(y + 1) + seq![0x3bu8] + ascii_decimal(x + 1) + seq![
        0x48u8,
    ]
}

/// Relies on crossterm's `PrintStyledContent` command queued through
/// `QueueableCommand::queue`: onto a byte buffer it appends the ANSI form
/// of the text under the style. With colored output forced on — the body
/// pins crossterm's global flag before queueing — crossterm computes those
/// bytes from the two colors, the attribute bit set and the text alone;
/// a write into a `Vec<u8>` cannot fail.
#[verifier::external_body]
pub(crate) fn write_styled(
    w: &mut Vec<u8>,
    fg: Option<crossterm::style::Color>,
    bg: Option<crossterm::style::Color>,
    attrs: &Vec<crossterm::style::Attribute>,
    text: &str,
)
    ensures
        final(w)@ == old(w)@ + styled_bytes(fg, bg, attrs@.to_set(), text@),
{
    crossterm::style::force_color_output(true);
    let style = crossterm::style::ContentStyle {
        foreground_color: fg,
        background_color: bg,
        underline_color: None,
        attributes: crossterm::style::Attributes::from(attrs.as_slice()),
    };
    let _ = crossterm::QueueableCommand::queue(
        w,
        crossterm::style::PrintStyledContent(style.apply(text)),
    );
}

/// Relies on crossterm's `SetForegroundColor` command queued through
/// `QueueableCommand::queue`: it appends the color-select escape sequence,
/// a function of the color alone once the body has forced colored output
/// on; a write into a `Vec<u8>` cannot fail.
#[verifier::external_body]
pub(crate) fn write_fg(w: &mut Vec<u8>, c: crossterm::style::Color)
    ensures
        final(w)@ == old(w)@ + fg_bytes(c),
{
    crossterm::style::force_color_output(true);
    let _ = crossterm::QueueableCommand::queue(w, crossterm::style::SetForegroundColor(c));
}

/// Relies on crossterm's `SetBackgroundColor` command queued through
/// `QueueableCommand::queue`: it appends the color-select escape sequence,
/// a function of the color alone once the body has forced colored output
/// on; a write into a `Vec<u8>` cannot fail.
#[verifier::external_body]
pub(crate) fn write_bg(w: &mut Vec<u8>, c: crossterm::style::Color)
    ensures
        final(w)@ == old(w)@ + bg_bytes(c),
{
    crossterm::style::force_color_output(true);
    let _ = crossterm::QueueableCommand::queue(w, crossterm::style::SetBackgroundColor(c));
}

/// Relies on crossterm's `cursor::MoveTo` command queued through
/// `QueueableCommand::queue`: it appends exactly `move_to_bytes(x, y)`.
/// crossterm renders the coordinates one-based, so each must leave room
/// for the increment; a write into a `Vec<u8>` cannot fail.
#[verifier::external_body]
pub(crate) fn write_move_to(w: &mut Vec<u8>, x: u16, y: u16)
    requires
        x < 0xffff,
        y < 0xffff,
    ensures
        final(w)@ == old(w)@ + move_to_bytes(x, y),
{
    let _ = crossterm::QueueableCommand::queue(w, crossterm::cursor::MoveTo(x, y));
}

/// Relies on `crossterm::terminal::size`: it reports the current terminal
/// dimensions as `(columns, rows)`, or fails; the answer depends on the
/// environment, so nothing is promised of it.
#[verifier::external_body]
pub(crate) fn terminal_size() -> Option<(u16, u16)> {
    crossterm::terminal::size().ok()
}

/// Relies on `char::to_string`: the returned string holds exactly the one
/// character.
#[verifier::external_body]
pub(crate) fn char_to_string(c: char) -> (s: String)
    ensures
        s@ == seq![c],
{
    c.to_string()
}

} // verus!
