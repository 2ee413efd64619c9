//! The text of one line: colours, numbers and the mode indicator.

use crate::mode_state::Mode;
use ansi_term::{Colour::Fixed, Style};
use vstd::prelude::*;
use vstd::string::StringExecFns;

verus! {

pub const CYAN: u8 = 51;

pub const GRAY_LIGHT: u8 = 238;

pub const GRAY_DARK: u8 = 245;

pub const WHITE: u8 = 15;

pub const BLACK: u8 = 16;

pub const RED: u8 = 124;

pub const GREEN: u8 = 154;

pub const ORANGE: u8 = 166;

/// The numeral of a single digit.
pub open spec fn digit_text(digit: nat) -> Seq<char> {
    if digit == 0 {
        "0"@
    } else if digit == 1 {
        "1"@
    } else if digit == 2 {
        "2"@
    } else if digit == 3 {
        "3"@
    } else if digit == 4 {
        "4"@
    } else if digit == 5 {
        "5"@
    } else if digit == 6 {
        "6"@
    } else if digit == 7 {
        "7"@
    } else if digit == 8 {
        "8"@
    } else {
        "9"@
    }
}

/// The decimal numeral of `n`, without leading zeros.
pub open spec fn decimal(n: nat) -> Seq<char>
    decreases n,
{
    if n < 10 {
        digit_text(n)
    } else {
        decimal(n / 10) + digit_text(n % 10)
    }
}

/// `text` between the escape sequence that switches to bold in the colour
/// `color` of the 256-colour palette and the sequence that resets the style.
pub open spec fn bold_in(color: u8, text: Seq<char>) -> Seq<char> {
    "\u{1b}[1;38;5;"@ + decimal(color as nat) + "m"@ + text + "\u{1b}[0m"@
}

/// The one-letter indicator of a mode.
pub open spec fn mode_text(mode: Mode) -> Seq<char> {
    match mode {
        Mode::Locked => "L"@,
        Mode::Normal => "N"@,
    }
}

/// The title of the tab at `position`: tabs are numbered from one.
pub open spec fn tab_title(position: usize, mode: Mode) -> Seq<char> {
    "Tab #"@ + decimal((position + 1) as nat) + " M: "@ + mode_text(mode)
}

/// The line of a tab's header, set off where it is marked.
pub open spec fn tab_line_text(position: usize, mode: Mode, marked: bool) -> Seq<char> {
    bold_in(
        if marked {
            GREEN
        } else {
            CYAN
        },
        tab_title(position, mode),
    )
}

/// The line of a pane, set off where it is marked.
pub open spec fn pane_line_text(title: Seq<char>, mode: Mode, marked: bool) -> Seq<char> {
    "  "@ + bold_in(
        if marked {
            ORANGE
        } else {
            CYAN
        },
        title,
    ) + " M: "@ + mode_text(mode)
}

/// `text` in bold and in the colour `color`, as `ansi_term` paints it: the
/// style is `Style::new().fg(Fixed(color)).bold()`, the text goes through
/// `Style::paint`, and the painted string is formatted with `Display`.
///
/// Taken on trust, from the source of `ansi_term`: for a style that is bold
/// with a fixed foreground colour and nothing else, the prefix written is
/// `ESC [ 1 ; 38 ; 5 ; n m` with `n` the colour in decimal, then comes the
/// text unchanged, then the reset sequence `ESC [ 0 m`.
#[verifier::external_body]
pub(crate) fn color_bold(color: u8, text: &str) -> (painted: String)
    ensures
        painted@ == bold_in(color, text@),
{
    format!("{}", Style::new().fg(Fixed(color)).bold().paint(text))
}

/// The numeral of a single digit.
fn digit_str(digit: u8) -> (text: &'static str)
    requires
        digit < 10,
    ensures
        text@ == digit_text(digit as nat),
{
    match digit {
        0 => "0",
        1 => "1",
        2 => "2",
        3 => "3",
        4 => "4",
        5 => "5",
        6 => "6",
        7 => "7",
        8 => "8",
        _ => "9",
    }
}

/// Appends the decimal numeral of `n` to `text`.
pub fn push_decimal(text: &mut String, n: u128)
    ensures
        final(text)@ == old(text)@ + decimal(n as nat),
    decreases n,
{
    if n >= 10 {
        push_decimal(text, n / 10);
    }
    text.append(digit_str((n % 10) as u8));
}

/// The one-letter indicator of a mode: `L` for locked, `N` otherwise.
pub fn to_mode_str(mode: Mode) -> (text: &'static str)
    ensures
        text@ == mode_text(mode),
{
    match mode {
        Mode::Locked => "L",
        Mode::Normal => "N",
    }
}

/// The line of the header of the tab at `position`.
pub fn tab_line(position: usize, mode: Mode, marked: bool) -> (line: String)
    ensures
        line@ == tab_line_text(position, mode, marked),
{
    let mut title = String::from_str("Tab #");
    push_decimal(&mut title, position as u128 + 1);
    title.append(" M: ");
    title.append(to_mode_str(mode));
    color_bold(
        if marked {
            GREEN
        } else {
            CYAN
        },
        title.as_str(),
    )
}

/// The line of a pane with the title `title`.
pub fn pane_line(title: &str, mode: Mode, marked: bool) -> (line: String)
    ensures
        line@ == pane_line_text(title@, mode, marked),
{
    let painted = color_bold(
        if marked {
            ORANGE
        } else {
            CYAN
        },
        title,
    );
    let mut line = String::from_str("  ");
    line.append(painted.as_str());
    line.append(" M: ");
    line.append(to_mode_str(mode));
    line
}

} // verus!
