//! What the program shows on the terminal around the tools' own output:
//! section headers, lines of detail, and the divider before a tool speaks.
//!
//! The lines are built here, escape codes included; printing them is the
//! caller's part. The escape codes themselves come from `anstyle`.

use vstd::prelude::*;
use anstyle::{AnsiColor, Color, Effects, Style};

verus! {

/// The colours in use.
#[derive(Clone, Copy, Debug, PartialEq, Eq, Structural)]
pub enum Tone {
    BrightBlack,
    BrightBlue,
}

/// How a piece of text is set off: a foreground colour, bold or not.
#[derive(Clone, Copy, Debug, PartialEq, Eq, Structural)]
pub struct Look {
    pub bold: bool,
    pub tone: Tone,
}

/// The look of everything that frames the output.
pub open spec fn frame_look() -> Look {
    Look { bold: false, tone: Tone::BrightBlack }
}

/// The look of a header's title.
pub open spec fn title_look() -> Look {
    Look { bold: true, tone: Tone::BrightBlue }
}

/// A control sequence: the escape character, `[`, the parameters, `m`.
pub open spec fn control_sequence(parameters: Seq<char>) -> Seq<char> {
    seq!['\u{1b}', '['] + parameters + seq!['m']
}

/// The parameters that select a tone as the foreground colour.
pub open spec fn tone_parameters(tone: Tone) -> Seq<char> {
    match tone {
        Tone::BrightBlack => seq!['9', '0'],
        Tone::BrightBlue => seq!['9', '4'],
    }
}

/// What switches a look on: the sequence for bold if the look is bold,
/// then the sequence for its colour.
pub open spec fn switch_on(look: Look) -> Seq<char> {
    (if look.bold {
        control_sequence(seq!['1'])
    } else {
        Seq::empty()
    }) + control_sequence(tone_parameters(look.tone))
}

/// What switches any look off again: the reset sequence.
pub open spec fn switch_off() -> Seq<char> {
    control_sequence(seq!['0'])
}

/// Renders the style that `look` stands for with the `Display` of
/// `anstyle::Style`. Not proved: that `anstyle` writes the effects first,
/// bold as parameter `1`, and then the foreground colour, bright black as
/// `90` and bright blue as `94`, each as a control sequence of its own.
#[verifier::external_body]
fn render_on(look: Look) -> (code: String)
    ensures
        code@ == switch_on(look),
{
    let color = match look.tone {
        Tone::BrightBlack => AnsiColor::BrightBlack,
        Tone::BrightBlue => AnsiColor::BrightBlue,
    };
    let effects = Effects::new().set(Effects::BOLD, look.bold);
    format!("{}", Style::new().effects(effects).fg_color(Some(Color::Ansi(color))))
}

/// Renders the end of the style that `look` stands for with the alternate
/// `Display` of `anstyle::Style`. Not proved: that `anstyle` writes the
/// reset sequence, parameter `0`, for every style that sets a colour.
#[verifier::external_body]
fn render_off(look: Look) -> (code: String)
    ensures
        code@ == switch_off(),
{
    let color = match look.tone {
        Tone::BrightBlack => AnsiColor::BrightBlack,
        Tone::BrightBlue => AnsiColor::BrightBlue,
    };
    let effects = Effects::new().set(Effects::BOLD, look.bold);
    format!("{:#}", Style::new().effects(effects).fg_color(Some(Color::Ansi(color))))
}

/// `text` in the given look: switched on before it and off after it.
pub open spec fn styled(look: Look, text: Seq<char>) -> Seq<char> {
    switch_on(look) + text + switch_off()
}

/// Sets `text` in `look`.
pub fn style(look: Look, text: &str) -> (line: String)
    ensures
        line@ == styled(look, text@),
{
    render_on(look).concat(text).concat(render_off(look).as_str())
}

/// A section header: the title in its own look, inside a frame.
pub open spec fn header(title: Seq<char>) -> Seq<char> {
    styled(frame_look(), "┌["@) + " "@ + styled(title_look(), title) + " "@ + styled(
        frame_look(),
        "]"@,
    )
}

/// A line of detail below a header: a framed arrow, then the text as it is.
pub open spec fn context(text: Seq<char>) -> Seq<char> {
    styled(frame_look(), "└>"@) + " "@ + text
}

/// The line after which a tool's own output follows.
pub open spec fn divider() -> Seq<char> {
    styled(frame_look(), "[ \\ \\ \\"@) + " Output "@ + styled(frame_look(), "/ / / ]"@)
}

/// Writes the header line for `title`.
pub fn header_line(title: &str) -> (line: String)
    ensures
        line@ == header(title@),
{
    let frame = Look { bold: false, tone: Tone::BrightBlack };
    let emphasis = Look { bold: true, tone: Tone::BrightBlue };
    style(frame, "┌[").concat(" ").concat(style(emphasis, title).as_str()).concat(" ").concat(
        style(frame, "]").as_str(),
    )
}

/// Writes a line of detail.
pub fn context_line(text: &str) -> (line: String)
    ensures
        line@ == context(text@),
{
    let frame = Look { bold: false, tone: Tone::BrightBlack };
    style(frame, "└>").concat(" ").concat(text)
}

/// Writes the divider line.
pub fn divider_line() -> (line: String)
    ensures
        line@ == divider(),
{
    let frame = Look { bold: false, tone: Tone::BrightBlack };
    style(frame, "[ \\ \\ \\").concat(" Output ").concat(style(frame, "/ / / ]").as_str())
}

} // verus!
