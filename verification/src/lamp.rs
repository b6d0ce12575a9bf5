//! What the lamps show.
//!
//! Two lamps tell the household of the pump. A program is a list of commands
//! that whoever drives the lamps carries out in order.

use vstd::prelude::*;

verus! {

/// The first of the two lamps.
pub const FIRST_LAMP: u32 = 5;

/// The second of the two lamps.
pub const SECOND_LAMP: u32 = 8;

/// How bright a lamp is when it is on: as bright as it gets.
pub const FULL: u8 = 255;

/// A duty, in percent, from which on a finished cycle is shown at all.
pub const CAUTION_DUTY: u64 = 10;

/// A duty, in percent, from which on a finished cycle is shown as an alert.
pub const ALERT_DUTY: u64 = 30;

/// The colours that the programs use.
#[derive(Clone, Copy, Debug, PartialEq, Eq)]
pub enum Color {
    Red,
    White,
    Blue,
    Yellow,
}

/// One command to the lamps.
#[derive(Clone, Copy, Debug, PartialEq, Eq)]
pub enum HueCommands {
    /// Switch a lamp on, with a brightness and, where one is given, a colour.
    On { light: u32, bri: u8, color: Option<Color> },
    /// Switch a lamp off.
    Off { light: u32 },
    /// Wait before the next command, for so many milliseconds.
    Pause { millis: u64 },
}

/// Both lamps on, in one colour.
pub open spec fn lit(color: Color) -> Seq<HueCommands> {
    seq![
        HueCommands::On { light: FIRST_LAMP, bri: FULL, color: Some(color) },
        HueCommands::On { light: SECOND_LAMP, bri: FULL, color: Some(color) },
    ]
}

/// Both lamps off.
pub open spec fn dark() -> Seq<HueCommands> {
    seq![HueCommands::Off { light: FIRST_LAMP }, HueCommands::Off { light: SECOND_LAMP }]
}

/// A wait.
pub open spec fn pause(millis: u64) -> Seq<HueCommands> {
    seq![HueCommands::Pause { millis }]
}

/// The greeting at start: red, white and blue, a second each.
pub open spec fn greeting() -> Seq<HueCommands> {
    lit(Color::Red) + pause(1_000) + lit(Color::White) + pause(1_000) + lit(Color::Blue) + pause(
        1_000,
    ) + dark()
}

/// The pump runs: blue, until another program says otherwise.
pub open spec fn running() -> Seq<HueCommands> {
    lit(Color::Blue)
}

/// Something is wrong with the sensor: a flash of blue, then red for five
/// seconds.
pub open spec fn alert() -> Seq<HueCommands> {
    lit(Color::Blue) + pause(500) + lit(Color::Red) + pause(5_000) + dark()
}

/// The colour in which a finished cycle is shown, if it is shown: none under
/// `CAUTION_DUTY`, yellow under `ALERT_DUTY`, red from there on. A cycle
/// without a duty is shown in red.
pub open spec fn duty_color(duty: Option<u64>) -> Option<Color> {
    match duty {
        Some(d) => if d < CAUTION_DUTY {
            None
        } else if d < ALERT_DUTY {
            Some(Color::Yellow)
        } else {
            Some(Color::Red)
        },
        None => Some(Color::Red),
    }
}

/// A cycle is over: the lamps go off, after five seconds in the colour of the
/// duty where it has one.
pub open spec fn finished(duty: Option<u64>) -> Seq<HueCommands> {
    match duty_color(duty) {
        Some(color) => lit(color) + pause(5_000) + dark(),
        None => dark(),
    }
}

/// Appends the commands that switch both lamps on in `color`.
fn push_lit(prog: &mut Vec<HueCommands>, color: Color)
    ensures
        final(prog)@ == old(prog)@ + lit(color),
{
    prog.push(HueCommands::On { light: FIRST_LAMP, bri: FULL, color: Some(color) });
    prog.push(HueCommands::On { light: SECOND_LAMP, bri: FULL, color: Some(color) });
    assert(prog@ =~= old(prog)@ + lit(color));
}

/// Appends the commands that switch both lamps off.
fn push_dark(prog: &mut Vec<HueCommands>)
    ensures
        final(prog)@ == old(prog)@ + dark(),
{
    prog.push(HueCommands::Off { light: FIRST_LAMP });
    prog.push(HueCommands::Off { light: SECOND_LAMP });
    assert(prog@ =~= old(prog)@ + dark());
}

/// Appends a wait.
fn push_pause(prog: &mut Vec<HueCommands>, millis: u64)
    ensures
        final(prog)@ == old(prog)@ + pause(millis),
{
    prog.push(HueCommands::Pause { millis });
    assert(prog@ =~= old(prog)@ + pause(millis));
}

/// The program that greets at start.
pub fn lamp_greeting() -> (prog: Vec<HueCommands>)
    ensures
        prog@ == greeting(),
{
    let mut prog: Vec<HueCommands> = Vec::new();
    push_lit(&mut prog, Color::Red);
    push_pause(&mut prog, 1_000);
    push_lit(&mut prog, Color::White);
    push_pause(&mut prog, 1_000);
    push_lit(&mut prog, Color::Blue);
    push_pause(&mut prog, 1_000);
    push_dark(&mut prog);
    assert(prog@ =~= greeting());
    prog
}

/// The program that shows that the pump runs.
pub fn lamp_on() -> (prog: Vec<HueCommands>)
    ensures
        prog@ == running(),
{
    let mut prog: Vec<HueCommands> = Vec::new();
    push_lit(&mut prog, Color::Blue);
    assert(prog@ =~= running());
    prog
}

/// The program that raises the alert.
pub fn lamp_alert() -> (prog: Vec<HueCommands>)
    ensures
        prog@ == alert(),
{
    let mut prog: Vec<HueCommands> = Vec::new();
    push_lit(&mut prog, Color::Blue);
    push_pause(&mut prog, 500);
    push_lit(&mut prog, Color::Red);
    push_pause(&mut prog, 5_000);
    push_dark(&mut prog);
    assert(prog@ =~= alert());
    prog
}

/// The program that shows a finished cycle of the given duty in percent, or
/// of none.
pub fn lamp_off(duty: Option<u64>) -> (prog: Vec<HueCommands>)
    ensures
        prog@ == finished(duty),
{
    let mut prog: Vec<HueCommands> = Vec::new();
    let shown: Option<Color> = match duty {
        Some(d) => if d < CAUTION_DUTY {
            None
        } else if d < ALERT_DUTY {
            Some(Color::Yellow)
        } else {
            Some(Color::Red)
        },
        None => Some(Color::Red),
    };
    match shown {
        Some(color) => {
            push_lit(&mut prog, color);
            push_pause(&mut prog, 5_000);
            push_dark(&mut prog);
        },
        None => {
            push_dark(&mut prog);
        },
    }
    assert(prog@ =~= finished(duty));
    prog
}

} // verus!
