//! The colour ramp: five tones from cool to hot.

use vstd::prelude::*;

verus! {

/// A step of the ramp. The louder a bar, the hotter its tone.
#[derive(Clone, Copy, Debug, PartialEq, Eq, Structural)]
pub enum Tone {
    Teal,
    Green,
    Yellow,
    Orange,
    Red,
}

impl Tone {
    /// The tone at `step` of the ramp, counting from the coolest. The ramp
    /// ends at its hottest tone: every later step has it too.
    pub open spec fn at_step(step: int) -> Tone {
        if step <= 0 {
            Tone::Teal
        } else if step == 1 {
            Tone::Green
        } else if step == 2 {
            Tone::Yellow
        } else if step == 3 {
            Tone::Orange
        } else {
            Tone::Red
        }
    }

    /// The control sequence that makes a terminal write in this tone: the
    /// 256-colour foreground selector with the tone's palette entry.
    pub open spec fn escape_text(self) -> Seq<char> {
        match self {
            Tone::Teal => "\x1B[38;5;39m"@,
            Tone::Green => "\x1B[38;5;48m"@,
            Tone::Yellow => "\x1B[38;5;190m"@,
            Tone::Orange => "\x1B[38;5;208m"@,
            Tone::Red => "\x1B[38;5;196m"@,
        }
    }

    /// The tone at `step` of the ramp.
    pub fn from_step(step: usize) -> (tone: Tone)
        ensures
            tone == Tone::at_step(step as int),
    {
        if step == 0 {
            Tone::Teal
        } else if step == 1 {
            Tone::Green
        } else if step == 2 {
            Tone::Yellow
        } else if step == 3 {
            Tone::Orange
        } else {
            Tone::Red
        }
    }

    /// The control sequence that selects this tone.
    pub fn escape(self) -> (code: &'static str)
        ensures
            code@ == self.escape_text(),
    {
        match self {
            Tone::Teal => "\x1B[38;5;39m",
            Tone::Green => "\x1B[38;5;48m",
            Tone::Yellow => "\x1B[38;5;190m",
            Tone::Orange => "\x1B[38;5;208m",
            Tone::Red => "\x1B[38;5;196m",
        }
    }
}

} // verus!
