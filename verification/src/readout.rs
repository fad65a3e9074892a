//! What a display shows of a timer: each count as a stopwatch face, the
//! posture by name, and the words on the controls.

use vstd::prelude::*;
use vstd::string::*;
use crate::model::MAX_SITTING_NANOS;
use crate::posture::Posture;
use crate::time::{Span, NANOS_PER_SEC};
use crate::timer::Timer;

verus! {

/// Nanoseconds in a hundredth of a second, the finest step that a face shows.
pub const NANOS_PER_CENTI: u128 = 10_000_000;

/// A span as a stopwatch shows it: hours, minutes, seconds, and hundredths of
/// a second. The hours are not capped.
#[derive(Clone, Copy, Debug, PartialEq, Eq, Structural, Hash)]
pub struct ClockFace {
    pub hours: u128,
    pub minutes: u8,
    pub seconds: u8,
    pub centis: u8,
}

impl ClockFace {
    /// Whether each field below the hours stays under its carry.
    pub open spec fn wf(self) -> bool {
        self.minutes < 60 && self.seconds < 60 && self.centis < 100
    }

    /// The nanoseconds that the face stands for.
    pub open spec fn shown_nanos(self) -> nat {
        ((((self.hours * 60 + self.minutes) * 60 + self.seconds) * 100 + self.centis)
            * NANOS_PER_CENTI) as nat
    }

    /// The face of a span of `nanos`: the well-formed face that shows `nanos`
    /// cut down to whole hundredths of a second.
    pub open spec fn of(nanos: nat) -> ClockFace {
        let secs = nanos / (NANOS_PER_SEC as nat);
        ClockFace {
            hours: (secs / 3600) as u128,
            minutes: (secs % 3600 / 60) as u8,
            seconds: (secs % 60) as u8,
            centis: (nanos % (NANOS_PER_SEC as nat) / (NANOS_PER_CENTI as nat)) as u8,
        }
    }
}

/// A face shows its span cut down to whole hundredths of a second, and is the
/// only well-formed face that does.
pub proof fn lemma_face_shows_span(nanos: nat, face: ClockFace)
    requires
        nanos <= u128::MAX,
    ensures
        ClockFace::of(nanos).wf(),
        ClockFace::of(nanos).shown_nanos() <= nanos < ClockFace::of(nanos).shown_nanos()
            + NANOS_PER_CENTI,
        face.wf() && face.shown_nanos() <= nanos < face.shown_nanos() + NANOS_PER_CENTI ==> face
            == ClockFace::of(nanos),
{
    let secs = nanos / (NANOS_PER_SEC as nat);
    let sub = nanos % (NANOS_PER_SEC as nat);
    let own = ClockFace::of(nanos);
    assert(nanos == secs * 1_000_000_000 + sub);
    assert(secs == (secs / 3600) * 3600 + (secs % 3600 / 60) * 60 + secs % 60);
    assert(sub == (sub / 10_000_000) * 10_000_000 + sub % 10_000_000);
    if face.wf() && face.shown_nanos() <= nanos < face.shown_nanos() + NANOS_PER_CENTI {
        let centis_shown = ((face.hours * 60 + face.minutes) * 60 + face.seconds) * 100
            + face.centis;
        assert(centis_shown == nanos / 10_000_000);
        let secs_shown = (face.hours * 60 + face.minutes) * 60 + face.seconds;
        assert(secs_shown == secs);
        assert(face.centis == sub / 10_000_000);
        assert(face.seconds == secs % 60);
        assert(face.minutes == secs % 3600 / 60);
        assert(face.hours == secs / 3600);
    }
}

/// The decimal digit for `d`, which is below ten.
pub open spec fn digit(d: nat) -> char {
    if d == 0 {
        '0'
    } else if d == 1 {
        '1'
    } else if d == 2 {
        '2'
    } else if d == 3 {
        '3'
    } else if d == 4 {
        '4'
    } else if d == 5 {
        '5'
    } else if d == 6 {
        '6'
    } else if d == 7 {
        '7'
    } else if d == 8 {
        '8'
    } else {
        '9'
    }
}

/// `n` written in decimal, without leading zeros.
pub open spec fn decimal(n: nat) -> Seq<char>
    decreases n,
{
    if n < 10 {
        seq![digit(n)]
    } else {
        decimal(n / 10).push(digit(n % 10))
    }
}

/// `n` written in decimal with at least two digits: a single digit gets a
/// zero in front.
pub open spec fn two_digits(n: nat) -> Seq<char> {
    if n < 10 {
        seq!['0', digit(n)]
    } else {
        decimal(n)
    }
}

impl ClockFace {
    /// The face in writing: hours, minutes and seconds with colons between
    /// them, then a point and the hundredths, each with at least two digits.
    pub open spec fn text(self) -> Seq<char> {
        two_digits(self.hours as nat) + seq![':'] + two_digits(self.minutes as nat) + seq![':']
            + two_digits(self.seconds as nat) + seq!['.'] + two_digits(self.centis as nat)
    }

    /// The face in writing.
    pub fn to_text(&self) -> (text: String)
        ensures
            text@ == self.text(),
    {
        let mut text: String = String::new();
        push_two_digits(&mut text, self.hours);
        push_mark(&mut text, ':');
        push_two_digits(&mut text, self.minutes as u128);
        push_mark(&mut text, ':');
        push_two_digits(&mut text, self.seconds as u128);
        push_mark(&mut text, '.');
        push_two_digits(&mut text, self.centis as u128);
        text
    }
}

/// Writes a colon or a point at the end of `text`.
fn push_mark(text: &mut String, mark: char)
    requires
        mark == ':' || mark == '.',
    ensures
        final(text)@ == old(text)@ + seq![mark],
{
    proof {
        reveal_strlit(":");
        reveal_strlit(".");
    }
    if mark == ':' {
        assert(":"@ =~= seq![':']);
        text.append(":");
    } else {
        assert("."@ =~= seq!['.']);
        text.append(".");
    }
}

/// Writes the digit for `d` at the end of `text`.
fn push_digit(text: &mut String, d: u128)
    requires
        d < 10,
    ensures
        final(text)@ == old(text)@ + seq![digit(d as nat)],
{
    proof {
        reveal_strlit("0");
        reveal_strlit("1");
        reveal_strlit("2");
        reveal_strlit("3");
        reveal_strlit("4");
        reveal_strlit("5");
        reveal_strlit("6");
        reveal_strlit("7");
        reveal_strlit("8");
        reveal_strlit("9");
    }
    let written: &'static str = if d == 0 {
        "0"
    } else if d == 1 {
        "1"
    } else if d == 2 {
        "2"
    } else if d == 3 {
        "3"
    } else if d == 4 {
        "4"
    } else if d == 5 {
        "5"
    } else if d == 6 {
        "6"
    } else if d == 7 {
        "7"
    } else if d == 8 {
        "8"
    } else {
        "9"
    };
    assert(written@ =~= seq![digit(d as nat)]);
    text.append(written);
}

/// Writes `n` in decimal at the end of `text`.
fn push_decimal(text: &mut String, n: u128)
    ensures
        final(text)@ == old(text)@ + decimal(n as nat),
    decreases n,
{
    if n >= 10 {
        push_decimal(text, n / 10);
    }
    push_digit(text, n % 10);
    assert(text@ =~= old(text)@ + decimal(n as nat));
}

/// Writes `n` in decimal, with at least two digits, at the end of `text`.
fn push_two_digits(text: &mut String, n: u128)
    ensures
        final(text)@ == old(text)@ + two_digits(n as nat),
{
    if n < 10 {
        push_digit(text, 0);
    }
    push_decimal(text, n);
    assert(text@ =~= old(text)@ + two_digits(n as nat));
}

impl Span {
    /// This span as a stopwatch shows it.
    pub fn clock_face(&self) -> (face: ClockFace)
        ensures
            face == ClockFace::of(self@),
            face.wf(),
            face.shown_nanos() <= self@ < face.shown_nanos() + NANOS_PER_CENTI,
    {
        proof {
            lemma_face_shows_span(self@, ClockFace::of(self@));
        }
        let secs: u128 = self.nanos / NANOS_PER_SEC;
        let subsec: u128 = self.nanos % NANOS_PER_SEC;
        ClockFace {
            hours: secs / 3600,
            minutes: ((secs % 3600) / 60) as u8,
            seconds: (secs % 60) as u8,
            centis: (subsec / NANOS_PER_CENTI) as u8,
        }
    }
}

impl Posture {
    /// The posture's name in capitals, as the display announces it.
    pub fn name(self) -> (name: &'static str)
        ensures
            name@ == (match self {
                Posture::Sitting => "SITTING"@,
                Posture::Standing => "STANDING"@,
            }),
    {
        match self {
            Posture::Sitting => "SITTING",
            Posture::Standing => "STANDING",
        }
    }

    /// The words on the control that toggles into or out of sitting.
    pub fn sitting_control(self) -> (label: &'static str)
        ensures
            label@ == (match self {
                Posture::Sitting => "Stop sitting"@,
                Posture::Standing => "Start sitting"@,
            }),
    {
        match self {
            Posture::Sitting => "Stop sitting",
            Posture::Standing => "Start sitting",
        }
    }

    /// The words on the control that toggles into or out of standing.
    pub fn standing_control(self) -> (label: &'static str)
        ensures
            label@ == (match self {
                Posture::Sitting => "Start standing"@,
                Posture::Standing => "Stop standing"@,
            }),
    {
        match self {
            Posture::Sitting => "Start standing",
            Posture::Standing => "Stop standing",
        }
    }
}

/// The title of the window that shows the timer.
pub fn title() -> (title: &'static str)
    ensures
        title@ == "Don't sit"@,
{
    "Don't sit"
}

/// The whole minutes in the sitting threshold, for the text of the warning.
pub fn warning_minutes() -> (minutes: u128)
    ensures
        minutes == MAX_SITTING_NANOS as nat / (60 * NANOS_PER_SEC) as nat,
        minutes == 1,
{
    MAX_SITTING_NANOS / NANOS_PER_SEC / 60
}

/// All that a display shows of a timer.
#[derive(Clone, Copy, Debug, PartialEq, Eq, Structural, Hash)]
pub struct Readout {
    pub posture: Posture,
    pub sitting: ClockFace,
    pub standing: ClockFace,
    /// Whether to tell the user to get up.
    pub warning: bool,
}

impl Timer {
    /// What a display shows of this timer.
    pub fn readout(&self) -> (readout: Readout)
        ensures
            readout.posture == self@.posture,
            readout.sitting == ClockFace::of(self@.sitting),
            readout.standing == ClockFace::of(self@.standing),
            readout.warning == self@.warning(),
    {
        Readout {
            posture: self.current_posture(),
            sitting: self.sitting_elapsed().clock_face(),
            standing: self.standing_elapsed().clock_face(),
            warning: self.sitting_warning_exceeded(),
        }
    }
}

} // verus!
