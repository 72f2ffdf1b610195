//! Helpers shared by the modules: clock-style rendering of a span and the
//! notice that is shown when a timer runs out.

use crate::time::{secs_of, Span};
use vstd::prelude::*;

verus! {

/// The character that stands for the digit `d`.
pub open spec fn digit(d: nat) -> char {
    if d == 0 {
        '0'
    } else if d == 1 {
        '1'
    } else if d == 2 {
        '2'
    } else if d == 3 {
        '3'
    } else if d == 4 {
        '4'
    } else if d == 5 {
        '5'
    } else if d == 6 {
        '6'
    } else if d == 7 {
        '7'
    } else if d == 8 {
        '8'
    } else {
        '9'
    }
}

/// `n` in decimal, without leading zeros.
pub open spec fn decimal(n: nat) -> Seq<char>
    decreases n,
{
    if n < 10 {
        seq![digit(n)]
    } else {
        decimal(n / 10).push(digit(n % 10))
    }
}

/// `n` in decimal, with a leading zero where it has one digit only.
pub open spec fn two_digits(n: nat) -> Seq<char> {
    if n < 10 {
        seq!['0', digit(n)]
    } else {
        decimal(n)
    }
}

/// `secs` seconds as hours, minutes and seconds, each of at least two digits,
/// with a colon between them.
pub open spec fn hms(secs: nat) -> Seq<char> {
    two_digits(secs / 3600) + seq![':'] + two_digits((secs % 3600) / 60) + seq![':'] + two_digits(
        secs % 60,
    )
}

fn digit_str(d: u128) -> (r: &'static str)
    requires
        d < 10,
    ensures
        r@ == seq![digit(d as nat)],
{
    proof {
        reveal_strlit("0");
        reveal_strlit("1");
        reveal_strlit("2");
        reveal_strlit("3");
        reveal_strlit("4");
        reveal_strlit("5");
        reveal_strlit("6");
        reveal_strlit("7");
        reveal_strlit("8");
        reveal_strlit("9");
    }
    let r = if d == 0 {
        "0"
    } else if d == 1 {
        "1"
    } else if d == 2 {
        "2"
    } else if d == 3 {
        "3"
    } else if d == 4 {
        "4"
    } else if d == 5 {
        "5"
    } else if d == 6 {
        "6"
    } else if d == 7 {
        "7"
    } else if d == 8 {
        "8"
    } else {
        "9"
    };
    assert(r@ =~= seq![digit(d as nat)]);
    r
}

fn push_decimal(out: &mut String, n: u128)
    ensures
        final(out)@ == old(out)@ + decimal(n as nat),
    decreases n,
{
    if n >= 10 {
        push_decimal(out, n / 10);
    }
    out.append(digit_str(n % 10));
    assert(out@ =~= old(out)@ + decimal(n as nat));
}

/// `n` in decimal.
pub fn decimal_string(n: u128) -> (r: String)
    ensures
        r@ == decimal(n as nat),
{
    let mut out = String::new();
    push_decimal(&mut out, n);
    assert(out@ =~= decimal(n as nat));
    out
}

fn push_two_digits(out: &mut String, n: u128)
    ensures
        final(out)@ == old(out)@ + two_digits(n as nat),
{
    if n < 10 {
        proof {
            reveal_strlit("0");
        }
        out.append("0");
    }
    push_decimal(out, n);
    assert(out@ =~= old(out)@ + two_digits(n as nat));
}

/// Renders the whole seconds of `duration` as `HH:MM:SS`. The hours take as
/// many digits as they need.
pub fn duration_to_hms(duration: Span) -> (r: String)
    ensures
        r@ == hms(secs_of(duration@)),
{
    let total_seconds: u128 = duration.as_secs();
    let hours: u128 = total_seconds / 3600;
    let minutes: u128 = (total_seconds % 3600) / 60;
    let seconds: u128 = total_seconds % 60;
    proof {
        reveal_strlit(":");
    }
    let mut out = String::new();
    push_two_digits(&mut out, hours);
    out.append(":");
    push_two_digits(&mut out, minutes);
    out.append(":");
    push_two_digits(&mut out, seconds);
    assert(out@ =~= hms(secs_of(duration@)));
    out
}

/// The sound that plays with a notification.
#[derive(Clone, Copy, Debug, PartialEq, Eq, Structural)]
pub enum Sound {
    /// The seventh call tone, repeated until the notification is dismissed.
    LoopingCall7,
}

/// How long a notification stays on screen.
#[derive(Clone, Copy, Debug, PartialEq, Eq, Structural)]
pub enum DisplayTime {
    Short,
    Long,
}

/// What a notifier is asked to show. The library builds it; delivering it is
/// the caller's part, and a failure to deliver concerns no timer.
#[derive(Debug)]
pub struct Notification {
    pub title: String,
    pub body: String,
    pub sound: Option<Sound>,
    pub duration: DisplayTime,
}

/// Whether `n` is the notice for a timer called `name` that ran its
/// `initial_nanos` nanoseconds to the end.
pub open spec fn is_expiry_notice(n: Notification, name: Seq<char>, initial_nanos: nat) -> bool {
    &&& n.title@ == "Time's Up - "@ + name
    &&& n.body@ == hms(secs_of(initial_nanos)) + " hrs are over! \nClick to Dismiss!"@
    &&& n.sound == Some(Sound::LoopingCall7)
    &&& n.duration == DisplayTime::Long
}

/// The notice for a timer called `name` that ran `initial` to the end: a
/// title that carries the name, a body that carries the time in `HH:MM:SS`,
/// a looping sound, and the long display time.
pub fn expiry_notice(name: &str, initial: Span) -> (n: Notification)
    ensures
        is_expiry_notice(n, name@, initial@),
{
    let mut title = String::from_str("Time's Up - ");
    title.append(name);
    let mut body = duration_to_hms(initial);
    body.append(" hrs are over! \nClick to Dismiss!");
    Notification { title, body, sound: Some(Sound::LoopingCall7), duration: DisplayTime::Long }
}

} // verus!
