//! The progress feed: lines of text from the controlling process, of which
//! those that carry `progress-<digits>` move the progress bar.

use crate::pattern::{capture_group, regex_group};
use vstd::prelude::*;

verus! {

/// The pause between two reads of the input, in milliseconds.
pub const POLL_INTERVAL_MILLIS: u64 = 100;

/// A percentage sent by the controlling process.
#[derive(Clone, Copy, Debug, PartialEq, Eq, Structural)]
pub struct ProgressEvent {
    pub percent: u32,
}

/// What the listener does with one line of input.
#[derive(Clone, Copy, Debug, PartialEq, Eq, Structural)]
pub enum ListenerAction {
    /// The line carried a percentage: hand it to the form.
    Deliver(ProgressEvent),
    /// The line carried nothing for the form: drop it and read on.
    Skip,
    /// The line carried a number that cannot be read: the listener ends.
    Stop,
}

/// Whether `c` is a printable ASCII character, space included.
pub open spec fn is_printable_ascii(c: char) -> bool {
    ' ' <= c && c <= '~'
}

/// The printable ASCII characters of `line`, in their order.
pub open spec fn printable_part(line: Seq<char>) -> Seq<char> {
    line.filter(|c: char| is_printable_ascii(c))
}

/// Whether `c` is one of the ten decimal digits.
pub open spec fn is_digit(c: char) -> bool {
    '0' <= c && c <= '9'
}

/// The number that the digit `c` stands for.
pub open spec fn digit_value(c: char) -> nat {
    (c as u32 - '0' as u32) as nat
}

/// Whether `s` holds decimal digits only.
pub open spec fn all_digits(s: Seq<char>) -> bool {
    forall|i: int| 0 <= i < s.len() ==> is_digit(#[trigger] s[i])
}

/// The number that the digits of `s` write in base ten.
pub open spec fn decimal_value(s: Seq<char>) -> nat
    decreases s.len(),
{
    if s.len() == 0 {
        0
    } else {
        decimal_value(s.drop_last()) * 10 + digit_value(s.last())
    }
}

/// The percentage that `s` writes: it is there when `s` is one or more
/// decimal digits whose number fits in 32 bits.
pub open spec fn percent_of(s: Seq<char>) -> Option<u32> {
    if s.len() > 0 && all_digits(s) && decimal_value(s) <= u32::MAX {
        Some(decimal_value(s) as u32)
    } else {
        None
    }
}

/// The action for what the pattern captured from a line.
pub open spec fn action_for(capture: Option<Seq<char>>) -> ListenerAction {
    match capture {
        None => ListenerAction::Skip,
        Some(digits) => match percent_of(digits) {
            Some(percent) => ListenerAction::Deliver(ProgressEvent { percent }),
            None => ListenerAction::Stop,
        },
    }
}

/// The pattern that a progress line matches.
pub open spec fn progress_pattern() -> Seq<char> {
    "progress-([0-9]+)"@
}

/// The action for a whole line: the pattern is run on the printable part of
/// the line, and its first group decides.
pub open spec fn line_action(line: Seq<char>) -> ListenerAction {
    match regex_group(progress_pattern(), printable_part(line), 1) {
        Some(capture) => action_for(capture),
        None => ListenerAction::Stop,
    }
}

/// A longer run of digits writes a number that is no smaller.
pub proof fn lemma_decimal_value_grows(s: Seq<char>, n: int)
    requires
        0 <= n <= s.len(),
    ensures
        decimal_value(s.take(n)) <= decimal_value(s),
    decreases s.len(),
{
    if n == s.len() {
        assert(s.take(n) == s);
    } else {
        assert(s.drop_last().take(n) == s.take(n));
        lemma_decimal_value_grows(s.drop_last(), n);
    }
}

/// Keeps the printable ASCII characters of `line`, in their order.
pub fn retain_printable_ascii(line: &str) -> (kept: String)
    ensures
        kept@ == printable_part(line@),
{
    let mut kept = String::new();
    for c in it: line.chars()
        invariant
            it.seq() == line@,
            kept@ == printable_part(line@.take(it.index() as int)),
    {
        proof {
            let seen = line@.take(it.index() + 1);
            assert(seen.drop_last() == line@.take(it.index() as int));
            assert(seen.last() == c);
            reveal(Seq::filter);
        }
        if ' ' <= c && c <= '~' {
            kept.push(c);
        }
    }
    assert(line@.take(line@.len() as int) == line@);
    kept
}

/// Reads a percentage written in decimal digits.
pub fn parse_percent(digits: &str) -> (percent: Option<u32>)
    ensures
        percent == percent_of(digits@),
{
    let mut value: u32 = 0;
    let mut any: bool = false;
    for c in it: digits.chars()
        invariant
            it.seq() == digits@,
            any == (it.index() > 0),
            all_digits(digits@.take(it.index() as int)),
            value == decimal_value(digits@.take(it.index() as int)),
    {
        let ghost seen = digits@.take(it.index() + 1);
        proof {
            assert(seen.drop_last() == digits@.take(it.index() as int));
            assert(seen.last() == c);
        }
        if !('0' <= c && c <= '9') {
            assert(!is_digit(digits@[it.index() as int]));
            return None;
        }
        let digit: u32 = c as u32 - '0' as u32;
        if value > (u32::MAX - digit) / 10 {
            proof {
                assert(decimal_value(seen) > u32::MAX);
                lemma_decimal_value_grows(digits@, it.index() + 1);
            }
            return None;
        }
        value = value * 10 + digit;
        any = true;
        proof {
            assert forall|i: int| 0 <= i < seen.len() implies is_digit(#[trigger] seen[i]) by {
                if i < seen.len() - 1 {
                    assert(seen[i] == digits@.take(it.index() as int)[i]);
                }
            }
        }
    }
    assert(digits@.take(digits@.len() as int) == digits@);
    if any {
        Some(value)
    } else {
        None
    }
}

/// Decides what to do with what the pattern captured from a line.
pub fn interpret_capture(capture: Option<String>) -> (action: ListenerAction)
    ensures
        action == action_for(
            match capture {
                Some(digits) => Some(digits@),
                None => None,
            },
        ),
{
    match capture {
        None => ListenerAction::Skip,
        Some(digits) => match parse_percent(digits.as_str()) {
            Some(percent) => ListenerAction::Deliver(ProgressEvent { percent }),
            None => ListenerAction::Stop,
        },
    }
}

/// Decides what to do with one line of input: the line is cut down to its
/// printable ASCII characters, searched for `progress-<digits>`, and the
/// digits are read as a percentage.
pub fn handle_user_input(line: &str) -> (action: ListenerAction)
    ensures
        action == line_action(line@),
{
    let kept = retain_printable_ascii(line);
    match capture_group("progress-([0-9]+)", kept.as_str(), 1) {
        Ok(capture) => interpret_capture(capture),
        Err(_) => ListenerAction::Stop,
    }
}

/// The listener of the progress feed: it runs until a line carries a number
/// that cannot be read, and delivers nothing after that.
#[derive(Debug)]
pub struct Listener {
    stopped: bool,
}

impl Listener {
    /// Whether the listener has ended.
    pub closed spec fn stopped(&self) -> bool {
        self.stopped
    }

    /// A listener that runs.
    pub fn new() -> (listener: Listener)
        ensures
            !listener.stopped(),
    {
        Listener { stopped: false }
    }

    /// Whether the listener has ended.
    pub fn is_stopped(&self) -> (stopped: bool)
        ensures
            stopped == self.stopped(),
    {
        self.stopped
    }

    /// Takes one line of input and returns the event to deliver, if any. A
    /// listener that has ended stays so and delivers nothing; one that runs
    /// does what `handle_user_input` decides for the line.
    pub fn feed(&mut self, line: &str) -> (event: Option<ProgressEvent>)
        ensures
            old(self).stopped() ==> final(self).stopped() && event is None,
            !old(self).stopped() ==> match line_action(line@) {
                ListenerAction::Deliver(sent) => event == Some(sent) && !final(self).stopped(),
                ListenerAction::Skip => event is None && !final(self).stopped(),
                ListenerAction::Stop => event is None && final(self).stopped(),
            },
    {
        if self.stopped {
            return None;
        }
        match handle_user_input(line) {
            ListenerAction::Deliver(sent) => Some(sent),
            ListenerAction::Skip => None,
            ListenerAction::Stop => {
                self.stopped = true;
                None
            },
        }
    }
}

} // verus!
