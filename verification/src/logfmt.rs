//! The lines the client writes to its console and log files.
use vstd::prelude::*;
use crate::text::{decimal, push_decimal};

verus! {

/// A line of the client log file: `[milliseconds] message` and a line
/// break, the milliseconds counted since the Unix epoch.
pub open spec fn spec_log_line(timestamp_ms: nat, msg: Seq<char>) -> Seq<char> {
    seq!['['] + decimal(timestamp_ms) + seq![']', ' '] + msg + seq!['\n']
}

pub fn log_line(timestamp_ms: u128, msg: &str) -> (r: String)
    ensures
        r@ == spec_log_line(timestamp_ms as nat, msg@),
{
    let mut s = String::new();
    s.push('[');
    push_decimal(&mut s, timestamp_ms);
    s.push(']');
    s.push(' ');
    s.push_str(msg);
    s.push('\n');
    assert(s@ =~= spec_log_line(timestamp_ms as nat, msg@));
    s
}

/// The prefix of every console line.
pub open spec fn console_tag() -> Seq<char> {
    "[RebornMP] "@
}

/// A line printed on the console: the tag, then the message.
pub fn console_line(msg: &str) -> (r: String)
    ensures
        r@ == console_tag() + msg@,
{
    let mut s = "[RebornMP] ".to_owned();
    s.push_str(msg);
    s
}

/// A line of the console's log file: `[time] message`.
pub open spec fn spec_timed_line(time: Seq<char>, msg: Seq<char>) -> Seq<char> {
    seq!['['] + time + seq![']', ' '] + msg
}

/// The log-file line for `msg` read at `time` of day.
pub fn timed_line(time: &str, msg: &str) -> (r: String)
    ensures
        r@ == spec_timed_line(time@, msg@),
{
    let mut s = String::new();
    s.push('[');
    s.push_str(time);
    s.push(']');
    s.push(' ');
    s.push_str(msg);
    assert(s@ =~= spec_timed_line(time@, msg@));
    s
}

/// Width the chat prompt pads the typed line to.
pub const PROMPT_WIDTH: usize = 70;

/// `n` spaces.
pub open spec fn spaces(n: nat) -> Seq<char> {
    Seq::new(n, |i: int| ' ')
}

/// The chat prompt redrawn in place: carriage return, `[CHAT] `, and the
/// typed line left-aligned in a field of 70 characters.
pub open spec fn spec_prompt_line(input: Seq<char>) -> Seq<char> {
    let pad = if input.len() < PROMPT_WIDTH { (PROMPT_WIDTH - input.len()) as nat } else { 0nat };
    seq!['\r', '[', 'C', 'H', 'A', 'T', ']', ' '] + input + spaces(pad)
}

pub fn prompt_line(input: &str) -> (r: String)
    ensures
        r@ == spec_prompt_line(input@),
{
    let mut s = String::new();
    s.push('\r');
    s.push('[');
    s.push('C');
    s.push('H');
    s.push('A');
    s.push('T');
    s.push(']');
    s.push(' ');
    s.push_str(input);
    let ghost head = s@;
    let len = input.unicode_len();
    let mut k: usize = len;
    while k < PROMPT_WIDTH
        invariant
            len == input@.len(),
            len <= k <= PROMPT_WIDTH || (k == len && len >= PROMPT_WIDTH),
            s@ == head + spaces((k - len) as nat),
        decreases PROMPT_WIDTH - k,
    {
        s.push(' ');
        k += 1;
        assert(s@ =~= head + spaces((k - len) as nat));
    }
    assert(s@ =~= spec_prompt_line(input@));
    s
}

} // verus!
