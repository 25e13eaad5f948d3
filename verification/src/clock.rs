//! The time of day that is shown next to a reload or restart.

use std::time::SystemTime;
use vstd::prelude::*;
use crate::text::{digit_char, digit_str};

verus! {

/// A number below one hundred, written with two digits.
pub open spec fn two_digits(n: nat) -> Seq<char>
    recommends
        n < 100,
{
    seq![digit_char(n / 10), digit_char(n % 10)]
}

/// The time of day, `HH:MM:SS` in UTC, of an instant given in seconds since
/// the Unix epoch.
pub open spec fn clock_text(seconds: nat) -> Seq<char> {
    two_digits((seconds / 3600) % 24) + seq![':'] + two_digits((seconds / 60) % 60) + seq![':']
        + two_digits(seconds % 60)
}

fn push_two_digits(text: &mut String, n: u64)
    requires
        n < 100,
    ensures
        final(text)@ == old(text)@ + two_digits(n as nat),
{
    text.append(digit_str(n / 10));
    text.append(digit_str(n % 10));
    assert(text@ =~= old(text)@ + two_digits(n as nat));
}

/// Renders an instant, given in seconds since the Unix epoch, as the time
/// of day in UTC.
pub fn format_timestamp(seconds: u64) -> (text: String)
    ensures
        text@ == clock_text(seconds as nat),
{
    proof {
        reveal_strlit(":");
    }
    let mut text = String::new();
    push_two_digits(&mut text, (seconds / 3600) % 24);
    text.append(":");
    push_two_digits(&mut text, (seconds / 60) % 60);
    text.append(":");
    push_two_digits(&mut text, seconds % 60);
    assert(text@ =~= clock_text(seconds as nat));
    text
}

/// Reads the system clock with `SystemTime::now` and gives the whole
/// seconds since the Unix epoch, or `None` where the clock is set before
/// it. Nothing is claimed of the value: it is the time.
#[verifier::external_body]
fn seconds_since_epoch() -> (seconds: Option<u64>) {
    SystemTime::now().duration_since(SystemTime::UNIX_EPOCH).ok().map(|elapsed| elapsed.as_secs())
}

/// The current time of day in UTC, as `HH:MM:SS`. A clock that is set
/// before the Unix epoch reads as the epoch itself.
pub fn get_timestamp() -> (text: String)
    ensures
        exists|seconds: nat| text@ == clock_text(seconds),
{
    let seconds = match seconds_since_epoch() {
        Some(seconds) => seconds,
        None => 0,
    };
    format_timestamp(seconds)
}

} // verus!
