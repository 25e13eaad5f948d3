//! Signal dispatch: a reload or restart request goes to the process whose
//! id the tool wrote into its lock file.

use vstd::prelude::*;
use crate::error::SignalError;
use crate::text::{trim, trimmed};

verus! {

/// What the operator or the file watcher asks of the tool.
#[derive(Clone, Copy, Debug, PartialEq, Eq, Structural)]
pub enum SignalKind {
    /// Hot reload: the tool keeps its state.
    Reload,
    /// Hot restart: the tool starts over.
    Restart,
}

/// The largest process id there is.
pub const PID_MAX: i32 = 0x7FFF_FFFF;

/// A signal that is to be delivered.
#[derive(Clone, Copy, Debug, PartialEq, Eq, Structural)]
pub struct SignalOrder {
    /// The process to signal: a single process, so a positive number.
    pub pid: i32,
    /// What to ask of it.
    pub kind: SignalKind,
}

/// Whether a character is a decimal digit.
pub open spec fn is_digit(c: char) -> bool {
    0x30 <= c as u32 <= 0x39
}

/// The value of a decimal digit.
pub open spec fn digit_value(c: char) -> nat
    recommends
        is_digit(c),
{
    (c as u32 - 0x30) as nat
}

/// The value of a decimal numeral.
pub open spec fn decimal_value(digits: Seq<char>) -> nat
    decreases digits.len(),
{
    if digits.len() == 0 {
        0
    } else {
        decimal_value(digits.drop_last()) * 10 + digit_value(digits.last())
    }
}

/// The process id that a numeral denotes: one or more decimal digits and
/// nothing else, whose value is at least 1 and at most [`PID_MAX`]. Any
/// other text denotes none. Zero and numbers beyond the largest process id
/// name no process: a signal sent to them would reach a whole group, or
/// every process there is.
pub open spec fn parsed_number(numeral: Seq<char>) -> Option<i32> {
    if numeral.len() > 0 && (forall|i: int|
        0 <= i < numeral.len() ==> is_digit(#[trigger] numeral[i])) && 1 <= decimal_value(numeral)
        <= PID_MAX {
        Some(decimal_value(numeral) as i32)
    } else {
        None
    }
}

/// The process id that the contents of a lock file denote; whitespace
/// around the number does not count.
pub open spec fn parsed_pid(contents: Seq<char>) -> Option<i32> {
    parsed_number(trimmed(contents))
}

/// The value of a numeral, cut off just above the largest process id.
spec fn capped_value(digits: Seq<char>) -> int {
    if decimal_value(digits) <= PID_MAX {
        decimal_value(digits) as int
    } else {
        0x8000_0000
    }
}

/// Reads a process id from a numeral.
pub fn parse_number(numeral: &str) -> (number: Option<i32>)
    ensures
        number == parsed_number(numeral@),
{
    let length = numeral.unicode_len();
    let mut value: u64 = 0;
    let mut valid = true;
    let mut idx: usize = 0;
    for c in it: numeral.chars()
        invariant
            idx == it.index(),
            it.seq() == numeral@,
            length == numeral@.len(),
            idx <= length,
            valid ==> forall|i: int| 0 <= i < idx ==> is_digit(#[trigger] numeral@[i]),
            !valid ==> exists|i: int| 0 <= i < numeral@.len() && !is_digit(#[trigger] numeral@[i]),
            valid ==> value == capped_value(numeral@.take(idx as int)),
            value <= 0x8000_0000,
    {
        proof {
            assert(numeral@[idx as int] == c);
            assert(numeral@.take(idx + 1).drop_last() =~= numeral@.take(idx as int));
            assert(numeral@.take(idx + 1).last() == c);
        }
        let code: u32 = c as u32;
        if 0x30 <= code && code <= 0x39 {
            if value <= 0x7FFF_FFFF {
                value = value * 10 + (code - 0x30) as u64;
                if value > 0x7FFF_FFFF {
                    value = 0x8000_0000;
                }
            }
        } else {
            valid = false;
        }
        idx = idx + 1;
    }
    proof {
        assert(numeral@.take(length as int) =~= numeral@);
    }
    if valid && length > 0 && 1 <= value && value <= 0x7FFF_FFFF {
        Some(value as i32)
    } else {
        None
    }
}

/// Reads a process id from the contents of a lock file.
pub fn parse_pid(contents: &str) -> (pid: Option<i32>)
    ensures
        pid == parsed_pid(contents@),
        pid matches Some(id) ==> 1 <= id,
{
    parse_number(trim(contents))
}

/// The order that a request leads to, given the contents of the lock file,
/// or `None` for them where there is no lock file.
pub open spec fn signal_order(lock_file: Option<Seq<char>>, kind: SignalKind) -> Result<
    SignalOrder,
    SignalError,
> {
    match lock_file {
        None => Err(SignalError::NoLockFile),
        Some(contents) => match parsed_pid(contents) {
            None => Err(SignalError::ParseError),
            Some(pid) => Ok(SignalOrder { pid, kind }),
        },
    }
}

/// Prepares the delivery of a reload or restart request. The process to
/// signal is read from the lock file, not from the handle of the spawned
/// child: the lock file names the process that listens. `lock_file` holds
/// the contents of the file, or `None` where the file is not there. An
/// order always names a single process.
pub fn send_signal_to_flutter(lock_file: Option<&str>, kind: SignalKind) -> (order: Result<
    SignalOrder,
    SignalError,
>)
    ensures
        order == signal_order(
            match lock_file {
                Some(contents) => Some(contents@),
                None => None,
            },
            kind,
        ),
        order matches Ok(o) ==> 1 <= o.pid,
{
    match lock_file {
        None => Err(SignalError::NoLockFile),
        Some(contents) => match parse_pid(contents) {
            None => Err(SignalError::ParseError),
            Some(pid) => Ok(SignalOrder { pid, kind }),
        },
    }
}

/// What the delivery of a signal came to: success, or the failure that
/// carries the reason for which the operating system refused it.
pub fn delivery_result(refusal: Option<String>) -> (result: Result<(), SignalError>)
    ensures
        refusal is None ==> result is Ok,
        refusal matches Some(reason) ==> result == Err::<(), SignalError>(
            SignalError::SignalFailed(reason),
        ),
{
    match refusal {
        None => Ok(()),
        Some(reason) => Err(SignalError::SignalFailed(reason)),
    }
}

} // verus!
