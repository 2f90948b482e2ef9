//! How long `sleep` pauses.

use vstd::prelude::*;
use crate::text::{parse_decimal, parse_unsigned, same_text};

verus! {

/// A pause.
#[derive(Debug, Clone, Copy, PartialEq, Eq, Structural)]
pub enum Pause {
    /// Until the process is ended from outside.
    Forever,
    /// This many seconds.
    Seconds(u64),
}

/// Why an argument names no pause.
#[derive(Debug, Clone, Copy, PartialEq, Eq, Structural)]
pub enum PauseError {
    /// The argument is neither a number of seconds nor `infinity`.
    NotANumber,
}

/// The pause that `arg` names: `infinity`, or a number of seconds that 64
/// bits hold.
pub open spec fn pause_of(arg: Seq<char>) -> Result<Pause, PauseError> {
    if arg == "infinity"@ {
        Ok(Pause::Forever)
    } else {
        match parse_unsigned(arg, u64::MAX as nat) {
            Some(seconds) => Ok(Pause::Seconds(seconds as u64)),
            None => Err(PauseError::NotANumber),
        }
    }
}

/// Reads the pause that `arg` names.
pub fn parse_pause(arg: &str) -> (r: Result<Pause, PauseError>)
    ensures
        r == pause_of(arg@),
{
    if same_text(arg, "infinity") {
        Ok(Pause::Forever)
    } else {
        match parse_decimal(arg, u64::MAX) {
            Some(seconds) => Ok(Pause::Seconds(seconds)),
            None => Err(PauseError::NotANumber),
        }
    }
}

} // verus!
