use vstd::prelude::*;

use crate::error::FritzError;
use crate::text::{i32_of, parse_i32, parse_usize, strip_newlines, usize_of, without_newlines};

verus! {

/// Reads the box's answer to `getswitchstate`: the reply, line feeds removed, must be an
/// `i32`; the switch is on where it is 1.
pub fn switch_state_from_reply(body: &str) -> (r: Result<bool, FritzError>)
    ensures
        match i32_of(without_newlines(body@)) {
            Some(v) => r == Ok::<bool, FritzError>(v == 1),
            None => r == Err::<bool, FritzError>(FritzError::NotANumber),
        },
{
    let text = strip_newlines(body);
    match parse_i32(text.as_str()) {
        Some(v) => Ok(v == 1),
        None => Err(FritzError::NotANumber),
    }
}

/// Reads the box's answer to `gettemperature`: the reply, line feeds removed, read as a
/// `usize`; 0 where it is none.
pub fn temperature_from_reply(body: &str) -> (r: usize)
    ensures
        r == match usize_of(without_newlines(body@)) {
            Some(t) => t,
            None => 0,
        },
{
    let text = strip_newlines(body);
    match parse_usize(text.as_str()) {
        Some(t) => t,
        None => 0,
    }
}

} // verus!
