//! The string marshaler: text on its way across the boundary.
//!
//! Text that comes in was allocated by the far side and handed over with
//! its call; it is copied into a native string. Text that goes out is lent
//! for the length of one call. A property's text has no "unset": to put
//! no text is the caller's mistake.
use crate::error::{check_status, succeeded, Error, S_OK};
use crate::utf16::{decode, decode_wide, encode, encode_wide, law_text_round_trip};
use vstd::prelude::*;

verus! {

/// A result that holds text, with the text as a sequence of characters.
pub open spec fn text_of(r: Result<String, Error>) -> Result<Seq<char>, Error> {
    match r {
        Ok(text) => Ok(text@),
        Err(e) => Err(e),
    }
}

/// A result that holds wide units, with the units as a sequence.
pub open spec fn units_of(r: Result<Vec<u16>, Error>) -> Result<Seq<u16>, Error> {
    match r {
        Ok(units) => Ok(units@),
        Err(e) => Err(e),
    }
}

/// What a getter's answer is read as. A failed call gives its status,
/// whatever else came with it. After a successful one, no text at all is
/// the empty text, and any units are read as text.
pub open spec fn inbound_outcome(status: i32, raw: Option<Seq<u16>>) -> Result<Seq<char>, Error> {
    if !succeeded(status) {
        Err(Error::BoundaryCallFailed(status))
    } else {
        match raw {
            None => Ok(Seq::empty()),
            Some(units) => Ok(decode(units)),
        }
    }
}

/// What is handed to a setter. No text is refused; any text goes out as
/// its units.
pub open spec fn outbound_outcome(value: Option<Seq<char>>) -> Result<Seq<u16>, Error> {
    match value {
        None => Err(Error::InvalidArgument),
        Some(text) => Ok(encode(text)),
    }
}

/// Boundary to native: reads what a getter wrote.
pub fn inbound(status: i32, raw: Option<&Vec<u16>>) -> (r: Result<String, Error>)
    ensures
        text_of(r) == inbound_outcome(
            status,
            match raw {
                Some(units) => Some(units@),
                None => None,
            },
        ),
{
    match check_status(status) {
        Err(e) => Err(e),
        Ok(()) => match raw {
            None => Ok(String::new()),
            Some(units) => Ok(decode_wide(units.as_slice())),
        },
    }
}

/// Native to boundary: prepares what a setter is given.
pub fn outbound(value: Option<&str>) -> (r: Result<Vec<u16>, Error>)
    ensures
        units_of(r) == outbound_outcome(
            match value {
                Some(text) => Some(text@),
                None => None,
            },
        ),
{
    match value {
        None => Err(Error::InvalidArgument),
        Some(text) => Ok(encode_wide(text)),
    }
}

/// Text that goes out and comes back in unchanged is the same text:
/// what `outbound` prepares, `inbound` reads back after a successful call.
pub proof fn law_out_and_back(text: Seq<char>)
    ensures
        outbound_outcome(Some(text)) is Ok,
        inbound_outcome(S_OK, Some(outbound_outcome(Some(text))->Ok_0)) == Ok::<Seq<char>, Error>(
            text,
        ),
{
    law_text_round_trip(text);
}

} // verus!
