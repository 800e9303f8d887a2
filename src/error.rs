//! The errors that this library reports, and the conversion of a protected
//! runtime call into a `Result`.

use vstd::prelude::*;

use crate::value::Value;

verus! {

/// Why text could not be had from a string object.
#[derive(Clone, Copy, PartialEq, Eq, Structural, Debug)]
pub enum EncodingFault {
    /// The string's encoding label is neither UTF-8 nor US-ASCII.
    NotUtf8Label { enc_index: i32 },
    /// The bytes are not well-formed UTF-8.
    InvalidBytes,
}

/// Why a value did not have the shape that an operation needs.
#[derive(Clone, Copy, PartialEq, Eq, Structural, Debug)]
pub enum TypeFault {
    /// Text that should hold exactly one character holds this many.
    NotSingleChar { chars: usize },
    /// A value that should be a class is something else.
    NotClass,
    /// A value that should be a string is something else.
    NotString,
    /// A call that should produce an object produced the zero word.
    NullHandle,
}

/// The error of every fallible operation of this library.
#[derive(Clone, Copy, PartialEq, Eq, Structural, Debug)]
pub enum Error {
    Encoding(EncodingFault),
    Type(TypeFault),
    /// The runtime raised; this holds its exception object.
    Raised(Value),
}

/// What a protected call into the runtime came back with: the returned word,
/// the protection state (zero when nothing was raised) and, when something
/// was raised, the exception object.
#[derive(Clone, Copy)]
pub struct ProtectOutcome {
    pub result: Value,
    pub state: i32,
    pub exception: Value,
}

/// The result of a protected call, as a `Result`.
pub open spec fn protected_spec(o: ProtectOutcome) -> Result<Value, Error> {
    if o.state == 0 {
        Ok(o.result)
    } else {
        Err(Error::Raised(o.exception))
    }
}

/// Converts the outcome of a protected call: a raise becomes
/// `Error::Raised`, never an unwind.
pub fn protect(o: ProtectOutcome) -> (r: Result<Value, Error>)
    ensures
        r == protected_spec(o),
{
    if o.state == 0 {
        Ok(o.result)
    } else {
        Err(Error::Raised(o.exception))
    }
}

} // verus!
