//! The ways in which a transfer can fail.

use vstd::prelude::*;

verus! {

/// `std::io::Error`, the error type of the standard library's I/O
/// operations. Its contents are not inspected here: a value is only carried
/// from a failed write to the caller.
#[verifier::external_type_specification]
#[verifier::external_body]
pub struct ExIoError(std::io::Error);

/// All the errors that sending a transfer can report.
#[derive(Debug)]
pub enum WiiLoadFail {
    /// The argument text is longer than the 16-bit length field can say.
    ArgsTooLong,
    /// The payload, before or after compression, is longer than a 32-bit
    /// size field can say.
    BinaryTooLong,
    /// A write on the connection failed.
    NetError(std::io::Error),
}

impl From<std::io::Error> for WiiLoadFail {
    /// A failed write is reported as a connection error that carries it.
    fn from(r: std::io::Error) -> (fail: WiiLoadFail) {
        WiiLoadFail::NetError(r)
    }
}

impl vstd::std_specs::convert::FromSpecImpl<std::io::Error> for WiiLoadFail {
    open spec fn obeys_from_spec() -> bool {
        true
    }

    open spec fn from_spec(r: std::io::Error) -> WiiLoadFail {
        WiiLoadFail::NetError(r)
    }
}

} // verus!
