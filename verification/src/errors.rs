//! The unified error taxonomy of the client.
//!
//! Every failed operation yields exactly one of these kinds; none of them is
//! ever recovered from inside the library.

use vstd::prelude::*;

verus! {

/// The one error type every operation of the client returns.
///
/// - `NetworkErr`: the transport failed (connection, resolution, timeout);
///   the transport's own message is attached.
/// - `EncodeErr`: the request payload could not be serialized.
/// - `DecodeErr`: the response body could not be parsed into the expected
///   result type; the parser's diagnostic is attached.
/// - `NotImplemented`: the operation is a deliberate stub and always fails.
#[derive(Debug)]
pub enum GitErr {
    NetworkErr(String),
    EncodeErr(String),
    DecodeErr(String),
    NotImplemented(String),
}

impl GitErr {
    /// The attached diagnostic message, whatever the kind.
    pub fn message(&self) -> (r: &String)
        ensures
            r@ == self.spec_message(),
    {
        match self {
            GitErr::NetworkErr(m) => m,
            GitErr::EncodeErr(m) => m,
            GitErr::DecodeErr(m) => m,
            GitErr::NotImplemented(m) => m,
        }
    }

    /// The message as a sequence of characters.
    pub open spec fn spec_message(&self) -> Seq<char> {
        match self {
            GitErr::NetworkErr(m) => m@,
            GitErr::EncodeErr(m) => m@,
            GitErr::DecodeErr(m) => m@,
            GitErr::NotImplemented(m) => m@,
        }
    }
}

} // verus!
