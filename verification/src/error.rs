use uuid::Error as UuidError;
use vstd::prelude::*;

verus! {

/// The error type of `uuid`: what a failed parse of a UUID string returns.
#[verifier::external_type_specification]
#[verifier::external_body]
pub struct ExUuidError(UuidError);

/// A string argument that cannot be handed to C because it holds a NUL byte.
#[derive(Debug, Clone)]
pub struct NulByte {
    /// Byte offset of the first NUL byte.
    pub position: usize,
    /// The UTF-8 bytes of the whole argument.
    pub bytes: Vec<u8>,
}

/// Errors of the administrative interface.
#[derive(Debug)]
pub enum Error {
    /// The connection to the daemon could not be opened.
    Open,
    /// The daemon refused a request; the text is its error message.
    Fmd(String),
    /// A string argument holds an interior NUL byte.
    Nul(NulByte),
    /// The daemon reported a UUID that does not parse.
    Uuid(UuidError),
}

} // verus!
