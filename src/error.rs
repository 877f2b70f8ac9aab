use vstd::prelude::*;

verus! {

/// Failure of a connection or window request.
#[derive(Clone, Debug, PartialEq, Eq)]
pub enum Error {
    /// A caller-supplied parameter or the program state was invalid.
    Invalid,
    /// A heap allocation failed.
    OutOfMemory,
    /// The native system refused for want of handles or identifiers.
    SystemResources,
    /// A human-readable diagnostic reported by the loader or the system.
    Text(String),
    /// The native system failed without reporting a cause.
    Unknown,
    /// A required protocol, extension or shared library is absent.
    Unsupported,
}

} // verus!
