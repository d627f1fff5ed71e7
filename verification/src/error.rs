use vstd::prelude::*;

verus! {

/// Errors reported by the compiler.
#[derive(Debug, Clone)]
pub enum ErrorCode {
    /// An input or a result that the library does not handle.
    Unhandled,
    /// The native compiler reported an error, with its message.
    CompilationError(String),
}

} // verus!
