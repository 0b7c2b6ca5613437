use vstd::prelude::*;

verus! {

#[verifier::external_type_specification]
#[verifier::external_body]
pub struct ExIoError(std::io::Error);

/// The one failure of this library: an operating system call reported an error.
#[derive(Debug)]
pub enum PtyError {
    /// Carries the error that the operating system reported.
    SyscallFailed(std::io::Error),
}

} // verus!
