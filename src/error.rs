use vstd::prelude::*;

verus! {

/// Failure of an authentication attempt.
///
/// `E` is the error type of the session library that performs the exchanges.
#[derive(Clone, Debug, PartialEq, Eq)]
pub enum Error<E> {
    /// The exchanges completed, yet the session is still not authenticated.
    /// Holds a human-readable message naming the user.
    AuthenticationError(String),
    /// An exchange with the server failed; the session's own error, as it was.
    Session(E),
}

} // verus!
