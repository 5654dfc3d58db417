//! The errors of the registry and of the authorization check. Both are
//! reported as values.

use vstd::prelude::*;

verus! {

/// Why the authorization gate turned a caller away.
#[derive(Clone, Copy, Debug, PartialEq, Eq, Structural)]
pub enum AuthError {
    /// The owner has no delegate on file.
    NotRegistered,
    /// The owner has a delegate, and it is not the caller.
    CallerMismatch,
}

/// Why the registry refused a change.
#[derive(Clone, Copy, Debug, PartialEq, Eq, Structural)]
pub enum RegistrationError {
    /// The delegate already serves a different owner.
    DelegateAlreadyBound,
    /// The owner has no delegate to revoke.
    NotRegistered,
}

} // verus!
