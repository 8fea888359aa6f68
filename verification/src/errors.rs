//! Errors raised by the factory and the account instance. Each corresponds
//! to a condition that aborts the enclosing invocation without committing
//! any state change.

use vstd::prelude::*;

verus! {

/// The ways a factory or account operation can fail.
#[derive(Clone, Copy, Debug, PartialEq, Eq, Structural)]
pub enum Error {
    /// `create` was asked for a key whose derived address already hosts
    /// an account instance.
    AlreadyDeployed,
    /// `__constructor` on an account instance that already stores an owner.
    OwnerAlreadySet,
    /// `__check_auth` on an account instance with no stored owner.
    OwnerNotSet,
    /// The signature did not verify against the stored owner key.
    InvalidSignature,
}

} // verus!
