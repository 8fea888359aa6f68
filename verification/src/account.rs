//! The account instance: owned by exactly one ed25519 public key, stored
//! once at initialization and immutable thereafter. Authorization of any
//! action reduces to one signature check against that key; the invocation
//! context plays no part in the verdict.

use vstd::prelude::*;

use crate::crypto::ed25519_valid;
use crate::crypto::ed25519_verify;
use crate::errors::Error;

verus! {

/// The keys under which an account instance persists its state. A single
/// slot exists: the one holding the owner public key.
#[derive(Clone, Copy, Debug, PartialEq, Eq, Structural)]
pub enum DataKey {
    Owner,
}

/// The authorization verdict for an instance whose stored owner is
/// `owner`: accept exactly when an owner is stored and `signature` is a
/// valid ed25519 signature of `payload` under it. The invocation `context`
/// is ignored: one key authorizes every operation uniformly.
pub open spec fn auth_verdict(
    owner: Option<Seq<u8>>,
    payload: Seq<u8>,
    signature: Seq<u8>,
    context: Seq<Seq<u8>>,
) -> bool {
    match owner {
        Some(key) => ed25519_valid(key, payload, signature),
        None => false,
    }
}

/// Context irrelevance: with the stored owner, payload and signature held
/// fixed, the authorization verdict is the same under any two invocation
/// contexts.
pub proof fn lemma_context_irrelevant(
    owner: Option<Seq<u8>>,
    payload: Seq<u8>,
    signature: Seq<u8>,
    context1: Seq<Seq<u8>>,
    context2: Seq<Seq<u8>>,
)
    ensures
        auth_verdict(owner, payload, signature, context1) == auth_verdict(
            owner,
            payload,
            signature,
            context2,
        ),
{
}

/// An account gated by a single immutable owner key. It starts with no
/// owner and becomes active when `__constructor` stores one; there is no
/// rotation or deactivation transition.
pub struct SimpleAccount {
    owner: Option<Vec<u8>>,
}

impl SimpleAccount {
    /// The owner key stored in this instance, if one has been stored.
    pub closed spec fn stored_owner(self) -> Option<Seq<u8>> {
        match self.owner {
            Some(key) => Some(key@),
            None => None,
        }
    }

    /// A stored owner key is a 32-byte ed25519 public key.
    pub open spec fn wf(self) -> bool {
        match self.stored_owner() {
            Some(key) => key.len() == 32,
            None => true,
        }
    }

    /// A fresh, uninitialized instance: no owner is stored yet.
    pub fn new() -> (account: Self)
        ensures
            account.stored_owner() is None,
            account.wf(),
    {
        SimpleAccount { owner: None }
    }

    /// Whether this instance has a value stored under `key`.
    pub fn has(&self, key: &DataKey) -> (present: bool)
        ensures
            present == (match *key {
                DataKey::Owner => self.stored_owner() is Some,
            }),
    {
        match key {
            DataKey::Owner => self.owner.is_some(),
        }
    }

    /// Store `public_key` as the owner. Fails, leaving the instance
    /// unchanged, exactly when an owner is already stored: ownership is
    /// write-once.
    pub fn __constructor(&mut self, public_key: Vec<u8>) -> (result: Result<(), Error>)
        requires
            old(self).wf(),
            public_key@.len() == 32,
        ensures
            final(self).wf(),
            (match result {
                Ok(()) => {
                    &&& old(self).stored_owner() is None
                    &&& final(self).stored_owner() == Some(public_key@)
                },
                Err(e) => {
                    &&& e == Error::OwnerAlreadySet
                    &&& old(self).stored_owner() is Some
                    &&& *final(self) == *old(self)
                },
            }),
    {
        if self.has(&DataKey::Owner) {
            return Err(Error::OwnerAlreadySet);
        }
        self.owner = Some(public_key);
        Ok(())
    }

    /// Decide whether `signature` authorizes `signature_payload` for this
    /// account: accept exactly when the stored owner key validates it.
    /// `auth_context` describes the operation being authorized and is
    /// accepted but never inspected. Rejects when no owner is stored or
    /// the signature does not verify.
    pub fn __check_auth(
        &self,
        signature_payload: &Vec<u8>,
        signature: &Vec<u8>,
        auth_context: &Vec<Vec<u8>>,
    ) -> (verdict: Result<(), Error>)
        requires
            self.wf(),
            signature_payload@.len() == 32,
            signature@.len() == 64,
        ensures
            (match verdict {
                Ok(()) => auth_verdict(
                    self.stored_owner(),
                    signature_payload@,
                    signature@,
                    auth_context.deep_view(),
                ),
                Err(e) => {
                    &&& !auth_verdict(
                        self.stored_owner(),
                        signature_payload@,
                        signature@,
                        auth_context.deep_view(),
                    )
                    &&& e == (if self.stored_owner() is None {
                        Error::OwnerNotSet
                    } else {
                        Error::InvalidSignature
                    })
                },
            }),
    {
        match &self.owner {
            None => Err(Error::OwnerNotSet),
            Some(public_key) => {
                if ed25519_verify(public_key, signature_payload, signature) {
                    Ok(())
                } else {
                    Err(Error::InvalidSignature)
                }
            },
        }
    }
}

} // verus!
