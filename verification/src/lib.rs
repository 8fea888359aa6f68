//! A minimal smart-account library: a factory that provisions per-user
//! account objects at deterministic addresses derived from a single owner
//! public key, and an account object that authorizes actions by verifying
//! an ed25519 signature against that key.
//!
//! The hosting environment is modeled rather than called: each component
//! carries its own write-once state (the factory its blueprint, identity
//! and occupied addresses; the account its owner key), and the two
//! capabilities the logic actually depends on — SHA-256 for address
//! derivation and ed25519 for signature verification — are reached through
//! trusted wrappers in `crypto`. Instantiating the account object at the
//! address `create` returns is the environment's step: it builds a fresh
//! `SimpleAccount` and hands it the owner key as its one initialization
//! argument.

mod account;
mod addressing;
mod crypto;
mod errors;
mod factory;

pub use account::auth_verdict;
pub use account::lemma_context_irrelevant;
pub use account::DataKey;
pub use account::SimpleAccount;
pub use addressing::address_preimage;
pub use addressing::derived_address;
pub use addressing::lemma_distinct_salts_distinct_preimages;
pub use crypto::ed25519_valid;
pub use crypto::sha256_of;
pub use errors::Error;
pub use factory::lemma_first_caller_wins;
pub use factory::lemma_prediction_is_stable;
pub use factory::AccountFactory;
