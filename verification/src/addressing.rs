//! Deterministic address derivation: an account address is a pure function
//! of the factory's identity and the owner key used as salt, so it can be
//! predicted before anything is deployed.

use vstd::prelude::*;

use crate::crypto::sha256;
use crate::crypto::sha256_of;

verus! {

/// The bytes hashed to derive an account address: the factory's identity
/// followed by the salt. Because the identity has a fixed length, two
/// distinct salts of equal length always give distinct preimages.
pub open spec fn address_preimage(factory_id: Seq<u8>, salt: Seq<u8>) -> Seq<u8> {
    factory_id + salt
}

/// The deterministic address for `salt` under the factory identified by
/// `factory_id`: the SHA-256 digest of the address preimage.
pub open spec fn derived_address(factory_id: Seq<u8>, salt: Seq<u8>) -> Seq<u8> {
    sha256_of(address_preimage(factory_id, salt))
}

/// Compute the deterministic address for `salt` under `factory_id`.
pub(crate) fn derive_address(factory_id: &Vec<u8>, salt: &Vec<u8>) -> (addr: Vec<u8>)
    ensures
        addr@ == derived_address(factory_id@, salt@),
        addr@.len() == 32,
{
    let mut preimage: Vec<u8> = Vec::new();
    let mut i: usize = 0;
    while i < factory_id.len()
        invariant
            i <= factory_id@.len(),
            preimage@ == factory_id@.subrange(0, i as int),
        decreases factory_id@.len() - i,
    {
        preimage.push(factory_id[i]);
        i = i + 1;
        assert(preimage@ =~= factory_id@.subrange(0, i as int));
    }
    assert(preimage@ =~= factory_id@);
    let mut j: usize = 0;
    while j < salt.len()
        invariant
            j <= salt@.len(),
            preimage@ == factory_id@ + salt@.subrange(0, j as int),
        decreases salt@.len() - j,
    {
        preimage.push(salt[j]);
        j = j + 1;
        assert(preimage@ =~= factory_id@ + salt@.subrange(0, j as int));
    }
    assert(preimage@ =~= address_preimage(factory_id@, salt@));
    sha256(&preimage)
}

/// Distinctness of derivation: one factory never derives the same address
/// preimage for two distinct salts, so two distinct owner keys receive the
/// same address only if SHA-256 itself collides on the two preimages.
pub proof fn lemma_distinct_salts_distinct_preimages(factory_id: Seq<u8>, salt1: Seq<u8>, salt2: Seq<u8>)
    requires
        salt1 != salt2,
    ensures
        address_preimage(factory_id, salt1) != address_preimage(factory_id, salt2),
{
    if address_preimage(factory_id, salt1) == address_preimage(factory_id, salt2) {
        assert(address_preimage(factory_id, salt1).len() == factory_id.len() + salt1.len());
        assert(address_preimage(factory_id, salt2).len() == factory_id.len() + salt2.len());
        assert(salt1.len() == salt2.len());
        assert forall|i: int| 0 <= i < salt1.len() implies salt1[i] == salt2[i] by {
            assert(address_preimage(factory_id, salt1)[factory_id.len() + i] == salt1[i]);
            assert(address_preimage(factory_id, salt2)[factory_id.len() + i] == salt2[i]);
        }
        assert(salt1 =~= salt2);
    }
}

} // verus!
