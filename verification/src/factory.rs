//! The account factory: holds an immutable blueprint identifier and its own
//! immutable identity, derives account addresses deterministically from an
//! owner public key, and records which derived addresses are already
//! occupied so that at most one deployment ever succeeds per key.

use vstd::prelude::*;

use crate::addressing::derive_address;
use crate::addressing::derived_address;
use crate::errors::Error;

verus! {

/// A factory that provisions one account instance per owner public key at
/// a deterministic address. The blueprint and the factory identity are set
/// once at construction and never change; the set of occupied addresses
/// only grows, by one address per successful `create`.
pub struct AccountFactory {
    factory_id: Vec<u8>,
    wasm: Vec<u8>,
    deployed: Vec<Vec<u8>>,
}

impl AccountFactory {
    /// The factory's own identity, the fixed first half of every address
    /// preimage it derives.
    pub closed spec fn id(self) -> Seq<u8> {
        self.factory_id@
    }

    /// The blueprint identifier stored at construction.
    pub closed spec fn blueprint(self) -> Seq<u8> {
        self.wasm@
    }

    /// How many addresses this factory has deployed to.
    pub closed spec fn deployed_count(self) -> nat {
        self.deployed@.len()
    }

    /// Whether an account instance already occupies `addr`.
    pub closed spec fn is_deployed(self, addr: Seq<u8>) -> bool {
        exists|i: int| 0 <= i < self.deployed@.len() && self.deployed@[i]@ == addr
    }

    /// The identity and the blueprint are 32-byte values.
    pub open spec fn wf(self) -> bool {
        self.id().len() == 32 && self.blueprint().len() == 32
    }

    /// Build a factory with its identity and the blueprint used to
    /// instantiate new account objects. Nothing is deployed yet.
    pub fn __constructor(factory_id: Vec<u8>, wasm_hash: Vec<u8>) -> (factory: Self)
        requires
            factory_id@.len() == 32,
            wasm_hash@.len() == 32,
        ensures
            factory.wf(),
            factory.id() == factory_id@,
            factory.blueprint() == wasm_hash@,
            factory.deployed_count() == 0,
            forall|a: Seq<u8>| !factory.is_deployed(a),
    {
        AccountFactory { factory_id, wasm: wasm_hash, deployed: Vec::new() }
    }

    /// The blueprint identifier this factory instantiates accounts from.
    pub fn wasm_hash(&self) -> (hash: Vec<u8>)
        ensures
            hash@ == self.blueprint(),
    {
        copy_bytes(&self.wasm)
    }

    /// Predict, without deploying, the address an account for
    /// `signer_bytes` would occupy: exactly the address `create` uses for
    /// the same key.
    pub fn get_address(&self, signer_bytes: &Vec<u8>) -> (addr: Vec<u8>)
        ensures
            addr@ == derived_address(self.id(), signer_bytes@),
            addr@.len() == 32,
    {
        derive_address(&self.factory_id, signer_bytes)
    }

    /// Deploy a new account instance for `owner_bytes` at its deterministic
    /// address. Permissionless: no caller authentication, since only the
    /// holder of the matching private key can later pass authorization.
    /// Fails, leaving the factory unchanged, exactly when the derived
    /// address is already occupied: the first caller wins.
    pub fn create(&mut self, owner_bytes: &Vec<u8>) -> (result: Result<Vec<u8>, Error>)
        requires
            owner_bytes@.len() == 32,
        ensures
            final(self).id() == old(self).id(),
            final(self).blueprint() == old(self).blueprint(),
            (match result {
                Ok(addr) => {
                    &&& addr@ == derived_address(old(self).id(), owner_bytes@)
                    &&& addr@.len() == 32
                    &&& !old(self).is_deployed(addr@)
                    &&& final(self).is_deployed(addr@)
                    &&& final(self).deployed_count() == old(self).deployed_count() + 1
                    &&& forall|a: Seq<u8>|
                        final(self).is_deployed(a) <==> (old(self).is_deployed(a) || a == addr@)
                },
                Err(e) => {
                    &&& e == Error::AlreadyDeployed
                    &&& old(self).is_deployed(derived_address(old(self).id(), owner_bytes@))
                    &&& *final(self) == *old(self)
                },
            }),
    {
        let addr = derive_address(&self.factory_id, owner_bytes);
        if contains_bytes(&self.deployed, &addr) {
            return Err(Error::AlreadyDeployed);
        }
        let ghost pre = self.deployed@;
        let stored = copy_bytes(&addr);
        self.deployed.push(stored);
        proof {
            assert(self.deployed@ == pre.push(stored));
            assert(self.deployed@[pre.len() as int]@ == addr@);
            assert forall|a: Seq<u8>|
                self.is_deployed(a) <==> (old(self).is_deployed(a) || a == addr@) by {
                if self.is_deployed(a) {
                    let i = choose|i: int| 0 <= i < self.deployed@.len() && self.deployed@[i]@ == a;
                    if i < pre.len() {
                        assert(old(self).is_deployed(a));
                    } else {
                        assert(a == addr@);
                    }
                }
                if old(self).is_deployed(a) {
                    let i = choose|i: int| 0 <= i < pre.len() && pre[i]@ == a;
                    assert(self.deployed@[i]@ == a);
                }
                if a == addr@ {
                    assert(self.deployed@[pre.len() as int]@ == a);
                }
            }
        }
        Ok(addr)
    }
}

/// Determinism of prediction: the derived address depends on the factory
/// identity and the owner key alone, so two factory states with the same
/// identity — in particular one factory before and after any number of
/// deployments, which never change the identity — predict the same address
/// for the same key.
pub proof fn lemma_prediction_is_stable(factory1: AccountFactory, factory2: AccountFactory, owner: Seq<u8>)
    requires
        factory1.id() == factory2.id(),
    ensures
        derived_address(factory1.id(), owner) == derived_address(factory2.id(), owner),
{
}

/// The first caller wins: in any state a successful `create` for `owner`
/// leaves behind — the identity kept, the derived address newly occupied —
/// the derived address for `owner` is occupied, which is exactly the
/// condition under which a further `create` for `owner` fails and changes
/// nothing.
pub proof fn lemma_first_caller_wins(pre: AccountFactory, post: AccountFactory, owner: Seq<u8>)
    requires
        post.id() == pre.id(),
        forall|a: Seq<u8>|
            post.is_deployed(a) <==> (pre.is_deployed(a) || a == derived_address(pre.id(), owner)),
    ensures
        post.is_deployed(derived_address(post.id(), owner)),
{
}

/// Copy a byte vector element by element.
pub(crate) fn copy_bytes(source: &Vec<u8>) -> (copy: Vec<u8>)
    ensures
        copy@ == source@,
{
    let mut out: Vec<u8> = Vec::new();
    let mut i: usize = 0;
    while i < source.len()
        invariant
            i <= source@.len(),
            out@ == source@.subrange(0, i as int),
        decreases source@.len() - i,
    {
        out.push(source[i]);
        i = i + 1;
        assert(out@ =~= source@.subrange(0, i as int));
    }
    assert(out@ =~= source@);
    out
}

/// Whether some element of `list` holds exactly the bytes of `target`.
fn contains_bytes(list: &Vec<Vec<u8>>, target: &Vec<u8>) -> (found: bool)
    ensures
        found == exists|i: int| 0 <= i < list@.len() && list@[i]@ == target@,
{
    let mut i: usize = 0;
    while i < list.len()
        invariant
            i <= list@.len(),
            forall|j: int| 0 <= j < i ==> list@[j]@ != target@,
        decreases list@.len() - i,
    {
        if bytes_eq(&list[i], target) {
            return true;
        }
        i = i + 1;
    }
    false
}

/// Whether two byte vectors hold the same bytes.
fn bytes_eq(a: &Vec<u8>, b: &Vec<u8>) -> (equal: bool)
    ensures
        equal == (a@ == b@),
{
    if a.len() != b.len() {
        return false;
    }
    let mut i: usize = 0;
    while i < a.len()
        invariant
            i <= a@.len(),
            a@.len() == b@.len(),
            forall|j: int| 0 <= j < i ==> a@[j] == b@[j],
        decreases a@.len() - i,
    {
        if a[i] != b[i] {
            return false;
        }
        i = i + 1;
    }
    assert(a@ =~= b@);
    true
}

} // verus!
