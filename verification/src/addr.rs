//! Ledger identities and deterministic address derivation.

use vstd::prelude::*;

use crate::values::bytes32_eq;
use crate::values::Salt;

verus! {

/// An identity on the host ledger: something that can own, authorize and
/// receive deployments.
///
/// An `External` identity is one the host environment minted (an account, or
/// a contract the environment registered directly).  A `Derived` address
/// identifies an instance a factory deployed; it is a pure function of the
/// deploying factory's identity, the owner on whose behalf the factory acted,
/// and the salt.  The collision resistance that a production ledger gets from
/// a cryptographic hash of this preimage is idealised here as exact
/// injectivity: two derived addresses are equal exactly when their preimages
/// are.
#[derive(Debug)]
pub enum Address {
    External(u64),
    Derived(Box<Preimage>),
}

/// What a derived address is made of: the deploying factory's own identity,
/// the owner on whose behalf it deployed, and the caller-chosen salt.
#[derive(Debug)]
pub struct Preimage {
    pub factory: Address,
    pub owner: Address,
    pub salt: Salt,
}

/// The deterministic address derived for `owner` and `salt`, namespaced by
/// the deploying factory's identity.  A total function: every input yields a
/// valid address, whether or not an instance exists at it.
pub open spec fn derived_address(factory: Address, owner: Address, salt: Salt) -> Address {
    Address::Derived(Box::new(Preimage { factory, owner, salt }))
}

impl Address {
    /// Returns a copy of this identity.
    pub fn dup(&self) -> (r: Address)
        ensures
            r == *self,
        decreases self,
    {
        match self {
            Address::External(id) => Address::External(*id),
            Address::Derived(p) => Address::Derived(
                Box::new(
                    Preimage {
                        factory: p.factory.dup(),
                        owner: p.owner.dup(),
                        salt: p.salt,
                    },
                ),
            ),
        }
    }
}

/// Compares two identities structurally.
pub fn addr_eq(a: &Address, b: &Address) -> (r: bool)
    ensures
        r == (*a == *b),
    decreases a,
{
    match (a, b) {
        (Address::External(x), Address::External(y)) => x == y,
        (Address::Derived(p), Address::Derived(q)) => {
            let fe = addr_eq(&p.factory, &q.factory);
            let oe = addr_eq(&p.owner, &q.owner);
            let se = bytes32_eq(&p.salt.bytes, &q.salt.bytes);
            fe && oe && se
        },
        _ => false,
    }
}

impl PartialEq for Address {
    fn eq(&self, other: &Address) -> (r: bool) {
        addr_eq(self, other)
    }
}

impl vstd::std_specs::cmp::PartialEqSpecImpl for Address {
    open spec fn obeys_eq_spec() -> bool {
        true
    }

    open spec fn eq_spec(&self, other: &Address) -> bool {
        *self == *other
    }
}

/// Builds the derived address for `owner` and `salt` under `factory`.
pub fn derive(factory: &Address, owner: Address, salt: Salt) -> (r: Address)
    ensures
        r == derived_address(*factory, owner, salt),
{
    Address::Derived(Box::new(Preimage { factory: factory.dup(), owner, salt }))
}

} // verus!
