//! Plain value types that flow through the factory: salts, code hashes,
//! entry-point names and host values.

use vstd::prelude::*;

verus! {

/// A caller-chosen 32-byte value that diversifies address derivation.
///
/// Every value is legal; the factory attaches no meaning to the bytes.
#[derive(Clone, Copy, Debug)]
pub struct Salt {
    pub bytes: [u8; 32],
}

/// The 32-byte content hash that identifies previously uploaded executable
/// code on the host ledger.
#[derive(Clone, Copy, Debug)]
pub struct WasmHash {
    pub bytes: [u8; 32],
}

/// The name of a contract entry point, padded on the right with zero bytes.
#[derive(Clone, Copy, Debug)]
pub struct Symbol {
    pub text: [u8; 32],
}

/// A host value: an initializer argument or an initializer's return value.
#[derive(Clone, Copy, Debug, PartialEq, Eq, Structural)]
pub enum Val {
    Void,
    U32(u32),
}

impl Val {
    /// Whether this value is the void value.
    pub fn is_void(&self) -> (r: bool)
        ensures
            r == (*self == Val::Void),
    {
        matches!(self, Val::Void)
    }
}

/// Compares two 32-byte arrays element by element.
pub(crate) fn bytes32_eq(a: &[u8; 32], b: &[u8; 32]) -> (r: bool)
    ensures
        r == (*a == *b),
{
    let mut i: usize = 0;
    while i < 32
        invariant
            i <= 32,
            forall|j: int| 0 <= j < i ==> a[j] == b[j],
        decreases 32 - i,
    {
        if a[i] != b[i] {
            return false;
        }
        i = i + 1;
    }
    assert(*a =~= *b);
    true
}

/// Copies a vector of host values.
pub fn dup_vals(v: &Vec<Val>) -> (r: Vec<Val>)
    ensures
        r@ == v@,
{
    let mut r: Vec<Val> = Vec::new();
    let mut i: usize = 0;
    while i < v.len()
        invariant
            i <= v.len(),
            r@ == v@.subrange(0, i as int),
        decreases v.len() - i,
    {
        r.push(v[i]);
        i = i + 1;
    }
    assert(r@ == v@);
    r
}

/// Compares two vectors of host values element by element.
pub fn vals_eq(a: &Vec<Val>, b: &Vec<Val>) -> (r: bool)
    ensures
        r == (a@ == b@),
{
    if a.len() != b.len() {
        return false;
    }
    let mut i: usize = 0;
    while i < a.len()
        invariant
            i <= a.len(),
            a.len() == b.len(),
            forall|j: int| 0 <= j < i ==> a@[j] == b@[j],
        decreases a.len() - i,
    {
        if a[i] != b[i] {
            return false;
        }
        i = i + 1;
    }
    assert(a@ =~= b@);
    true
}

impl PartialEq for Salt {
    fn eq(&self, other: &Salt) -> (r: bool) {
        bytes32_eq(&self.bytes, &other.bytes)
    }
}

impl vstd::std_specs::cmp::PartialEqSpecImpl for Salt {
    open spec fn obeys_eq_spec() -> bool {
        true
    }

    open spec fn eq_spec(&self, other: &Salt) -> bool {
        *self == *other
    }
}

impl PartialEq for WasmHash {
    fn eq(&self, other: &WasmHash) -> (r: bool) {
        bytes32_eq(&self.bytes, &other.bytes)
    }
}

impl vstd::std_specs::cmp::PartialEqSpecImpl for WasmHash {
    open spec fn obeys_eq_spec() -> bool {
        true
    }

    open spec fn eq_spec(&self, other: &WasmHash) -> bool {
        *self == *other
    }
}

impl PartialEq for Symbol {
    fn eq(&self, other: &Symbol) -> (r: bool) {
        bytes32_eq(&self.text, &other.text)
    }
}

impl vstd::std_specs::cmp::PartialEqSpecImpl for Symbol {
    open spec fn obeys_eq_spec() -> bool {
        true
    }

    open spec fn eq_spec(&self, other: &Symbol) -> bool {
        *self == *other
    }
}

} // verus!
