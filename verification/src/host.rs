//! A model of the ledger-like host the factory runs on.
//!
//! The host stores uploaded code, the instances claimed at derived addresses,
//! the authorization capabilities that identities have granted, and a record
//! of every authorization request that was made.  The factory owns no state
//! of its own: existence checking, insertion atomicity and authorization all
//! live here.
//!
//! Code is modelled by what a deployment can observe of it: the one entry
//! point it exports and whether invoking that entry point fails.  The
//! modelled initializer records its arguments in the instance's storage and
//! returns [`Val::Void`].

use vstd::prelude::*;

use crate::addr::addr_eq;
use crate::addr::derived_address;
use crate::addr::Address;
use crate::values::bytes32_eq;
use crate::values::dup_vals;
use crate::values::vals_eq;
use crate::values::Salt;
use crate::values::Symbol;
use crate::values::Val;
use crate::values::WasmHash;

verus! {

/// One unit of uploaded executable code, as the host ledger sees it: its
/// content hash, the single entry point it exports, and whether invoking
/// that entry point fails.
#[derive(Clone, Copy, Debug)]
pub struct CodeDef {
    pub hash: WasmHash,
    pub init_fn: Symbol,
    pub init_fails: bool,
}

/// A contract instance claimed at a derived address: the code backing it and
/// the storage its initializer wrote.
#[derive(Debug)]
pub struct Instance {
    pub addr: Address,
    pub code: WasmHash,
    pub storage: Vec<Val>,
}

/// A call descriptor presented to the authorization verifier: the factory
/// being asked to deploy, and the entire argument tuple of the requested
/// deployment.  Authorizing one descriptor never authorizes another.
#[derive(Debug)]
pub struct AuthCall {
    pub factory: Address,
    pub deployer: Address,
    pub wasm_hash: WasmHash,
    pub salt: Salt,
    pub init_fn: Symbol,
    pub init_args: Vec<Val>,
}

/// The mathematical value of an [`AuthCall`].
#[verifier::ext_equal]
pub struct CallView {
    pub factory: Address,
    pub deployer: Address,
    pub wasm_hash: WasmHash,
    pub salt: Salt,
    pub init_fn: Symbol,
    pub init_args: Seq<Val>,
}

impl View for AuthCall {
    type V = CallView;

    open spec fn view(&self) -> CallView {
        CallView {
            factory: self.factory,
            deployer: self.deployer,
            wasm_hash: self.wasm_hash,
            salt: self.salt,
            init_fn: self.init_fn,
            init_args: self.init_args@,
        }
    }
}

/// Why the host refused to create and initialize an instance.
#[derive(Clone, Copy, Debug, PartialEq, Eq, Structural)]
pub enum HostError {
    /// No uploaded code carries the requested content hash.
    MissingCode,
    /// An instance already exists at the derived address.
    AddressTaken,
    /// The initializer entry point is missing or its invocation failed; the
    /// whole creation was rolled back with it.
    InitFailed,
}

/// Compares two call descriptors field by field.
pub fn call_matches(a: &AuthCall, b: &AuthCall) -> (r: bool)
    ensures
        r == (a@ == b@),
{
    let fe = addr_eq(&a.factory, &b.factory);
    let de = addr_eq(&a.deployer, &b.deployer);
    let we = bytes32_eq(&a.wasm_hash.bytes, &b.wasm_hash.bytes);
    let se = bytes32_eq(&a.salt.bytes, &b.salt.bytes);
    let ie = bytes32_eq(&a.init_fn.text, &b.init_fn.text);
    let ve = vals_eq(&a.init_args, &b.init_args);
    let r = fe && de && we && se && ie && ve;
    proof {
        if r {
            assert(a@ =~= b@);
        }
        assert(a@ == b@ ==> (a.factory == b.factory && a.deployer == b.deployer
            && a.wasm_hash == b.wasm_hash && a.salt == b.salt && a.init_fn == b.init_fn
            && a.init_args@ == b.init_args@));
    }
    r
}

/// The ledger-like host: uploaded code, claimed instances, authorization
/// grants, and the record of authorization requests made so far.
pub struct Host {
    pub next_id: u64,
    pub code: Vec<CodeDef>,
    pub instances: Vec<Instance>,
    pub grants: Vec<AuthCall>,
    pub auth_trace: Vec<AuthCall>,
}

impl Host {
    /// Well-formedness: instance addresses are pairwise distinct (an address
    /// is claimed at most once), and uploaded code hashes are pairwise
    /// distinct (a content hash identifies one unit of code).
    pub open spec fn wf(self) -> bool {
        &&& forall|i: int, j: int|
            0 <= i < j < self.instances@.len() ==> self.instances@[i].addr
                != self.instances@[j].addr
        &&& forall|i: int, j: int|
            0 <= i < j < self.code@.len() ==> self.code@[i].hash != self.code@[j].hash
    }

    /// Whether an instance exists at address `a`.
    pub open spec fn claimed(self, a: Address) -> bool {
        exists|i: int| 0 <= i < self.instances@.len() && self.instances@[i].addr == a
    }

    /// The index of the instance claimed at `a`.
    pub open spec fn instance_index(self, a: Address) -> int {
        choose|i: int| 0 <= i < self.instances@.len() && self.instances@[i].addr == a
    }

    /// The storage of the instance claimed at `a`.
    pub open spec fn storage_at(self, a: Address) -> Seq<Val> {
        self.instances@[self.instance_index(a)].storage@
    }

    /// Whether code with content hash `h` has been uploaded.
    pub open spec fn has_code(self, h: WasmHash) -> bool {
        exists|i: int| 0 <= i < self.code@.len() && self.code@[i].hash == h
    }

    /// The index of the uploaded code with content hash `h`.
    pub open spec fn code_index(self, h: WasmHash) -> int {
        choose|i: int| 0 <= i < self.code@.len() && self.code@[i].hash == h
    }

    /// The uploaded code with content hash `h`.
    pub open spec fn code_at(self, h: WasmHash) -> CodeDef {
        self.code@[self.code_index(h)]
    }

    /// Whether initializing code `h` through entry point `f` succeeds: the
    /// code exists, exports `f`, and its initializer does not fail.
    pub open spec fn init_ok(self, h: WasmHash, f: Symbol) -> bool {
        self.has_code(h) && self.code_at(h).init_fn == f && !self.code_at(h).init_fails
    }

    /// Whether a capability granting exactly the call `c` is present.
    pub open spec fn granted(self, c: CallView) -> bool {
        exists|i: int| 0 <= i < self.grants@.len() && self.grants@[i]@ == c
    }

    /// The record of authorization requests, as call descriptors.
    pub open spec fn trace_views(self) -> Seq<CallView> {
        self.auth_trace@.map_values(|c: AuthCall| c@)
    }

    /// An empty ledger.
    pub fn new() -> (h: Host)
        ensures
            h.wf(),
            h.next_id == 0,
            h.code@ == Seq::<CodeDef>::empty(),
            h.instances@ == Seq::<Instance>::empty(),
            h.grants@ == Seq::<AuthCall>::empty(),
            h.auth_trace@ == Seq::<AuthCall>::empty(),
    {
        Host {
            next_id: 0,
            code: Vec::new(),
            instances: Vec::new(),
            grants: Vec::new(),
            auth_trace: Vec::new(),
        }
    }

    /// Mints a fresh external identity, as the environment does when it
    /// creates an account or registers a contract directly.
    pub fn register_identity(&mut self) -> (a: Address)
        requires
            old(self).next_id < u64::MAX,
        ensures
            a == Address::External(old(self).next_id),
            final(self).next_id == old(self).next_id + 1,
            final(self).code@ == old(self).code@,
            final(self).instances@ == old(self).instances@,
            final(self).grants@ == old(self).grants@,
            final(self).auth_trace@ == old(self).auth_trace@,
    {
        let id = self.next_id;
        self.next_id = self.next_id + 1;
        Address::External(id)
    }

    /// Looks up uploaded code by content hash.
    fn find_code(&self, h: &WasmHash) -> (r: Option<usize>)
        ensures
            match r {
                Some(i) => i < self.code@.len() && self.code@[i as int].hash == *h,
                None => !self.has_code(*h),
            },
    {
        let mut i: usize = 0;
        while i < self.code.len()
            invariant
                i <= self.code@.len(),
                forall|j: int| 0 <= j < i ==> self.code@[j].hash != *h,
            decreases self.code@.len() - i,
        {
            if bytes32_eq(&self.code[i].hash.bytes, &h.bytes) {
                return Some(i);
            }
            i = i + 1;
        }
        None
    }

    /// Looks up the instance claimed at an address.
    fn find_instance(&self, a: &Address) -> (r: Option<usize>)
        ensures
            match r {
                Some(i) => i < self.instances@.len() && self.instances@[i as int].addr == *a,
                None => !self.claimed(*a),
            },
    {
        let mut i: usize = 0;
        while i < self.instances.len()
            invariant
                i <= self.instances@.len(),
                forall|j: int| 0 <= j < i ==> self.instances@[j].addr != *a,
            decreases self.instances@.len() - i,
        {
            if addr_eq(&self.instances[i].addr, a) {
                return Some(i);
            }
            i = i + 1;
        }
        None
    }

    /// Records a unit of uploaded code.  Content-addressed: a hash that is
    /// already present keeps its earlier definition, and the upload reports
    /// whether the hash was fresh.
    pub fn upload_code(&mut self, def: CodeDef) -> (fresh: bool)
        ensures
            fresh == !old(self).has_code(def.hash),
            fresh ==> final(self).code@ == old(self).code@.push(def),
            !fresh ==> final(self).code@ == old(self).code@,
            final(self).next_id == old(self).next_id,
            final(self).instances@ == old(self).instances@,
            final(self).grants@ == old(self).grants@,
            final(self).auth_trace@ == old(self).auth_trace@,
            old(self).wf() ==> final(self).wf(),
    {
        match self.find_code(&def.hash) {
            Some(_) => false,
            None => {
                let ghost pre = *self;
                self.code.push(def);
                proof {
                    if pre.wf() {
                        assert forall|i: int, j: int|
                            0 <= i < j < self.code@.len() implies self.code@[i].hash
                            != self.code@[j].hash by {
                            if j == self.code@.len() - 1 {
                                assert(!pre.has_code(def.hash));
                                assert(pre.code@[i].hash != def.hash);
                            }
                        }
                    }
                }
                true
            },
        }
    }

    /// Stores a capability: `call.deployer` has consented to exactly this
    /// call.
    pub fn grant_authorization(&mut self, call: AuthCall)
        ensures
            final(self).grants@ == old(self).grants@.push(call),
            final(self).next_id == old(self).next_id,
            final(self).code@ == old(self).code@,
            final(self).instances@ == old(self).instances@,
            final(self).auth_trace@ == old(self).auth_trace@,
            old(self).wf() ==> final(self).wf(),
    {
        self.grants.push(call);
    }

    /// Demands proof of consent for exactly the call `call`.  The request is
    /// recorded, and it is granted exactly when a capability for this
    /// descriptor is present.
    pub fn require_authorization(&mut self, call: AuthCall) -> (granted: bool)
        ensures
            granted == old(self).granted(call@),
            final(self).auth_trace@ == old(self).auth_trace@.push(call),
            final(self).trace_views() == old(self).trace_views().push(call@),
            final(self).next_id == old(self).next_id,
            final(self).code@ == old(self).code@,
            final(self).instances@ == old(self).instances@,
            final(self).grants@ == old(self).grants@,
            old(self).wf() ==> final(self).wf(),
    {
        let mut found = false;
        let mut i: usize = 0;
        while !found && i < self.grants.len()
            invariant
                i <= self.grants@.len(),
                *self == *old(self),
                found ==> exists|j: int| 0 <= j < i && self.grants@[j]@ == call@,
                !found ==> forall|j: int| 0 <= j < i ==> self.grants@[j]@ != call@,
            decreases self.grants@.len() - i,
        {
            if call_matches(&self.grants[i], &call) {
                found = true;
            }
            i = i + 1;
        }
        self.auth_trace.push(call);
        proof {
            assert(self.trace_views() =~= old(self).trace_views().push(call@));
        }
        found
    }

    /// The host's transactional deployment primitive: creates a new instance
    /// at the address derived from `(factory, owner, salt)`, backed by the
    /// code uploaded under `wasm_hash`, and invokes its initializer entry
    /// point `init_fn` with `init_args` in the same atomic unit of work.  On
    /// any failure — unknown code, an already-claimed address, or a failing
    /// initializer — the whole unit is rolled back and the ledger is left
    /// unchanged.
    pub fn create_and_init(
        &mut self,
        factory: &Address,
        owner: Address,
        salt: Salt,
        wasm_hash: WasmHash,
        init_fn: Symbol,
        init_args: Vec<Val>,
    ) -> (r: Result<(Address, Val), HostError>)
        requires
            old(self).wf(),
        ensures
            r == create_result(*old(self), *factory, owner, salt, wasm_hash, init_fn),
            r is Err ==> final(self).instances@ == old(self).instances@,
            r is Ok ==> final(self).instances@ == old(self).instances@.push(
                (Instance {
                    addr: derived_address(*factory, owner, salt),
                    code: wasm_hash,
                    storage: init_args,
                }),
            ),
            final(self).next_id == old(self).next_id,
            final(self).code@ == old(self).code@,
            final(self).grants@ == old(self).grants@,
            final(self).auth_trace@ == old(self).auth_trace@,
            final(self).wf(),
    {
        let code_idx = match self.find_code(&wasm_hash) {
            Some(i) => i,
            None => {
                return Err(HostError::MissingCode);
            },
        };
        let a = crate::addr::derive(factory, owner, salt);
        if self.find_instance(&a).is_some() {
            return Err(HostError::AddressTaken);
        }
        proof {
            assert(self.has_code(wasm_hash));
            let ci = self.code_index(wasm_hash);
            assert(0 <= ci < self.code@.len() && self.code@[ci].hash == wasm_hash);
            if ci < code_idx as int {
                assert(self.code@[ci].hash != self.code@[code_idx as int].hash);
            }
            if ci > code_idx as int {
                assert(self.code@[code_idx as int].hash != self.code@[ci].hash);
            }
            assert(self.code_at(wasm_hash) == self.code@[code_idx as int]);
        }
        let def = self.code[code_idx];
        if !(def.init_fn == init_fn) || def.init_fails {
            return Err(HostError::InitFailed);
        }
        let ghost pre = *self;
        let ret_addr = a.dup();
        self.instances.push(Instance { addr: a, code: wasm_hash, storage: init_args });
        proof {
            assert forall|i: int, j: int|
                0 <= i < j < self.instances@.len() implies self.instances@[i].addr
                != self.instances@[j].addr by {
                if j == self.instances@.len() - 1 {
                    if self.instances@[i].addr == self.instances@[j].addr {
                        assert(pre.claimed(derived_address(*factory, owner, salt)));
                    }
                }
            }
        }
        Ok((ret_addr, Val::Void))
    }

    /// Whether an instance exists at `a`.
    pub fn is_claimed(&self, a: &Address) -> (r: bool)
        ensures
            r == self.claimed(*a),
    {
        self.find_instance(a).is_some()
    }

    /// The storage of the instance claimed at `a`, if one exists.
    pub fn get_storage(&self, a: &Address) -> (r: Option<Vec<Val>>)
        requires
            self.wf(),
        ensures
            match r {
                Some(v) => self.claimed(*a) && v@ == self.storage_at(*a),
                None => !self.claimed(*a),
            },
    {
        match self.find_instance(a) {
            Some(i) => {
                proof {
                    let ii = self.instance_index(*a);
                    assert(0 <= ii < self.instances@.len() && self.instances@[ii].addr == *a);
                    if ii < i as int {
                        assert(self.instances@[ii].addr != self.instances@[i as int].addr);
                    }
                    if ii > i as int {
                        assert(self.instances@[i as int].addr != self.instances@[ii].addr);
                    }
                }
                Some(dup_vals(&self.instances[i].storage))
            },
            None => None,
        }
    }
}

/// What the host's deployment primitive returns, as a function of the ledger
/// it starts from and the request: the first failure in the order unknown
/// code, claimed address, failing initializer — or, with none, the derived
/// address paired with the initializer's void result.  The initializer's
/// arguments do not influence the outcome.
pub open spec fn create_result(
    h: Host,
    factory: Address,
    owner: Address,
    salt: Salt,
    wasm_hash: WasmHash,
    init_fn: Symbol,
) -> Result<(Address, Val), HostError> {
    if !h.has_code(wasm_hash) {
        Err(HostError::MissingCode)
    } else if h.claimed(derived_address(factory, owner, salt)) {
        Err(HostError::AddressTaken)
    } else if !h.init_ok(wasm_hash, init_fn) {
        Err(HostError::InitFailed)
    } else {
        Ok((derived_address(factory, owner, salt), Val::Void))
    }
}

/// Whether a descriptor is granted depends only on the stored grants.
pub proof fn lemma_granted_congruent(a: Host, b: Host, c: CallView)
    requires
        a.grants@ == b.grants@,
    ensures
        a.granted(c) == b.granted(c),
{
    if a.granted(c) {
        let i = choose|i: int| 0 <= i < a.grants@.len() && a.grants@[i]@ == c;
        assert(0 <= i < b.grants@.len() && b.grants@[i]@ == c);
    }
    if b.granted(c) {
        let i = choose|i: int| 0 <= i < b.grants@.len() && b.grants@[i]@ == c;
        assert(0 <= i < a.grants@.len() && a.grants@[i]@ == c);
    }
}

/// Code lookup depends only on the uploaded code.
pub proof fn lemma_code_lookup_congruent(a: Host, b: Host, w: WasmHash)
    requires
        a.code@ == b.code@,
        a.wf(),
    ensures
        a.has_code(w) == b.has_code(w),
        a.has_code(w) ==> a.code_at(w) == b.code_at(w),
{
    assert(a.has_code(w) == b.has_code(w)) by {
        if a.has_code(w) {
            let i = choose|i: int| 0 <= i < a.code@.len() && a.code@[i].hash == w;
            assert(0 <= i < b.code@.len() && b.code@[i].hash == w);
        }
        if b.has_code(w) {
            let i = choose|i: int| 0 <= i < b.code@.len() && b.code@[i].hash == w;
            assert(0 <= i < a.code@.len() && a.code@[i].hash == w);
        }
    }
    if a.has_code(w) {
        let ia = a.code_index(w);
        let ib = b.code_index(w);
        assert(0 <= ia < a.code@.len() && a.code@[ia].hash == w);
        assert(0 <= ib < b.code@.len() && b.code@[ib].hash == w);
        assert(ia == ib) by {
            if ia < ib {
                assert(a.code@[ia].hash != a.code@[ib].hash);
            }
            if ib < ia {
                assert(a.code@[ib].hash != a.code@[ia].hash);
            }
        }
    }
}

/// The outcome of the host's deployment primitive depends only on the
/// uploaded code and the claimed instances, not on the rest of the ledger.
pub proof fn lemma_create_result_congruent(
    a: Host,
    b: Host,
    factory: Address,
    owner: Address,
    salt: Salt,
    wasm_hash: WasmHash,
    init_fn: Symbol,
)
    requires
        a.code@ == b.code@,
        a.instances@ == b.instances@,
        a.wf(),
    ensures
        create_result(a, factory, owner, salt, wasm_hash, init_fn) == create_result(
            b,
            factory,
            owner,
            salt,
            wasm_hash,
            init_fn,
        ),
{
    let d = derived_address(factory, owner, salt);
    lemma_code_lookup_congruent(a, b, wasm_hash);
    assert(a.claimed(d) == b.claimed(d)) by {
        if a.claimed(d) {
            let i = choose|i: int| 0 <= i < a.instances@.len() && a.instances@[i].addr == d;
            assert(0 <= i < b.instances@.len() && b.instances@[i].addr == d);
        }
        if b.claimed(d) {
            let i = choose|i: int| 0 <= i < b.instances@.len() && b.instances@[i].addr == d;
            assert(0 <= i < a.instances@.len() && a.instances@[i].addr == d);
        }
    }
}

} // verus!
