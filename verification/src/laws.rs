//! Library-wide properties that relate several operations.
//!
//! Each law is stated over the same spec functions that the executable
//! contracts use — [`derived_address`], [`deploy_result`],
//! [`deploy_auth_ok`] and the ledger predicates of [`Host`] — so that it
//! composes directly with the `ensures` of `deploy`, `calculate_address` and
//! the host operations.

use vstd::prelude::*;

use crate::addr::derived_address;
use crate::addr::Address;
use crate::factory::deploy_auth_ok;
use crate::factory::deploy_call;
use crate::factory::deploy_result;
use crate::factory::DeployError;
use crate::host::lemma_code_lookup_congruent;
use crate::host::lemma_granted_congruent;
use crate::host::AuthCall;
use crate::host::CallView;
use crate::host::Host;
use crate::host::Instance;
use crate::values::Salt;
use crate::values::Symbol;
use crate::values::Val;
use crate::values::WasmHash;

verus! {

/// Determinism: the derived address is a pure function of the factory, the
/// owner and the salt.  Any two computations from equal inputs are equal —
/// in particular an address pre-computed with `calculate_address` and the
/// address a later successful `deploy` returns, since both contracts state
/// their result as `derived_address` of the same triple.
pub proof fn lemma_address_determinism(
    factory: Address,
    owner: Address,
    salt: Salt,
    a1: Address,
    a2: Address,
)
    requires
        a1 == derived_address(factory, owner, salt),
        a2 == derived_address(factory, owner, salt),
    ensures
        a1 == a2,
{
}

/// Derivation is injective in all three inputs: two derived addresses are
/// equal exactly when the deploying factory, the owner and the salt all
/// agree.  Varying any one of them — a different salt, or a different
/// factory — yields a different address.
pub proof fn lemma_derivation_injective(
    f1: Address,
    o1: Address,
    s1: Salt,
    f2: Address,
    o2: Address,
    s2: Salt,
)
    ensures
        (derived_address(f1, o1, s1) == derived_address(f2, o2, s2)) <==> (f1 == f2 && o1 == o2
            && s1 == s2),
{
}

/// Claiming one more instance claims exactly its address: afterwards an
/// address is claimed iff it was claimed before or is the new instance's.
pub proof fn lemma_claimed_after_push(h: Host, h2: Host, inst: Instance, a: Address)
    requires
        h2.instances@ == h.instances@.push(inst),
    ensures
        h2.claimed(a) <==> (h.claimed(a) || inst.addr == a),
{
    if h.claimed(a) {
        let i = choose|i: int| 0 <= i < h.instances@.len() && h.instances@[i].addr == a;
        assert(h2.instances@[i].addr == a);
    }
    if inst.addr == a {
        assert(h2.instances@[h.instances@.len() as int].addr == a);
    }
    if h2.claimed(a) {
        let i = choose|i: int| 0 <= i < h2.instances@.len() && h2.instances@[i].addr == a;
        if i < h.instances@.len() {
            assert(h.instances@[i].addr == a);
        } else {
            assert(inst.addr == a);
        }
    }
}

/// Uniqueness under salt variation: if, on the same ledger, deployments by
/// one factory for one owner under salts `s1` and `s2 != s1` would both
/// succeed, then the two derived addresses differ, and after the `s1`
/// deployment has claimed its instance the `s2` deployment still succeeds.
pub proof fn lemma_salt_variation(
    h: Host,
    h2: Host,
    factory: Address,
    owner: Address,
    wh1: WasmHash,
    wh2: WasmHash,
    s1: Salt,
    s2: Salt,
    f1: Symbol,
    f2: Symbol,
    a1: Seq<Val>,
    a2: Seq<Val>,
    st: Vec<Val>,
)
    requires
        s1 != s2,
        h.wf(),
        deploy_result(h, factory, owner, wh1, s1, f1, a1) is Ok,
        deploy_result(h, factory, owner, wh2, s2, f2, a2) is Ok,
        h2.instances@ == h.instances@.push(
            (Instance { addr: derived_address(factory, owner, s1), code: wh1, storage: st }),
        ),
        h2.code@ == h.code@,
        h2.grants@ == h.grants@,
    ensures
        derived_address(factory, owner, s1) != derived_address(factory, owner, s2),
        deploy_result(h2, factory, owner, wh2, s2, f2, a2) is Ok,
{
    let d1 = derived_address(factory, owner, s1);
    let d2 = derived_address(factory, owner, s2);
    lemma_derivation_injective(factory, owner, s1, factory, owner, s2);
    lemma_granted_congruent(h2, h, deploy_call(factory, owner, wh2, s2, f2, a2));
    lemma_code_lookup_congruent(h, h2, wh2);
    lemma_claimed_after_push(
        h,
        h2,
        Instance { addr: d1, code: wh1, storage: st },
        d2,
    );
}

/// Double-deploy rejection: once an instance is claimed at the address
/// derived for `(owner, salt)`, every further deployment by the same factory
/// with the same owner and salt fails with `AddressAlreadyClaimed`, whatever
/// code hash or initializer it carries — provided it passes the two checks
/// that come first, the authorization gate and the code lookup.
pub proof fn lemma_double_deploy_rejected(
    h: Host,
    h2: Host,
    factory: Address,
    owner: Address,
    salt: Salt,
    inst: Instance,
    wh2: WasmHash,
    f2: Symbol,
    a2: Seq<Val>,
)
    requires
        h2.instances@ == h.instances@.push(inst),
        inst.addr == derived_address(factory, owner, salt),
        deploy_auth_ok(h2, factory, owner, wh2, salt, f2, a2),
        h2.has_code(wh2),
    ensures
        deploy_result(h2, factory, owner, wh2, salt, f2, a2) == Err::<(Address, Val), DeployError>(
            DeployError::AddressAlreadyClaimed,
        ),
{
    lemma_claimed_after_push(h, h2, inst, derived_address(factory, owner, salt));
}

/// Cross-factory independence: distinct factories derive distinct addresses
/// from the same owner and salt, and a deployment by one factory leaves a
/// deployment by the other exactly as possible as it was before.
pub proof fn lemma_cross_factory_independence(
    h: Host,
    h2: Host,
    f1: Address,
    f2: Address,
    owner: Address,
    salt: Salt,
    code1: WasmHash,
    st: Vec<Val>,
    wh: WasmHash,
    init_fn: Symbol,
    args: Seq<Val>,
)
    requires
        f1 != f2,
        h.wf(),
        deploy_result(h, f2, owner, wh, salt, init_fn, args) is Ok,
        h2.instances@ == h.instances@.push(
            (Instance { addr: derived_address(f1, owner, salt), code: code1, storage: st }),
        ),
        h2.code@ == h.code@,
        h2.grants@ == h.grants@,
    ensures
        derived_address(f1, owner, salt) != derived_address(f2, owner, salt),
        deploy_result(h2, f2, owner, wh, salt, init_fn, args) is Ok,
{
    let d1 = derived_address(f1, owner, salt);
    let d2 = derived_address(f2, owner, salt);
    lemma_derivation_injective(f1, owner, salt, f2, owner, salt);
    lemma_granted_congruent(h2, h, deploy_call(f2, owner, wh, salt, init_fn, args));
    lemma_code_lookup_congruent(h, h2, wh);
    lemma_claimed_after_push(
        h,
        h2,
        Instance { addr: d1, code: code1, storage: st },
        d2,
    );
}

/// Self-deploy exemption: when the deployer is the factory itself, the
/// authorization gate is satisfied on every ledger — in particular on one
/// holding no grant at all, so no external proof of consent is ever needed.
/// The contract of `deploy` states the other half: in this case the record
/// of authorization requests is left untouched.
pub proof fn lemma_self_deploy_exempt(
    h: Host,
    factory: Address,
    wasm_hash: WasmHash,
    salt: Salt,
    init_fn: Symbol,
    init_args: Seq<Val>,
)
    ensures
        deploy_auth_ok(h, factory, factory, wasm_hash, salt, init_fn, init_args),
{
}

/// A capability authorizes exactly the call it names: adding a grant `g`
/// authorizes a descriptor `c` beyond what was authorized before only when
/// `c` matches `g` in every component — altering the factory, the deployer,
/// the code hash, the salt, the entry point or any initializer argument
/// after authorization invalidates it.
pub proof fn lemma_grant_exact(h: Host, h2: Host, g: AuthCall, c: CallView)
    requires
        h2.grants@ == h.grants@.push(g),
    ensures
        h2.granted(c) <==> (h.granted(c) || g@ == c),
        g@.factory != c.factory ==> (h2.granted(c) <==> h.granted(c)),
        g@.deployer != c.deployer ==> (h2.granted(c) <==> h.granted(c)),
        g@.wasm_hash != c.wasm_hash ==> (h2.granted(c) <==> h.granted(c)),
        g@.salt != c.salt ==> (h2.granted(c) <==> h.granted(c)),
        g@.init_fn != c.init_fn ==> (h2.granted(c) <==> h.granted(c)),
        g@.init_args != c.init_args ==> (h2.granted(c) <==> h.granted(c)),
{
    if h.granted(c) {
        let i = choose|i: int| 0 <= i < h.grants@.len() && h.grants@[i]@ == c;
        assert(h2.grants@[i]@ == c);
    }
    if g@ == c {
        assert(h2.grants@[h.grants@.len() as int]@ == c);
    }
    if h2.granted(c) {
        let i = choose|i: int| 0 <= i < h2.grants@.len() && h2.grants@[i]@ == c;
        if i < h.grants@.len() {
            assert(h.grants@[i]@ == c);
        } else {
            assert(g@ == c);
        }
    }
}

/// Atomic rollback enables retry: the contract of `deploy` says a failed
/// call leaves the instances unchanged, so the very ledger on which an
/// initializer failure was the outcome also describes the state afterwards —
/// no instance remains claimed at the derived address, and a deployment for
/// the same `(owner, salt)` whose initializer works succeeds.
pub proof fn lemma_rollback_enables_retry(
    h: Host,
    factory: Address,
    owner: Address,
    salt: Salt,
    wh1: WasmHash,
    f1: Symbol,
    a1: Seq<Val>,
    wh2: WasmHash,
    f2: Symbol,
    a2: Seq<Val>,
)
    requires
        deploy_result(h, factory, owner, wh1, salt, f1, a1) == Err::<(Address, Val), DeployError>(
            DeployError::InitializationFailed,
        ),
        deploy_auth_ok(h, factory, owner, wh2, salt, f2, a2),
        h.init_ok(wh2, f2),
    ensures
        !h.claimed(derived_address(factory, owner, salt)),
        deploy_result(h, factory, owner, wh2, salt, f2, a2) is Ok,
{
}

} // verus!
