//! The factory: authorize, instantiate, initialize — atomically.

use vstd::prelude::*;

use crate::addr::addr_eq;
use crate::addr::derived_address;
use crate::addr::Address;
use crate::host::create_result;
use crate::host::lemma_create_result_congruent;
use crate::host::AuthCall;
use crate::host::CallView;
use crate::host::Host;
use crate::host::HostError;
use crate::host::Instance;
use crate::values::dup_vals;
use crate::values::Salt;
use crate::values::Symbol;
use crate::values::Val;
use crate::values::WasmHash;

verus! {

/// Why a deployment was refused.  Every error is a fatal abort of the call:
/// the ledger is left exactly as it was.
#[derive(Clone, Copy, Debug, PartialEq, Eq, Structural)]
pub enum DeployError {
    /// The deployer is not the factory itself and no capability for exactly
    /// this call is present.
    AuthorizationDenied,
    /// The supplied code hash does not correspond to previously uploaded
    /// code.
    InvalidCodeReference,
    /// An instance already exists at the derived address.
    AddressAlreadyClaimed,
    /// The initializer entry point is missing or its invocation failed; the
    /// instantiation was unwound with it as one unit.
    InitializationFailed,
}

/// The call descriptor that a deployment presents to the authorization
/// verifier: the factory asked to deploy, and the entire argument tuple.
pub open spec fn deploy_call(
    factory: Address,
    deployer: Address,
    wasm_hash: WasmHash,
    salt: Salt,
    init_fn: Symbol,
    init_args: Seq<Val>,
) -> CallView {
    CallView { factory, deployer, wasm_hash, salt, init_fn, init_args }
}

/// Whether the authorization gate lets a deployment through: the deployer is
/// the factory itself (self-deployment needs no external proof), or a
/// capability for exactly this call descriptor is present.
pub open spec fn deploy_auth_ok(
    h: Host,
    factory: Address,
    deployer: Address,
    wasm_hash: WasmHash,
    salt: Salt,
    init_fn: Symbol,
    init_args: Seq<Val>,
) -> bool {
    deployer == factory || h.granted(
        deploy_call(factory, deployer, wasm_hash, salt, init_fn, init_args),
    )
}

/// What `deploy` returns, as a function of the ledger it starts from and the
/// full argument tuple: the first failure in the order authorization, code
/// lookup, address collision, initialization — or, with none, the derived
/// address paired with the initializer's void result.
pub open spec fn deploy_result(
    h: Host,
    factory: Address,
    deployer: Address,
    wasm_hash: WasmHash,
    salt: Salt,
    init_fn: Symbol,
    init_args: Seq<Val>,
) -> Result<(Address, Val), DeployError> {
    if !deploy_auth_ok(h, factory, deployer, wasm_hash, salt, init_fn, init_args) {
        Err(DeployError::AuthorizationDenied)
    } else {
        match create_result(h, factory, deployer, salt, wasm_hash, init_fn) {
            Ok(p) => Ok(p),
            Err(HostError::MissingCode) => Err(DeployError::InvalidCodeReference),
            Err(HostError::AddressTaken) => Err(DeployError::AddressAlreadyClaimed),
            Err(HostError::InitFailed) => Err(DeployError::InitializationFailed),
        }
    }
}

/// A deployment factory.  Stateless beyond its own ledger identity: the
/// address it deploys at is a pure function of caller-supplied inputs, and
/// uniqueness is enforced entirely by the host ledger's insertion semantics.
pub struct Deployer {
    pub addr: Address,
}

impl Deployer {
    /// Registers a factory with the host, which mints its identity.
    pub fn register(host: &mut Host) -> (d: Deployer)
        requires
            old(host).next_id < u64::MAX,
        ensures
            d.addr == Address::External(old(host).next_id),
            final(host).next_id == old(host).next_id + 1,
            final(host).code@ == old(host).code@,
            final(host).instances@ == old(host).instances@,
            final(host).grants@ == old(host).grants@,
            final(host).auth_trace@ == old(host).auth_trace@,
    {
        Deployer { addr: host.register_identity() }
    }

    /// Deploys the code uploaded under `wasm_hash` as a new instance at the
    /// address derived from `(self, deployer, salt)`, and invokes the
    /// instance's `init_fn` entry point with `init_args` in the same atomic
    /// unit of work.  Unless `deployer` is this factory itself, the call
    /// demands `deployer`'s authorization over the entire argument tuple
    /// first, so an authorization can never be replayed for different
    /// arguments.  On success, returns the derived address and the
    /// initializer's result; on any failure, the ledger is left unchanged —
    /// in particular, a failing initializer unwinds the instantiation with
    /// it, and no half-initialized instance remains.
    pub fn deploy(
        &self,
        host: &mut Host,
        deployer: Address,
        wasm_hash: WasmHash,
        salt: Salt,
        init_fn: Symbol,
        init_args: Vec<Val>,
    ) -> (r: Result<(Address, Val), DeployError>)
        requires
            old(host).wf(),
        ensures
            r == deploy_result(
                *old(host),
                self.addr,
                deployer,
                wasm_hash,
                salt,
                init_fn,
                init_args@,
            ),
            r is Err ==> final(host).instances@ == old(host).instances@,
            r is Ok ==> final(host).instances@ == old(host).instances@.push(
                (Instance {
                    addr: derived_address(self.addr, deployer, salt),
                    code: wasm_hash,
                    storage: init_args,
                }),
            ),
            deployer == self.addr ==> final(host).auth_trace@ == old(host).auth_trace@,
            deployer != self.addr ==> final(host).trace_views() == old(host).trace_views().push(
                deploy_call(self.addr, deployer, wasm_hash, salt, init_fn, init_args@),
            ),
            final(host).next_id == old(host).next_id,
            final(host).code@ == old(host).code@,
            final(host).grants@ == old(host).grants@,
            final(host).wf(),
    {
        let is_self = addr_eq(&deployer, &self.addr);
        if !is_self {
            let call = AuthCall {
                factory: self.addr.dup(),
                deployer: deployer.dup(),
                wasm_hash,
                salt,
                init_fn,
                init_args: dup_vals(&init_args),
            };
            proof {
                assert(call@ =~= deploy_call(
                    self.addr,
                    deployer,
                    wasm_hash,
                    salt,
                    init_fn,
                    init_args@,
                ));
            }
            let granted = host.require_authorization(call);
            if !granted {
                return Err(DeployError::AuthorizationDenied);
            }
        }
        let ghost mid = *host;
        let r = match host.create_and_init(&self.addr, deployer, salt, wasm_hash, init_fn,
            init_args) {
            Ok(p) => Ok(p),
            Err(HostError::MissingCode) => Err(DeployError::InvalidCodeReference),
            Err(HostError::AddressTaken) => Err(DeployError::AddressAlreadyClaimed),
            Err(HostError::InitFailed) => Err(DeployError::InitializationFailed),
        };
        proof {
            lemma_create_result_congruent(
                mid,
                *old(host),
                self.addr,
                deployer,
                salt,
                wasm_hash,
                init_fn,
            );
        }
        r
    }

    /// The address at which this factory would deploy for `deployer` and
    /// `salt`.  A pure read: callable at any time — before, during or after
    /// an actual deployment at that address — with an identical result, and
    /// no authorization is required.
    pub fn calculate_address(&self, deployer: &Address, salt: &Salt) -> (a: Address)
        ensures
            a == derived_address(self.addr, *deployer, *salt),
    {
        calculate_address(&self.addr, deployer, salt)
    }
}

/// The address at which `factory` would deploy for `deployer` and `salt`:
/// the deterministic derivation, exposed as a pure read.  Contract addresses
/// are deterministic, so this can be called before the contract is ever
/// deployed — or after — with an identical result each time.
pub fn calculate_address(factory: &Address, deployer: &Address, salt: &Salt) -> (a: Address)
    ensures
        a == derived_address(*factory, *deployer, *salt),
{
    crate::addr::derive(factory, deployer.dup(), *salt)
}

} // verus!
