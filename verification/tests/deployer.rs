use deployer::addr::Address;
use deployer::factory::calculate_address;
use deployer::factory::DeployError;
use deployer::factory::Deployer;
use deployer::host::AuthCall;
use deployer::host::CodeDef;
use deployer::host::Host;
use deployer::values::Salt;
use deployer::values::Symbol;
use deployer::values::Val;
use deployer::values::WasmHash;

fn sym(s: &str) -> Symbol {
    let mut text = [0u8; 32];
    for (i, b) in s.bytes().enumerate() {
        text[i] = b;
    }
    Symbol { text }
}

fn hash(fill: u8) -> WasmHash {
    WasmHash { bytes: [fill; 32] }
}

fn salt(fill: u8) -> Salt {
    Salt { bytes: [fill; 32] }
}

/// A working test payload: code whose `init` entry point stores its
/// arguments and returns void.
fn upload_test_contract(host: &mut Host, fill: u8) -> WasmHash {
    let wasm_hash = hash(fill);
    host.upload_code(CodeDef { hash: wasm_hash, init_fn: sym("init"), init_fails: false });
    wasm_hash
}

#[test]
fn test_deploy_from_contract() {
    let mut host = Host::new();
    let deployer = Deployer::register(&mut host);

    // Upload the code to be deployed from the deployer contract.
    let wasm_hash = upload_test_contract(&mut host, 7);

    // Deploy using the deployer itself as the owner, with an init call.
    let salt = salt(0);
    let init_fn = sym("init");
    let init_args = vec![Val::U32(5)];
    let (contract_id, init_result) = deployer
        .deploy(&mut host, deployer.addr.dup(), wasm_hash, salt, init_fn, init_args)
        .unwrap();

    assert!(init_result.is_void());
    // No authorizations needed - the contract acts as a factory.
    assert_eq!(host.auth_trace.len(), 0);

    // Check that the instance is initialized.
    assert_eq!(host.get_storage(&contract_id), Some(vec![Val::U32(5)]));
}

#[test]
fn test_deploy_from_address() {
    let mut host = Host::new();
    let deployer = Deployer::register(&mut host);

    let wasm_hash = upload_test_contract(&mut host, 7);

    // A distinct owner that needs to authorize the deployment.
    let owner = host.register_identity();

    let salt = salt(0);
    let init_fn = sym("init");
    let init_args = vec![Val::U32(5)];
    // The owner consents to exactly this call.
    host.grant_authorization(AuthCall {
        factory: deployer.addr.dup(),
        deployer: owner.dup(),
        wasm_hash,
        salt,
        init_fn,
        init_args: init_args.clone(),
    });
    let (contract_id, init_result) = deployer
        .deploy(&mut host, owner.dup(), wasm_hash, salt, init_fn, init_args)
        .unwrap();

    assert!(init_result.is_void());

    // One authorization request was recorded: the owner, over the whole
    // argument tuple.
    assert_eq!(host.auth_trace.len(), 1);
    assert!(host.auth_trace[0].factory == deployer.addr);
    assert!(host.auth_trace[0].deployer == owner);
    assert!(host.auth_trace[0].wasm_hash == wasm_hash);
    assert!(host.auth_trace[0].salt == salt);
    assert!(host.auth_trace[0].init_fn == init_fn);
    assert_eq!(host.auth_trace[0].init_args, vec![Val::U32(5)]);

    // Check that the instance is initialized.
    assert_eq!(host.get_storage(&contract_id), Some(vec![Val::U32(5)]));
}

#[test]
fn test_deploy_from_contract_twice_same_wasm_different_salt() {
    let mut host = Host::new();
    let deployer = Deployer::register(&mut host);

    let wasm_hash = upload_test_contract(&mut host, 7);

    let salt_a = salt(0);
    let init_fn = sym("init");
    let (contract_id, _init_result) = deployer
        .deploy(&mut host, deployer.addr.dup(), wasm_hash, salt_a, init_fn, vec![Val::U32(5)])
        .unwrap();

    // A salt that differs from the previous one in its first byte.
    let mut new_salt = salt(0);
    new_salt.bytes[0] = 1;
    assert_ne!(salt_a, new_salt);

    let (new_contract_id, _new_init_result) = deployer
        .deploy(&mut host, deployer.addr.dup(), wasm_hash, new_salt, init_fn, vec![Val::U32(5)])
        .unwrap();

    // The two contract addresses differ.
    assert_ne!(contract_id, new_contract_id);
}

#[test]
#[should_panic]
fn test_deploy_from_contract_twice_same_wasm_same_salt_should_panic() {
    let mut host = Host::new();
    let deployer = Deployer::register(&mut host);

    let wasm_hash = upload_test_contract(&mut host, 7);

    let salt = salt(0);
    let init_fn = sym("init");
    deployer
        .deploy(&mut host, deployer.addr.dup(), wasm_hash, salt, init_fn, vec![Val::U32(5)])
        .unwrap();

    // Deploying with the same salt fails; unwrapping the error panics.
    deployer
        .deploy(&mut host, deployer.addr.dup(), wasm_hash, salt, init_fn, vec![Val::U32(5)])
        .unwrap();
}

#[test]
#[should_panic]
fn test_deploy_from_contract_different_wasm_same_salt_should_panic() {
    let mut host = Host::new();
    let deployer = Deployer::register(&mut host);

    let wasm_hash = upload_test_contract(&mut host, 7);
    let new_wasm_hash = upload_test_contract(&mut host, 8);

    // The two code hashes differ.
    assert_ne!(wasm_hash, new_wasm_hash);

    // Same salt, entry point and arguments for the two deployments.
    let salt = salt(0);
    let init_fn = sym("init");

    deployer
        .deploy(&mut host, deployer.addr.dup(), wasm_hash, salt, init_fn, vec![Val::U32(5)])
        .unwrap();

    // Deploying different code with the same salt still fails.
    deployer
        .deploy(&mut host, deployer.addr.dup(), new_wasm_hash, salt, init_fn, vec![Val::U32(5)])
        .unwrap();
}

#[test]
fn test_deploy_from_two_contract_deployers_same_wasm_same_salt() {
    let mut host = Host::new();
    let deployer = Deployer::register(&mut host);
    let deployer_b = Deployer::register(&mut host);

    // Two different deployers.
    assert_ne!(deployer.addr, deployer_b.addr);

    let wasm_hash = upload_test_contract(&mut host, 7);

    // Same salt, entry point and arguments for the two deployments.
    let salt = salt(0);
    let init_fn = sym("init");

    let (contract_id, _init_result) = deployer
        .deploy(&mut host, deployer.addr.dup(), wasm_hash, salt, init_fn, vec![Val::U32(5)])
        .unwrap();

    // The same code and salt from another deployer works.
    let (contract_id_b, _init_result_b) = deployer_b
        .deploy(&mut host, deployer_b.addr.dup(), wasm_hash, salt, init_fn, vec![Val::U32(5)])
        .unwrap();

    // The two contracts have different addresses.
    assert_ne!(contract_id, contract_id_b);
}

#[test]
fn test_calculate_address() {
    let mut host = Host::new();
    let wasm_hash = upload_test_contract(&mut host, 7);

    let deployer = Deployer::register(&mut host);
    let salt = salt(0);
    let init_fn = sym("init");

    // Pre-calculate the address before deploying.
    let calculated_address = calculate_address(&deployer.addr, &deployer.addr, &salt);

    let (contract_id, _init_result) = deployer
        .deploy(&mut host, deployer.addr.dup(), wasm_hash, salt, init_fn, vec![Val::U32(5)])
        .unwrap();

    // The pre-calculated address equals the deployed contract's address.
    assert_eq!(calculated_address, contract_id);
}

#[test]
fn test_calculate_address_is_deterministic() {
    let mut host = Host::new();
    let deployer = Deployer::register(&mut host);
    let owner = host.register_identity();
    let salt = salt(3);

    let a1 = calculate_address(&deployer.addr, &owner, &salt);
    let a2 = calculate_address(&deployer.addr, &owner, &salt);
    assert_eq!(a1, a2);

    // The method computes the same address as the free function.
    let a3 = deployer.calculate_address(&owner, &salt);
    assert_eq!(a1, a3);
}

#[test]
fn test_double_deploy_reports_address_already_claimed() {
    let mut host = Host::new();
    let deployer = Deployer::register(&mut host);
    let wasm_hash = upload_test_contract(&mut host, 7);
    let other_wasm_hash = upload_test_contract(&mut host, 9);
    let salt = salt(0);
    let init_fn = sym("init");

    deployer
        .deploy(&mut host, deployer.addr.dup(), wasm_hash, salt, init_fn, vec![Val::U32(5)])
        .unwrap();

    // The same salt is rejected whether the code matches the first
    // deployment or not.
    let r = deployer.deploy(
        &mut host,
        deployer.addr.dup(),
        wasm_hash,
        salt,
        init_fn,
        vec![Val::U32(5)],
    );
    assert_eq!(r, Err(DeployError::AddressAlreadyClaimed));
    let r2 = deployer.deploy(
        &mut host,
        deployer.addr.dup(),
        other_wasm_hash,
        salt,
        init_fn,
        vec![Val::U32(5)],
    );
    assert_eq!(r2, Err(DeployError::AddressAlreadyClaimed));
}

#[test]
fn test_deploy_unknown_code_reports_invalid_code_reference() {
    let mut host = Host::new();
    let deployer = Deployer::register(&mut host);
    // Nothing uploaded under this hash.
    let wasm_hash = hash(7);
    let r = deployer.deploy(
        &mut host,
        deployer.addr.dup(),
        wasm_hash,
        salt(0),
        sym("init"),
        vec![Val::U32(5)],
    );
    assert_eq!(r, Err(DeployError::InvalidCodeReference));
    assert_eq!(host.instances.len(), 0);
}

#[test]
fn test_deploy_without_grant_reports_authorization_denied() {
    let mut host = Host::new();
    let deployer = Deployer::register(&mut host);
    let wasm_hash = upload_test_contract(&mut host, 7);
    let owner = host.register_identity();

    // No grant from the owner: the deployment is refused, nothing is
    // claimed, and the one authorization request was recorded.
    let r = deployer.deploy(
        &mut host,
        owner.dup(),
        wasm_hash,
        salt(0),
        sym("init"),
        vec![Val::U32(5)],
    );
    assert_eq!(r, Err(DeployError::AuthorizationDenied));
    assert_eq!(host.instances.len(), 0);
    assert_eq!(host.auth_trace.len(), 1);
}

#[test]
fn test_grant_covers_exactly_one_argument_tuple() {
    let mut host = Host::new();
    let deployer = Deployer::register(&mut host);
    let wasm_hash = upload_test_contract(&mut host, 7);
    let owner = host.register_identity();
    let init_fn = sym("init");

    // The owner consents to a deployment with salt 0 and argument 5.
    host.grant_authorization(AuthCall {
        factory: deployer.addr.dup(),
        deployer: owner.dup(),
        wasm_hash,
        salt: salt(0),
        init_fn,
        init_args: vec![Val::U32(5)],
    });

    // A different salt is not covered.
    let r = deployer.deploy(
        &mut host,
        owner.dup(),
        wasm_hash,
        salt(1),
        init_fn,
        vec![Val::U32(5)],
    );
    assert_eq!(r, Err(DeployError::AuthorizationDenied));

    // A different initializer argument is not covered.
    let r = deployer.deploy(
        &mut host,
        owner.dup(),
        wasm_hash,
        salt(0),
        init_fn,
        vec![Val::U32(6)],
    );
    assert_eq!(r, Err(DeployError::AuthorizationDenied));

    // The exact tuple is.
    let r = deployer.deploy(
        &mut host,
        owner.dup(),
        wasm_hash,
        salt(0),
        init_fn,
        vec![Val::U32(5)],
    );
    assert!(r.is_ok());
}

#[test]
fn test_init_failure_rolls_back_and_allows_retry() {
    let mut host = Host::new();
    let deployer = Deployer::register(&mut host);
    let salt = salt(0);

    // Code whose initializer fails.
    let broken_hash = hash(7);
    host.upload_code(CodeDef { hash: broken_hash, init_fn: sym("init"), init_fails: true });

    let r = deployer.deploy(
        &mut host,
        deployer.addr.dup(),
        broken_hash,
        salt,
        sym("init"),
        vec![Val::U32(5)],
    );
    assert_eq!(r, Err(DeployError::InitializationFailed));

    // Nothing remains claimed at the derived address.
    let derived = deployer.calculate_address(&deployer.addr, &salt);
    assert!(!host.is_claimed(&derived));
    assert_eq!(host.get_storage(&derived), None);

    // A retry with the same (owner, salt) and a working initializer
    // succeeds, at that very address.
    let working_hash = upload_test_contract(&mut host, 8);
    let (contract_id, _init_result) = deployer
        .deploy(&mut host, deployer.addr.dup(), working_hash, salt, sym("init"), vec![Val::U32(5)])
        .unwrap();
    assert_eq!(contract_id, derived);
}

#[test]
fn test_missing_entry_point_reports_initialization_failed() {
    let mut host = Host::new();
    let deployer = Deployer::register(&mut host);
    let wasm_hash = upload_test_contract(&mut host, 7);

    // The code exports `init`, not `setup`: the initializer invocation
    // fails and the deployment is unwound.
    let r = deployer.deploy(
        &mut host,
        deployer.addr.dup(),
        wasm_hash,
        salt(0),
        sym("setup"),
        vec![Val::U32(5)],
    );
    assert_eq!(r, Err(DeployError::InitializationFailed));
    assert_eq!(host.instances.len(), 0);
}

#[test]
fn test_upload_code_is_content_addressed() {
    let mut host = Host::new();
    let wasm_hash = hash(7);
    let fresh = host.upload_code(CodeDef { hash: wasm_hash, init_fn: sym("init"), init_fails: false });
    assert!(fresh);
    // A second upload under the same hash keeps the first definition.
    let fresh_again = host.upload_code(CodeDef {
        hash: wasm_hash,
        init_fn: sym("setup"),
        init_fails: true,
    });
    assert!(!fresh_again);
    assert_eq!(host.code.len(), 1);
}

#[test]
fn test_val_is_void() {
    assert!(Val::Void.is_void());
    assert!(!Val::U32(5).is_void());
    assert_eq!(Val::U32(5), Val::U32(5));
    assert_ne!(Val::U32(5), Val::Void);
}

#[test]
fn test_salt_equality_is_by_bytes() {
    // Two salts built independently from the same bytes are equal; the
    // all-zero salt and the largest salt are not.
    assert_eq!(salt(0), Salt { bytes: [0u8; 32] });
    assert_ne!(salt(0), Salt { bytes: [0xffu8; 32] });
    let mut nearly = salt(0);
    nearly.bytes[31] = 1;
    assert_ne!(salt(0), nearly);
}

#[test]
fn test_deployed_contract_can_own_a_deployment() {
    let mut host = Host::new();
    let deployer = Deployer::register(&mut host);
    let wasm_hash = upload_test_contract(&mut host, 7);
    let init_fn = sym("init");

    // First deployment, owned by the factory itself.
    let (first, _) = deployer
        .deploy(&mut host, deployer.addr.dup(), wasm_hash, salt(0), init_fn, vec![Val::U32(5)])
        .unwrap();

    // The deployed contract now acts as the owner of a second deployment;
    // being a distinct identity, it must grant authorization for the exact
    // call.
    host.grant_authorization(AuthCall {
        factory: deployer.addr.dup(),
        deployer: first.dup(),
        wasm_hash,
        salt: salt(0),
        init_fn,
        init_args: vec![Val::U32(9)],
    });
    let (second, _) = deployer
        .deploy(&mut host, first.dup(), wasm_hash, salt(0), init_fn, vec![Val::U32(9)])
        .unwrap();

    assert_ne!(second, first);
    assert_eq!(host.get_storage(&second), Some(vec![Val::U32(9)]));
    // The grant was matched against the derived owner, component by
    // component, and one request was recorded.
    assert_eq!(host.auth_trace.len(), 1);
    assert!(host.auth_trace[0].deployer == first);
}

#[test]
fn test_derived_addresses_differ_from_external_identities() {
    let mut host = Host::new();
    let deployer = Deployer::register(&mut host);
    let owner = host.register_identity();
    let derived = deployer.calculate_address(&owner, &salt(0));
    assert_ne!(derived, deployer.addr);
    assert_ne!(derived, owner);

    // Nesting: the derived address can itself own a deployment, and the
    // result is again distinct.
    let nested = deployer.calculate_address(&derived, &salt(0));
    assert_ne!(nested, derived);
}
