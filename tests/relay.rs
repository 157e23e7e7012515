use price_relay::auth::{AccessRule, AuthZone, ComponentAddress, OracleError, ResourceAddress};
use price_relay::consumer::{Bucket, Hello, Vault};
use price_relay::ledger::Ledger;
use price_relay::logic::{lookup_logic_method, Logic, LogicMethod};
use price_relay::proxy::OracleGenericProxy;
use price_relay::storage::Storage;
use price_relay::value::{decode_price_data, CallArgs, PriceData, ReturnValue};
use scrypto::prelude::Decimal;

const OWNER: ResourceAddress = ResourceAddress { id: 10 };
const WHITE_LIST: ResourceAddress = ResourceAddress { id: 20 };

struct Chain {
    ledger: Ledger,
    storage: usize,
    logic: usize,
    proxy: usize,
    dapp: usize,
}

fn owner() -> AuthZone {
    AuthZone::of_account(vec![OWNER])
}

fn chain() -> Chain {
    let mut ledger = Ledger::new();
    let proxy = OracleGenericProxy::instantiate_and_globalize(&mut ledger, OWNER, WHITE_LIST);
    let (storage, logic) = Storage::instantiate_and_globalize(&mut ledger, OWNER, ComponentAddress::Proxy(proxy));
    Logic::set_storage_component(&mut ledger, logic, &owner(), storage).unwrap();
    OracleGenericProxy::set_oracle_address(&mut ledger, proxy, &owner(), logic).unwrap();
    let dapp = Hello::instantiate_hello(&mut ledger, Bucket { resource: WHITE_LIST, amount: 1 }, proxy);
    Chain { ledger, storage, logic, proxy, dapp }
}

fn relay(c: &mut Chain, method: &str, args: CallArgs) -> Result<PriceData, OracleError> {
    Hello::call_method(&mut c.ledger, c.dapp, &method.to_string(), args)
}

#[test]
fn full_chain_reads_initial_zero() {
    let mut c = chain();
    assert_eq!(relay(&mut c, "get_derived_svalue", CallArgs::Unit), Ok(PriceData { decimal: Decimal::ZERO }));
}

#[test]
fn owner_write_is_seen_by_relayed_read() {
    let mut c = chain();
    assert_eq!(Logic::validate_and_update_data(&mut c.ledger, c.logic, &owner(), Decimal::ONE), Ok(()));
    assert_eq!(relay(&mut c, "get_derived_svalue", CallArgs::Unit), Ok(PriceData { decimal: Decimal::ONE }));
    let seven = Decimal::from(7i64);
    assert_eq!(Logic::validate_and_update_data(&mut c.ledger, c.logic, &owner(), seven), Ok(()));
    assert_eq!(relay(&mut c, "get_derived_svalue", CallArgs::Unit), Ok(PriceData { decimal: seven }));
}

#[test]
fn relayed_write_is_refused_and_value_kept() {
    let mut c = chain();
    Logic::validate_and_update_data(&mut c.ledger, c.logic, &owner(), Decimal::ONE).unwrap();
    let r = relay(&mut c, "validate_and_update_data", CallArgs::Decimal(Decimal::ONE_HUNDRED));
    assert_eq!(r, Err(OracleError::AuthorizationDenied));
    assert_eq!(c.ledger.storages[c.storage].data, Decimal::ONE);
}

#[test]
fn direct_relay_without_badge_changes_nothing() {
    let mut c = chain();
    let stranger = AuthZone::of_account(vec![OWNER, ResourceAddress { id: 99 }]);
    let r = OracleGenericProxy::call_method(
        &mut c.ledger,
        c.proxy,
        &stranger,
        &"validate_and_update_data".to_string(),
        CallArgs::Decimal(Decimal::ONE),
    );
    assert_eq!(r, Err(OracleError::AuthorizationDenied));
    assert_eq!(c.ledger.storages[c.storage].data, Decimal::ZERO);
}

#[test]
fn badge_holder_may_relay_directly() {
    let mut c = chain();
    let holder = AuthZone::of_account(vec![WHITE_LIST]);
    let r = OracleGenericProxy::call_method(
        &mut c.ledger,
        c.proxy,
        &holder,
        &"get_derived_svalue".to_string(),
        CallArgs::Unit,
    );
    assert_eq!(r, Ok(PriceData { decimal: Decimal::ZERO }));
}

#[test]
fn direct_read_bypassing_proxy_is_refused() {
    let c = chain();
    let as_dapp = AuthZone::of_component(ComponentAddress::Consumer(c.dapp));
    assert_eq!(Logic::get_derived_svalue(&c.ledger, c.logic, &as_dapp), Err(OracleError::AuthorizationDenied));
    let as_proxy = AuthZone::of_component(ComponentAddress::Proxy(c.proxy));
    assert_eq!(Logic::get_derived_svalue(&c.ledger, c.logic, &as_proxy), Ok(PriceData { decimal: Decimal::ZERO }));
}

#[test]
fn proxy_identity_cannot_write_directly() {
    let mut c = chain();
    let as_proxy = AuthZone::of_component(ComponentAddress::Proxy(c.proxy));
    let r = Logic::validate_and_update_data(&mut c.ledger, c.logic, &as_proxy, Decimal::ONE);
    assert_eq!(r, Err(OracleError::AuthorizationDenied));
    assert_eq!(c.ledger.storages[c.storage].data, Decimal::ZERO);
}

#[test]
fn storage_accepts_only_its_logic() {
    let mut c = chain();
    let s = c.storage;
    let as_logic = AuthZone::of_component(ComponentAddress::Logic(c.logic));
    let as_other_logic = AuthZone::of_component(ComponentAddress::Logic(c.logic + 1));
    assert_eq!(c.ledger.storages[s].update_data(&as_other_logic, Decimal::ONE), Err(OracleError::AuthorizationDenied));
    assert_eq!(c.ledger.storages[s].get_derived_svalue(&owner()), Err(OracleError::AuthorizationDenied));
    assert_eq!(c.ledger.storages[s].update_data(&as_logic, Decimal::TEN), Ok(()));
    assert_eq!(c.ledger.storages[s].get_derived_svalue(&as_logic), Ok(PriceData { decimal: Decimal::TEN }));
    assert_eq!(c.ledger.storages[s].logic_role, AccessRule::RequireCaller(ComponentAddress::Logic(c.logic)));
}

#[test]
fn rebinding_storage_activates_latest() {
    let mut c = chain();
    let (second, second_logic) =
        Storage::instantiate_and_globalize(&mut c.ledger, OWNER, ComponentAddress::Proxy(c.proxy));
    // a storage trusts only its own paired logic component
    Logic::set_storage_component(&mut c.ledger, c.logic, &owner(), second).unwrap();
    let r = Logic::validate_and_update_data(&mut c.ledger, c.logic, &owner(), Decimal::ONE);
    assert_eq!(r, Err(OracleError::AuthorizationDenied));
    // the paired one, bound twice, writes to the last target only
    Logic::set_storage_component(&mut c.ledger, second_logic, &owner(), c.storage).unwrap();
    Logic::set_storage_component(&mut c.ledger, second_logic, &owner(), second).unwrap();
    assert_eq!(Logic::validate_and_update_data(&mut c.ledger, second_logic, &owner(), Decimal::ONE), Ok(()));
    assert_eq!(c.ledger.storages[second].data, Decimal::ONE);
    assert_eq!(c.ledger.storages[c.storage].data, Decimal::ZERO);
}

#[test]
fn rebinding_logic_activates_latest() {
    let mut c = chain();
    let (second, second_logic) =
        Storage::instantiate_and_globalize(&mut c.ledger, OWNER, ComponentAddress::Proxy(c.proxy));
    Logic::set_storage_component(&mut c.ledger, second_logic, &owner(), second).unwrap();
    Logic::validate_and_update_data(&mut c.ledger, second_logic, &owner(), Decimal::TEN).unwrap();
    OracleGenericProxy::set_oracle_address(&mut c.ledger, c.proxy, &owner(), second_logic).unwrap();
    assert_eq!(relay(&mut c, "get_derived_svalue", CallArgs::Unit), Ok(PriceData { decimal: Decimal::TEN }));
    OracleGenericProxy::set_oracle_address(&mut c.ledger, c.proxy, &owner(), c.logic).unwrap();
    assert_eq!(relay(&mut c, "get_derived_svalue", CallArgs::Unit), Ok(PriceData { decimal: Decimal::ZERO }));
}

#[test]
fn rebinding_requires_owner() {
    let mut c = chain();
    let badge = AuthZone::of_account(vec![WHITE_LIST]);
    assert_eq!(
        Logic::set_storage_component(&mut c.ledger, c.logic, &badge, 5),
        Err(OracleError::AuthorizationDenied)
    );
    assert_eq!(
        OracleGenericProxy::set_oracle_address(&mut c.ledger, c.proxy, &badge, 5),
        Err(OracleError::AuthorizationDenied)
    );
    assert_eq!(c.ledger.logics[c.logic].storage_component, Some(c.storage));
    assert_eq!(c.ledger.proxies[c.proxy].oracle_logic_component, Some(c.logic));
}

#[test]
fn unbound_logic_fails_with_unbound() {
    let mut ledger = Ledger::new();
    let proxy = OracleGenericProxy::instantiate_and_globalize(&mut ledger, OWNER, WHITE_LIST);
    let logic = Logic::instantiate_and_globalize(&mut ledger, OWNER, ComponentAddress::Proxy(proxy));
    assert_eq!(ledger.logics[logic].storage_component, None);
    let as_proxy = AuthZone::of_component(ComponentAddress::Proxy(proxy));
    assert_eq!(Logic::get_derived_svalue(&ledger, logic, &as_proxy), Err(OracleError::Unbound));
    assert_eq!(
        Logic::validate_and_update_data(&mut ledger, logic, &owner(), Decimal::ONE),
        Err(OracleError::Unbound)
    );
    // a binding to a slot that holds no storage does not resolve
    Logic::set_storage_component(&mut ledger, logic, &owner(), 3).unwrap();
    assert_eq!(Logic::get_derived_svalue(&ledger, logic, &as_proxy), Err(OracleError::Unbound));
}

#[test]
fn unbound_proxy_fails_with_unbound() {
    let mut ledger = Ledger::new();
    let proxy = OracleGenericProxy::instantiate_and_globalize(&mut ledger, OWNER, WHITE_LIST);
    let dapp = Hello::instantiate_hello(&mut ledger, Bucket { resource: WHITE_LIST, amount: 1 }, proxy);
    let r = Hello::call_method(&mut ledger, dapp, &"get_derived_svalue".to_string(), CallArgs::Unit);
    assert_eq!(r, Err(OracleError::Unbound));
    let lost = Hello::instantiate_hello(&mut ledger, Bucket { resource: WHITE_LIST, amount: 1 }, 8);
    let r = Hello::call_method(&mut ledger, lost, &"get_derived_svalue".to_string(), CallArgs::Unit);
    assert_eq!(r, Err(OracleError::Unbound));
}

#[test]
fn unknown_method_or_shape_is_decode_mismatch() {
    let mut c = chain();
    assert_eq!(relay(&mut c, "get_price", CallArgs::Unit), Err(OracleError::DecodeMismatch));
    assert_eq!(relay(&mut c, "get_derived_svalue", CallArgs::Decimal(Decimal::ONE)), Err(OracleError::DecodeMismatch));
    assert_eq!(relay(&mut c, "validate_and_update_data", CallArgs::Unit), Err(OracleError::DecodeMismatch));
}

#[test]
fn relayed_rebinding_is_refused() {
    let mut c = chain();
    let target = CallArgs::Reference(ComponentAddress::Storage(c.storage));
    let r = relay(&mut c, "set_storage_component", target);
    assert_eq!(r, Err(OracleError::AuthorizationDenied));
}

#[test]
fn unit_response_does_not_decode_and_rolls_back() {
    // a proxy whose own identity is the owner role of its logic component
    let mut ledger = Ledger::new();
    let proxy = OracleGenericProxy::instantiate_and_globalize(&mut ledger, OWNER, WHITE_LIST);
    let (storage, logic) = Storage::instantiate_and_globalize(&mut ledger, OWNER, ComponentAddress::Proxy(proxy));
    Logic::set_storage_component(&mut ledger, logic, &owner(), storage).unwrap();
    ledger.logics[logic].owner_role = AccessRule::RequireCaller(ComponentAddress::Proxy(proxy));
    OracleGenericProxy::set_oracle_address(&mut ledger, proxy, &owner(), logic).unwrap();
    let holder = AuthZone::of_account(vec![WHITE_LIST]);
    let r = OracleGenericProxy::call_method(
        &mut ledger,
        proxy,
        &holder,
        &"validate_and_update_data".to_string(),
        CallArgs::Decimal(Decimal::ONE),
    );
    assert_eq!(r, Err(OracleError::DecodeMismatch));
    assert_eq!(ledger.storages[storage].data, Decimal::ZERO);
    let r = OracleGenericProxy::call_method(
        &mut ledger,
        proxy,
        &holder,
        &"set_storage_component".to_string(),
        CallArgs::Reference(ComponentAddress::Storage(4)),
    );
    assert_eq!(r, Err(OracleError::DecodeMismatch));
    assert_eq!(ledger.logics[logic].storage_component, Some(storage));
}

#[test]
fn consumer_without_badge_unit_is_refused() {
    let mut c = chain();
    let empty = Hello::instantiate_hello(&mut c.ledger, Bucket { resource: WHITE_LIST, amount: 0 }, c.proxy);
    let r = Hello::call_method(&mut c.ledger, empty, &"get_derived_svalue".to_string(), CallArgs::Unit);
    assert_eq!(r, Err(OracleError::AuthorizationDenied));
    let wrong = Hello::instantiate_hello(&mut c.ledger, Bucket { resource: OWNER, amount: 3 }, c.proxy);
    let r = Hello::call_method(&mut c.ledger, wrong, &"get_derived_svalue".to_string(), CallArgs::Unit);
    assert_eq!(r, Err(OracleError::AuthorizationDenied));
}

#[test]
fn vault_proof_needs_one_unit() {
    let full = Vault::with_bucket(Bucket { resource: WHITE_LIST, amount: 2 });
    assert_eq!(full.authorize_with_one(), vec![WHITE_LIST]);
    let empty = Vault::with_bucket(Bucket { resource: WHITE_LIST, amount: 0 });
    assert_eq!(empty.authorize_with_one(), Vec::<ResourceAddress>::new());
}

#[test]
fn access_rules_check_identity_and_proofs() {
    let zone = AuthZone { caller: Some(ComponentAddress::Proxy(0)), proofs: vec![OWNER] };
    assert!(AccessRule::RequireCaller(ComponentAddress::Proxy(0)).check(&zone));
    assert!(!AccessRule::RequireCaller(ComponentAddress::Proxy(1)).check(&zone));
    assert!(!AccessRule::RequireCaller(ComponentAddress::Logic(0)).check(&zone));
    assert!(AccessRule::RequireResource(OWNER).check(&zone));
    assert!(!AccessRule::RequireResource(WHITE_LIST).check(&zone));
    assert!(zone.presents(OWNER));
    assert!(!nobody_presents());
}

fn nobody_presents() -> bool {
    AuthZone::of_account(vec![]).presents(OWNER)
}

#[test]
fn method_registry_and_decoding() {
    assert_eq!(lookup_logic_method(&"set_storage_component".to_string()), Some(LogicMethod::SetStorageComponent));
    assert_eq!(
        lookup_logic_method(&"validate_and_update_data".to_string()),
        Some(LogicMethod::ValidateAndUpdateData)
    );
    assert_eq!(lookup_logic_method(&"get_derived_svalue".to_string()), Some(LogicMethod::GetDerivedSvalue));
    assert_eq!(lookup_logic_method(&"update_data".to_string()), None);
    let p = PriceData { decimal: Decimal::ONE };
    assert_eq!(decode_price_data(ReturnValue::Price(p)), Ok(p));
    assert_eq!(decode_price_data(ReturnValue::Unit), Err(OracleError::DecodeMismatch));
}

#[test]
fn dispatch_reaches_logic_operations() {
    let mut c = chain();
    let r = Logic::call(&mut c.ledger, c.logic, &owner(), &"validate_and_update_data".to_string(), CallArgs::Decimal(Decimal::TEN));
    assert_eq!(r, Ok(ReturnValue::Unit));
    let as_proxy = AuthZone::of_component(ComponentAddress::Proxy(c.proxy));
    let r = Logic::call(&mut c.ledger, c.logic, &as_proxy, &"get_derived_svalue".to_string(), CallArgs::Unit);
    assert_eq!(r, Ok(ReturnValue::Price(PriceData { decimal: Decimal::TEN })));
}
