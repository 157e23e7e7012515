use vstd::prelude::*;
use scrypto::prelude::Decimal;
use crate::auth::{AccessRule, ComponentAddress, OracleError, ResourceAddress};
use crate::ledger::LedgerView;
use crate::logic::{logic_method_named, LogicMethod};
use crate::storage::Storage;
use crate::value::{CallArgs, PriceData};

verus! {

/// A storage bound to logic component `l` refuses both its write and its
/// read to every other caller, whatever proofs it presents, and the write
/// leaves the storage as it was.
pub proof fn storage_refuses_other_callers(
    st: Storage,
    l: usize,
    caller: Option<ComponentAddress>,
    proofs: Seq<ResourceAddress>,
    data: Decimal,
)
    requires
        st.logic_role == AccessRule::RequireCaller(ComponentAddress::Logic(l)),
        caller != Some(ComponentAddress::Logic(l)),
    ensures
        st.write_result(caller, proofs, data) == (Err::<(), OracleError>(OracleError::AuthorizationDenied), st),
        st.read_result(caller, proofs) == Err::<PriceData, OracleError>(OracleError::AuthorizationDenied),
{
}

/// A logic component refuses a read to every caller but its configured
/// proxy, and a write to every caller without a proof of the owner badge;
/// neither changes the ledger.
pub proof fn logic_refuses_unauthorized(
    v: LedgerView,
    l: int,
    proxy: ComponentAddress,
    owner_badge: ResourceAddress,
    caller: Option<ComponentAddress>,
    proofs: Seq<ResourceAddress>,
    data: Decimal,
)
    requires
        0 <= l < v.logics.len(),
        v.logics[l].proxy_role == AccessRule::RequireCaller(proxy),
        v.logics[l].owner_role == AccessRule::RequireResource(owner_badge),
    ensures
        caller != Some(proxy) ==> v.logic_read(l, caller, proofs) == Err::<PriceData, OracleError>(
            OracleError::AuthorizationDenied,
        ),
        !proofs.contains(owner_badge) ==> v.logic_update(l, caller, proofs, data) == (Err::<(), OracleError>(
            OracleError::AuthorizationDenied,
        ), v),
{
}

/// A write relayed through a proxy never passes the logic component's
/// owner rule: the proxy is a caller without the owner badge. The relay
/// fails with `AuthorizationDenied` and changes nothing.
pub proof fn relayed_write_is_refused(
    v: LedgerView,
    p: int,
    caller: Option<ComponentAddress>,
    proofs: Seq<ResourceAddress>,
    data: Decimal,
)
    requires
        0 <= p < v.proxies.len(),
        v.proxies[p].white_listed.allows(caller, proofs),
        v.bound_logic(p) matches Some(l) && v.logics[l].owner_role is RequireResource,
    ensures
        v.proxy_call(p, caller, proofs, "validate_and_update_data"@, CallArgs::Decimal(data)) == (Err::<
            PriceData,
            OracleError,
        >(OracleError::AuthorizationDenied), v),
{
    reveal_strlit("set_storage_component");
    reveal_strlit("validate_and_update_data");
    assert("set_storage_component"@.len() != "validate_and_update_data"@.len());
    assert(logic_method_named("validate_and_update_data"@) == Some(LogicMethod::ValidateAndUpdateData));
    assert(!Seq::<ResourceAddress>::empty().contains(v.logics[v.bound_logic(p)->0].owner_role->RequireResource_0));
}

/// A proxy refuses a relay to every caller without a proof of its
/// white-list badge, and the ledger stays as it was.
pub proof fn proxy_refuses_without_badge(
    v: LedgerView,
    p: int,
    white_list_badge: ResourceAddress,
    caller: Option<ComponentAddress>,
    proofs: Seq<ResourceAddress>,
    name: Seq<char>,
    args: CallArgs,
)
    requires
        0 <= p < v.proxies.len(),
        v.proxies[p].white_listed == AccessRule::RequireResource(white_list_badge),
        !proofs.contains(white_list_badge),
    ensures
        v.proxy_call(p, caller, proofs, name, args) == (Err::<PriceData, OracleError>(
            OracleError::AuthorizationDenied,
        ), v),
{
}

/// Binding a logic component to a storage twice leaves it bound to the
/// second: writes through it reach that storage and no longer the first.
pub proof fn storage_rebinding_keeps_last(
    v: LedgerView,
    l: int,
    caller: Option<ComponentAddress>,
    proofs: Seq<ResourceAddress>,
    s1: usize,
    s2: usize,
    wcaller: Option<ComponentAddress>,
    wproofs: Seq<ResourceAddress>,
    data: Decimal,
)
    requires
        0 <= l < v.logics.len(),
        v.logics[l].owner_role.allows(caller, proofs),
    ensures
        ({
            let w = v.logic_set_storage(l, caller, proofs, s1).1.logic_set_storage(l, caller, proofs, s2).1;
            &&& w.logics[l].storage_component == Some(s2)
            &&& w.bound_storage(l) == (if s2 < v.storages.len() {
                Some(s2 as int)
            } else {
                None
            })
            &&& (s1 != s2 && s1 < v.storages.len()) ==> w.logic_update(l, wcaller, wproofs, data).1.storages[s1 as int]
                == v.storages[s1 as int]
        }),
{
}

/// Binding a proxy to a logic component twice leaves it bound to the
/// second: relayed calls reach that logic component and change no other.
pub proof fn logic_rebinding_keeps_last(
    v: LedgerView,
    p: int,
    caller: Option<ComponentAddress>,
    proofs: Seq<ResourceAddress>,
    l1: usize,
    l2: usize,
    rcaller: Option<ComponentAddress>,
    rproofs: Seq<ResourceAddress>,
    name: Seq<char>,
    args: CallArgs,
)
    requires
        0 <= p < v.proxies.len(),
        v.proxies[p].owner_role.allows(caller, proofs),
    ensures
        ({
            let w = v.proxy_set_oracle(p, caller, proofs, l1).1.proxy_set_oracle(p, caller, proofs, l2).1;
            &&& w.proxies[p].oracle_logic_component == Some(l2)
            &&& w.bound_logic(p) == (if l2 < v.logics.len() {
                Some(l2 as int)
            } else {
                None
            })
            &&& (l1 != l2 && l1 < v.logics.len()) ==> w.proxy_call(p, rcaller, rproofs, name, args).1.logics[l1 as int]
                == v.logics[l1 as int]
        }),
{
}

/// A call that needs a binding which was never set fails with `Unbound`,
/// returns no value and changes nothing.
pub proof fn unbound_calls_fail(
    v: LedgerView,
    l: int,
    p: int,
    caller: Option<ComponentAddress>,
    proofs: Seq<ResourceAddress>,
    data: Decimal,
    name: Seq<char>,
    args: CallArgs,
)
    requires
        0 <= l < v.logics.len(),
        0 <= p < v.proxies.len(),
    ensures
        v.logics[l].storage_component is None && v.logics[l].owner_role.allows(caller, proofs) ==> v.logic_update(
            l,
            caller,
            proofs,
            data,
        ) == (Err::<(), OracleError>(OracleError::Unbound), v),
        v.logics[l].storage_component is None && v.logics[l].proxy_role.allows(caller, proofs) ==> v.logic_read(
            l,
            caller,
            proofs,
        ) == Err::<PriceData, OracleError>(OracleError::Unbound),
        v.proxies[p].oracle_logic_component is None && v.proxies[p].white_listed.allows(caller, proofs)
            ==> v.proxy_call(p, caller, proofs, name, args) == (Err::<PriceData, OracleError>(OracleError::Unbound), v),
{
}

/// A relayed call on a logic component that fails changes nothing.
pub proof fn failed_dispatch_changes_nothing(
    v: LedgerView,
    l: int,
    caller: Option<ComponentAddress>,
    proofs: Seq<ResourceAddress>,
    name: Seq<char>,
    args: CallArgs,
)
    requires
        0 <= l < v.logics.len(),
    ensures
        v.logic_dispatch(l, caller, proofs, name, args).0 is Err ==> v.logic_dispatch(l, caller, proofs, name, args).1
            == v,
{
}

/// A call through a consumer or a proxy either succeeds or leaves every
/// component as it was: there is no partial effect.
pub proof fn failed_relay_changes_nothing(
    v: LedgerView,
    c: int,
    p: int,
    caller: Option<ComponentAddress>,
    proofs: Seq<ResourceAddress>,
    name: Seq<char>,
    args: CallArgs,
)
    requires
        0 <= c < v.consumers.len(),
        0 <= p < v.proxies.len(),
    ensures
        v.proxy_call(p, caller, proofs, name, args).0 is Err ==> v.proxy_call(p, caller, proofs, name, args).1 == v,
        v.consumer_call(c, name, args).0 is Err ==> v.consumer_call(c, name, args).1 == v,
{
}

/// A read changes nothing: a relayed `get_derived_svalue` that succeeds
/// returns the value of the storage bound behind the proxy.
pub proof fn relayed_read_returns_stored_value(
    v: LedgerView,
    p: int,
    caller: Option<ComponentAddress>,
    proofs: Seq<ResourceAddress>,
)
    requires
        0 <= p < v.proxies.len(),
    ensures
        ({
            let (r, w) = v.proxy_call(p, caller, proofs, "get_derived_svalue"@, CallArgs::Unit);
            &&& w == v
            &&& r is Ok ==> ({
                let l = v.bound_logic(p)->0;
                let s = v.bound_storage(l)->0;
                &&& v.bound_logic(p) is Some
                &&& v.bound_storage(l) is Some
                &&& r == Ok::<PriceData, OracleError>(PriceData { decimal: v.storages[s].data })
            })
        }),
{
}

} // verus!
