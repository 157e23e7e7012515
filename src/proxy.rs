use vstd::prelude::*;
use crate::auth::{AccessRule, AuthZone, ComponentAddress, OracleError, ResourceAddress};
use crate::ledger::{Ledger, LedgerView};
use crate::logic::Logic;
use crate::value::{decode_price_data, price_data_of, CallArgs, PriceData};

verus! {

/// The public entry point: relays a named call to the bound logic component
/// for any caller that presents the white-list badge.
#[derive(Clone, Copy, Debug)]
pub struct OracleGenericProxy {
    pub owner_role: AccessRule,
    /// The rule of relayed calls: a proof of the white-list badge.
    pub white_listed: AccessRule,
    /// Slot of the bound logic component; `None` until one is bound.
    pub oracle_logic_component: Option<usize>,
}

impl OracleGenericProxy {
    pub open spec fn fresh(owner_badge: ResourceAddress, white_list_badge: ResourceAddress) -> OracleGenericProxy {
        OracleGenericProxy {
            owner_role: AccessRule::RequireResource(owner_badge),
            white_listed: AccessRule::RequireResource(white_list_badge),
            oracle_logic_component: None,
        }
    }

    /// Finalizes an unbound proxy whose relay requires a proof of
    /// `white_list_badge`. Returns its slot.
    pub fn instantiate_and_globalize(
        ledger: &mut Ledger,
        owner_badge: ResourceAddress,
        white_list_badge: ResourceAddress,
    ) -> (r: usize)
        requires
            old(ledger)@.proxies.len() < usize::MAX,
        ensures
            r == old(ledger)@.proxies.len(),
            final(ledger)@ == (LedgerView {
                proxies: old(ledger)@.proxies.push(OracleGenericProxy::fresh(owner_badge, white_list_badge)),
                ..old(ledger)@
            }),
    {
        let proxy = OracleGenericProxy {
            owner_role: AccessRule::RequireResource(owner_badge),
            white_listed: AccessRule::RequireResource(white_list_badge),
            oracle_logic_component: None,
        };
        let p = ledger.proxies.len();
        ledger.proxies.push(proxy);
        p
    }

    pub fn set_oracle_address(ledger: &mut Ledger, this: usize, zone: &AuthZone, address: usize) -> (r: Result<
        (),
        OracleError,
    >)
        requires
            this < old(ledger)@.proxies.len(),
        ensures
            (r, final(ledger)@) == old(ledger)@.proxy_set_oracle(this as int, zone.caller, zone.proofs@, address),
    {
        let px = ledger.proxies[this];
        if px.owner_role.check(zone) {
            ledger.proxies[this] = OracleGenericProxy { oracle_logic_component: Some(address), ..px };
            Ok(())
        } else {
            Err(OracleError::AuthorizationDenied)
        }
    }

    /// Relays the call `method(args)` to the bound logic component, as this
    /// proxy, and reads the response as `PriceData`. A failure anywhere
    /// leaves the ledger as it was.
    pub fn call_method(ledger: &mut Ledger, this: usize, zone: &AuthZone, method: &String, args: CallArgs) -> (r:
        Result<PriceData, OracleError>)
        requires
            this < old(ledger)@.proxies.len(),
        ensures
            (r, final(ledger)@) == old(ledger)@.proxy_call(this as int, zone.caller, zone.proofs@, method@, args),
    {
        let px = ledger.proxies[this];
        if !px.white_listed.check(zone) {
            return Err(OracleError::AuthorizationDenied);
        }
        let l = match px.oracle_logic_component {
            None => {
                return Err(OracleError::Unbound);
            },
            Some(l) => l,
        };
        if l >= ledger.logics.len() {
            return Err(OracleError::Unbound);
        }
        // what the call may change, kept to undo it if the response does not decode
        let ghost before = ledger@;
        let saved_logic = ledger.logics[l];
        let saved_storage = match saved_logic.storage_component {
            Some(s) => if s < ledger.storages.len() {
                Some((s, ledger.storages[s]))
            } else {
                None
            },
            None => None,
        };
        let inner = AuthZone::of_component(ComponentAddress::Proxy(this));
        match Logic::call(ledger, l, &inner, method, args) {
            Err(e) => Err(e),
            Ok(v) => match decode_price_data(v) {
                Ok(p) => Ok(p),
                Err(e) => {
                    ledger.logics[l] = saved_logic;
                    match saved_storage {
                        Some((s, st)) => {
                            ledger.storages[s] = st;
                        },
                        None => {},
                    }
                    assert(ledger@.logics =~= before.logics);
                    assert(ledger@.storages =~= before.storages);
                    Err(e)
                },
            },
        }
    }
}

impl LedgerView {
    /// The slot of the logic component that proxy `p` is bound to, where the
    /// binding resolves.
    pub open spec fn bound_logic(self, p: int) -> Option<int> {
        match self.proxies[p].oracle_logic_component {
            Some(l) => if l < self.logics.len() {
                Some(l as int)
            } else {
                None
            },
            None => None,
        }
    }

    pub open spec fn proxy_set_oracle(
        self,
        p: int,
        caller: Option<ComponentAddress>,
        proofs: Seq<ResourceAddress>,
        l: usize,
    ) -> (Result<(), OracleError>, LedgerView) {
        let px = self.proxies[p];
        if px.owner_role.allows(caller, proofs) {
            (Ok(()), self.with_proxy(p, OracleGenericProxy { oracle_logic_component: Some(l), ..px }))
        } else {
            (Err(OracleError::AuthorizationDenied), self)
        }
    }

    pub open spec fn proxy_call(
        self,
        p: int,
        caller: Option<ComponentAddress>,
        proofs: Seq<ResourceAddress>,
        name: Seq<char>,
        args: CallArgs,
    ) -> (Result<PriceData, OracleError>, LedgerView) {
        if !self.proxies[p].white_listed.allows(caller, proofs) {
            (Err(OracleError::AuthorizationDenied), self)
        } else {
            match self.bound_logic(p) {
                None => (Err(OracleError::Unbound), self),
                Some(l) => {
                    let (r, v) = self.logic_dispatch(
                        l,
                        Some(ComponentAddress::Proxy(p as usize)),
                        Seq::empty(),
                        name,
                        args,
                    );
                    match r {
                        Err(e) => (Err(e), self),
                        Ok(rv) => match price_data_of(rv) {
                            Ok(d) => (Ok(d), v),
                            Err(e) => (Err(e), self),
                        },
                    }
                },
            }
        }
    }
}

} // verus!
