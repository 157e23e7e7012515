use vstd::prelude::*;
use scrypto::prelude::Decimal;
use crate::auth::{AccessRule, AuthZone, ComponentAddress, OracleError, ResourceAddress};
use crate::ledger::{Ledger, LedgerView};
use crate::storage::Storage;
use crate::value::{CallArgs, PriceData, ReturnValue};

verus! {

/// Mediates access to a storage: reads only from the configured proxy,
/// writes only with the owner's badge.
#[derive(Clone, Copy, Debug)]
pub struct Logic {
    pub owner_role: AccessRule,
    /// The rule of reads: the caller is the configured proxy.
    pub proxy_role: AccessRule,
    /// Slot of the bound storage; `None` until one is bound.
    pub storage_component: Option<usize>,
}

/// The operations of a logic component that a relayed call can name.
#[derive(Clone, Copy, Debug, PartialEq, Eq, Structural)]
pub enum LogicMethod {
    SetStorageComponent,
    ValidateAndUpdateData,
    GetDerivedSvalue,
}

/// The registry of a logic component: the operation that a name stands for.
pub open spec fn logic_method_named(name: Seq<char>) -> Option<LogicMethod> {
    if name == "set_storage_component"@ {
        Some(LogicMethod::SetStorageComponent)
    } else if name == "validate_and_update_data"@ {
        Some(LogicMethod::ValidateAndUpdateData)
    } else if name == "get_derived_svalue"@ {
        Some(LogicMethod::GetDerivedSvalue)
    } else {
        None
    }
}

pub fn lookup_logic_method(name: &String) -> (r: Option<LogicMethod>)
    ensures
        r == logic_method_named(name@),
{
    let set_storage = "set_storage_component".to_owned();
    let update = "validate_and_update_data".to_owned();
    let read = "get_derived_svalue".to_owned();
    if *name == set_storage {
        Some(LogicMethod::SetStorageComponent)
    } else if *name == update {
        Some(LogicMethod::ValidateAndUpdateData)
    } else if *name == read {
        Some(LogicMethod::GetDerivedSvalue)
    } else {
        None
    }
}

impl Logic {
    pub open spec fn fresh(owner_badge: ResourceAddress, proxy_component_address: ComponentAddress) -> Logic {
        Logic {
            owner_role: AccessRule::RequireResource(owner_badge),
            proxy_role: AccessRule::RequireCaller(proxy_component_address),
            storage_component: None,
        }
    }

    /// Finalizes an unbound logic component whose reads require the given
    /// proxy as caller. Returns its slot.
    pub fn instantiate_and_globalize(
        ledger: &mut Ledger,
        owner_badge: ResourceAddress,
        proxy_component_address: ComponentAddress,
    ) -> (r: usize)
        requires
            old(ledger)@.logics.len() < usize::MAX,
        ensures
            r == old(ledger)@.logics.len(),
            final(ledger)@ == (LedgerView {
                logics: old(ledger)@.logics.push(Logic::fresh(owner_badge, proxy_component_address)),
                ..old(ledger)@
            }),
    {
        let logic = Logic {
            owner_role: AccessRule::RequireResource(owner_badge),
            proxy_role: AccessRule::RequireCaller(proxy_component_address),
            storage_component: None,
        };
        let l = ledger.logics.len();
        ledger.logics.push(logic);
        l
    }

    pub fn set_storage_component(ledger: &mut Ledger, this: usize, zone: &AuthZone, storage_component: usize) -> (r:
        Result<(), OracleError>)
        requires
            this < old(ledger)@.logics.len(),
        ensures
            (r, final(ledger)@) == old(ledger)@.logic_set_storage(
                this as int,
                zone.caller,
                zone.proofs@,
                storage_component,
            ),
    {
        let lg = ledger.logics[this];
        if lg.owner_role.check(zone) {
            ledger.logics[this] = Logic { storage_component: Some(storage_component), ..lg };
            Ok(())
        } else {
            Err(OracleError::AuthorizationDenied)
        }
    }

    pub fn validate_and_update_data(ledger: &mut Ledger, this: usize, zone: &AuthZone, data: Decimal) -> (r: Result<
        (),
        OracleError,
    >)
        requires
            this < old(ledger)@.logics.len(),
        ensures
            (r, final(ledger)@) == old(ledger)@.logic_update(this as int, zone.caller, zone.proofs@, data),
    {
        let lg = ledger.logics[this];
        if !lg.owner_role.check(zone) {
            return Err(OracleError::AuthorizationDenied);
        }
        match lg.storage_component {
            None => Err(OracleError::Unbound),
            Some(s) => {
                if s >= ledger.storages.len() {
                    return Err(OracleError::Unbound);
                }
                let mut st = ledger.storages[s];
                let inner = AuthZone::of_component(ComponentAddress::Logic(this));
                let r = st.update_data(&inner, data);
                match r {
                    Ok(()) => {
                        ledger.storages[s] = st;
                        Ok(())
                    },
                    Err(e) => Err(e),
                }
            },
        }
    }

    pub fn get_derived_svalue(ledger: &Ledger, this: usize, zone: &AuthZone) -> (r: Result<PriceData, OracleError>)
        requires
            this < ledger@.logics.len(),
        ensures
            r == ledger@.logic_read(this as int, zone.caller, zone.proofs@),
    {
        let lg = ledger.logics[this];
        if !lg.proxy_role.check(zone) {
            return Err(OracleError::AuthorizationDenied);
        }
        match lg.storage_component {
            None => Err(OracleError::Unbound),
            Some(s) => {
                if s >= ledger.storages.len() {
                    return Err(OracleError::Unbound);
                }
                let inner = AuthZone::of_component(ComponentAddress::Logic(this));
                ledger.storages[s].get_derived_svalue(&inner)
            },
        }
    }

    /// Invokes the operation named `method` with the payload `args`.
    pub fn call(ledger: &mut Ledger, this: usize, zone: &AuthZone, method: &String, args: CallArgs) -> (r: Result<
        ReturnValue,
        OracleError,
    >)
        requires
            this < old(ledger)@.logics.len(),
        ensures
            (r, final(ledger)@) == old(ledger)@.logic_dispatch(this as int, zone.caller, zone.proofs@, method@, args),
    {
        match lookup_logic_method(method) {
            Some(LogicMethod::SetStorageComponent) => match args {
                CallArgs::Reference(ComponentAddress::Storage(s)) => match Logic::set_storage_component(
                    ledger,
                    this,
                    zone,
                    s,
                ) {
                    Ok(()) => Ok(ReturnValue::Unit),
                    Err(e) => Err(e),
                },
                _ => Err(OracleError::DecodeMismatch),
            },
            Some(LogicMethod::ValidateAndUpdateData) => match args {
                CallArgs::Decimal(d) => match Logic::validate_and_update_data(ledger, this, zone, d) {
                    Ok(()) => Ok(ReturnValue::Unit),
                    Err(e) => Err(e),
                },
                _ => Err(OracleError::DecodeMismatch),
            },
            Some(LogicMethod::GetDerivedSvalue) => match args {
                CallArgs::Unit => match Logic::get_derived_svalue(ledger, this, zone) {
                    Ok(p) => Ok(ReturnValue::Price(p)),
                    Err(e) => Err(e),
                },
                _ => Err(OracleError::DecodeMismatch),
            },
            None => Err(OracleError::DecodeMismatch),
        }
    }
}

impl LedgerView {
    /// The slot of the storage that logic component `l` is bound to, where
    /// the binding resolves.
    pub open spec fn bound_storage(self, l: int) -> Option<int> {
        match self.logics[l].storage_component {
            Some(s) => if s < self.storages.len() {
                Some(s as int)
            } else {
                None
            },
            None => None,
        }
    }

    pub open spec fn logic_set_storage(
        self,
        l: int,
        caller: Option<ComponentAddress>,
        proofs: Seq<ResourceAddress>,
        s: usize,
    ) -> (Result<(), OracleError>, LedgerView) {
        let lg = self.logics[l];
        if lg.owner_role.allows(caller, proofs) {
            (Ok(()), self.with_logic(l, Logic { storage_component: Some(s), ..lg }))
        } else {
            (Err(OracleError::AuthorizationDenied), self)
        }
    }

    pub open spec fn logic_update(
        self,
        l: int,
        caller: Option<ComponentAddress>,
        proofs: Seq<ResourceAddress>,
        data: Decimal,
    ) -> (Result<(), OracleError>, LedgerView) {
        if !self.logics[l].owner_role.allows(caller, proofs) {
            (Err(OracleError::AuthorizationDenied), self)
        } else {
            match self.bound_storage(l) {
                None => (Err(OracleError::Unbound), self),
                Some(s) => {
                    let (r, st) = self.storages[s].write_result(
                        Some(ComponentAddress::Logic(l as usize)),
                        Seq::empty(),
                        data,
                    );
                    if r is Ok {
                        (r, self.with_storage(s, st))
                    } else {
                        (r, self)
                    }
                },
            }
        }
    }

    pub open spec fn logic_read(self, l: int, caller: Option<ComponentAddress>, proofs: Seq<ResourceAddress>) -> Result<
        PriceData,
        OracleError,
    > {
        if !self.logics[l].proxy_role.allows(caller, proofs) {
            Err(OracleError::AuthorizationDenied)
        } else {
            match self.bound_storage(l) {
                None => Err(OracleError::Unbound),
                Some(s) => self.storages[s].read_result(Some(ComponentAddress::Logic(l as usize)), Seq::empty()),
            }
        }
    }

    /// A relayed call on logic component `l`: the name and the payload's
    /// shape select the operation, which then applies its own rule.
    pub open spec fn logic_dispatch(
        self,
        l: int,
        caller: Option<ComponentAddress>,
        proofs: Seq<ResourceAddress>,
        name: Seq<char>,
        args: CallArgs,
    ) -> (Result<ReturnValue, OracleError>, LedgerView) {
        match logic_method_named(name) {
            Some(LogicMethod::SetStorageComponent) => match args {
                CallArgs::Reference(ComponentAddress::Storage(s)) => {
                    let (r, v) = self.logic_set_storage(l, caller, proofs, s);
                    match r {
                        Ok(_) => (Ok(ReturnValue::Unit), v),
                        Err(e) => (Err(e), v),
                    }
                },
                _ => (Err(OracleError::DecodeMismatch), self),
            },
            Some(LogicMethod::ValidateAndUpdateData) => match args {
                CallArgs::Decimal(d) => {
                    let (r, v) = self.logic_update(l, caller, proofs, d);
                    match r {
                        Ok(_) => (Ok(ReturnValue::Unit), v),
                        Err(e) => (Err(e), v),
                    }
                },
                _ => (Err(OracleError::DecodeMismatch), self),
            },
            Some(LogicMethod::GetDerivedSvalue) => match args {
                CallArgs::Unit => match self.logic_read(l, caller, proofs) {
                    Ok(p) => (Ok(ReturnValue::Price(p)), self),
                    Err(e) => (Err(e), self),
                },
                _ => (Err(OracleError::DecodeMismatch), self),
            },
            None => (Err(OracleError::DecodeMismatch), self),
        }
    }
}

} // verus!
