use vstd::prelude::*;
use scrypto::prelude::Decimal;
use crate::auth::{AccessRule, AuthZone, ComponentAddress, OracleError, ResourceAddress};
use crate::ledger::{Ledger, LedgerView};
use crate::logic::Logic;
use crate::value::{decimal_from_int, decimal_of, PriceData};

verus! {

/// Holds the value. Only the paired logic component may read or write it.
#[derive(Clone, Copy, Debug)]
pub struct Storage {
    pub data: Decimal,
    pub owner_role: AccessRule,
    /// The rule of both protected operations: the caller is the paired logic component.
    pub logic_role: AccessRule,
}

impl Storage {
    /// Outcome of a write, with the storage after it.
    pub open spec fn write_result(
        self,
        caller: Option<ComponentAddress>,
        proofs: Seq<ResourceAddress>,
        data: Decimal,
    ) -> (Result<(), OracleError>, Storage) {
        if self.logic_role.allows(caller, proofs) {
            (Ok(()), Storage { data, ..self })
        } else {
            (Err(OracleError::AuthorizationDenied), self)
        }
    }

    /// Outcome of a read.
    pub open spec fn read_result(self, caller: Option<ComponentAddress>, proofs: Seq<ResourceAddress>) -> Result<
        PriceData,
        OracleError,
    > {
        if self.logic_role.allows(caller, proofs) {
            Ok(PriceData { decimal: self.data })
        } else {
            Err(OracleError::AuthorizationDenied)
        }
    }

    /// Creates the paired logic component, then a storage holding zero whose
    /// operations require that logic component as caller. Returns the slots
    /// of the storage and of the logic component.
    pub fn instantiate_and_globalize(
        ledger: &mut Ledger,
        owner_badge: ResourceAddress,
        proxy_component_address: ComponentAddress,
    ) -> (r: (usize, usize))
        requires
            old(ledger)@.storages.len() < usize::MAX,
            old(ledger)@.logics.len() < usize::MAX,
        ensures
            r.0 == old(ledger)@.storages.len(),
            r.1 == old(ledger)@.logics.len(),
            final(ledger)@ == (LedgerView {
                storages: old(ledger)@.storages.push(
                    Storage {
                        data: decimal_of(0),
                        owner_role: AccessRule::RequireResource(owner_badge),
                        logic_role: AccessRule::RequireCaller(ComponentAddress::Logic(r.1)),
                    },
                ),
                logics: old(ledger)@.logics.push(Logic::fresh(owner_badge, proxy_component_address)),
                ..old(ledger)@
            }),
    {
        let logic = Logic::instantiate_and_globalize(ledger, owner_badge, proxy_component_address);
        let storage = Storage {
            data: decimal_from_int(0),
            owner_role: AccessRule::RequireResource(owner_badge),
            logic_role: AccessRule::RequireCaller(ComponentAddress::Logic(logic)),
        };
        let s = ledger.storages.len();
        ledger.storages.push(storage);
        (s, logic)
    }

    pub fn update_data(&mut self, zone: &AuthZone, data: Decimal) -> (r: Result<(), OracleError>)
        ensures
            (r, *final(self)) == old(self).write_result(zone.caller, zone.proofs@, data),
    {
        if self.logic_role.check(zone) {
            self.data = data;
            Ok(())
        } else {
            Err(OracleError::AuthorizationDenied)
        }
    }

    pub fn get_derived_svalue(&self, zone: &AuthZone) -> (r: Result<PriceData, OracleError>)
        ensures
            r == self.read_result(zone.caller, zone.proofs@),
    {
        if self.logic_role.check(zone) {
            Ok(PriceData { decimal: self.data })
        } else {
            Err(OracleError::AuthorizationDenied)
        }
    }
}

} // verus!
