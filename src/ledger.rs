use vstd::prelude::*;
use crate::consumer::Hello;
use crate::logic::Logic;
use crate::proxy::OracleGenericProxy;
use crate::storage::Storage;

verus! {

/// Every finalized component, each in the slot that its address names.
/// A call is made on the ledger so that a component can reach the component
/// bound to it by address.
pub struct Ledger {
    pub storages: Vec<Storage>,
    pub logics: Vec<Logic>,
    pub proxies: Vec<OracleGenericProxy>,
    pub consumers: Vec<Hello>,
}

/// The mathematical model of a ledger.
pub struct LedgerView {
    pub storages: Seq<Storage>,
    pub logics: Seq<Logic>,
    pub proxies: Seq<OracleGenericProxy>,
    pub consumers: Seq<Hello>,
}

impl View for Ledger {
    type V = LedgerView;

    open spec fn view(&self) -> LedgerView {
        LedgerView {
            storages: self.storages@,
            logics: self.logics@,
            proxies: self.proxies@,
            consumers: self.consumers@,
        }
    }
}

impl LedgerView {
    pub open spec fn with_storage(self, s: int, st: Storage) -> LedgerView {
        LedgerView { storages: self.storages.update(s, st), ..self }
    }

    pub open spec fn with_logic(self, l: int, lg: Logic) -> LedgerView {
        LedgerView { logics: self.logics.update(l, lg), ..self }
    }

    pub open spec fn with_proxy(self, p: int, px: OracleGenericProxy) -> LedgerView {
        LedgerView { proxies: self.proxies.update(p, px), ..self }
    }
}

impl Ledger {
    pub fn new() -> (r: Ledger)
        ensures
            r@.storages.len() == 0,
            r@.logics.len() == 0,
            r@.proxies.len() == 0,
            r@.consumers.len() == 0,
    {
        Ledger { storages: Vec::new(), logics: Vec::new(), proxies: Vec::new(), consumers: Vec::new() }
    }
}

} // verus!
