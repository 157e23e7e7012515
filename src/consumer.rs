use vstd::prelude::*;
use crate::auth::{AuthZone, ComponentAddress, OracleError, ResourceAddress};
use crate::ledger::{Ledger, LedgerView};
use crate::proxy::OracleGenericProxy;
use crate::value::{CallArgs, PriceData};

verus! {

/// Units of one resource, in transit.
#[derive(Clone, Copy, Debug, PartialEq, Eq, Structural)]
pub struct Bucket {
    pub resource: ResourceAddress,
    pub amount: u64,
}

/// Units of one resource, held by a component.
#[derive(Clone, Copy, Debug, PartialEq, Eq, Structural)]
pub struct Vault {
    pub resource: ResourceAddress,
    pub amount: u64,
}

impl Vault {
    pub fn with_bucket(bucket: Bucket) -> (v: Vault)
        ensures
            v.resource == bucket.resource,
            v.amount == bucket.amount,
    {
        Vault { resource: bucket.resource, amount: bucket.amount }
    }

    /// The proofs a call can present from this vault, backed by one unit.
    pub open spec fn unit_proofs(self) -> Seq<ResourceAddress> {
        if self.amount >= 1 {
            seq![self.resource]
        } else {
            Seq::empty()
        }
    }

    /// Proof of one unit, scoped to the call that presents it.
    pub fn authorize_with_one(&self) -> (proofs: Vec<ResourceAddress>)
        ensures
            proofs@ == self.unit_proofs(),
    {
        let mut proofs: Vec<ResourceAddress> = Vec::new();
        if self.amount >= 1 {
            proofs.push(self.resource);
        }
        proofs
    }
}

/// A consumer holding a white-list badge, which forwards any call to its proxy.
#[derive(Clone, Copy, Debug)]
pub struct Hello {
    pub white_list_vault: Vault,
    /// Slot of the proxy that calls are forwarded to.
    pub proxy: usize,
}

impl Hello {
    /// Finalizes a consumer that keeps `bucket` and forwards to proxy `proxy`.
    /// Returns its slot.
    pub fn instantiate_hello(ledger: &mut Ledger, bucket: Bucket, proxy: usize) -> (r: usize)
        requires
            old(ledger)@.consumers.len() < usize::MAX,
        ensures
            r == old(ledger)@.consumers.len(),
            final(ledger)@ == (LedgerView {
                consumers: old(ledger)@.consumers.push(
                    Hello {
                        white_list_vault: Vault { resource: bucket.resource, amount: bucket.amount },
                        proxy,
                    },
                ),
                ..old(ledger)@
            }),
    {
        let hello = Hello { white_list_vault: Vault::with_bucket(bucket), proxy };
        let c = ledger.consumers.len();
        ledger.consumers.push(hello);
        c
    }

    /// Forwards `method(args)` to the proxy, as this component and with a
    /// proof of one unit of its badge; returns what the proxy returns.
    pub fn call_method(ledger: &mut Ledger, this: usize, method: &String, args: CallArgs) -> (r: Result<
        PriceData,
        OracleError,
    >)
        requires
            this < old(ledger)@.consumers.len(),
        ensures
            (r, final(ledger)@) == old(ledger)@.consumer_call(this as int, method@, args),
    {
        let hello = ledger.consumers[this];
        if hello.proxy >= ledger.proxies.len() {
            return Err(OracleError::Unbound);
        }
        let zone = AuthZone { caller: Some(ComponentAddress::Consumer(this)), proofs: hello.white_list_vault.authorize_with_one() };
        OracleGenericProxy::call_method(ledger, hello.proxy, &zone, method, args)
    }
}

impl LedgerView {
    pub open spec fn consumer_call(self, c: int, name: Seq<char>, args: CallArgs) -> (
        Result<PriceData, OracleError>,
        LedgerView,
    ) {
        let h = self.consumers[c];
        if h.proxy < self.proxies.len() {
            self.proxy_call(
                h.proxy as int,
                Some(ComponentAddress::Consumer(c as usize)),
                h.white_list_vault.unit_proofs(),
                name,
                args,
            )
        } else {
            (Err(OracleError::Unbound), self)
        }
    }
}

} // verus!
