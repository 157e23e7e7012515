use vstd::prelude::*;

verus! {

/// Address of a resource, that is of a kind of capability token. Any unit of
/// the resource satisfies a rule that asks for it.
#[derive(Clone, Copy, Debug, PartialEq, Eq, Structural)]
pub struct ResourceAddress {
    pub id: u64,
}

/// Global identity of a finalized component: its blueprint and its slot on
/// the ledger.
#[derive(Clone, Copy, Debug, PartialEq, Eq, Structural)]
pub enum ComponentAddress {
    Storage(usize),
    Logic(usize),
    Proxy(usize),
    Consumer(usize),
}

/// What the substrate knows of a call: the identity of the immediate caller
/// (`None` for an account) and the resources of which the caller presents a
/// proof for the length of this call.
pub struct AuthZone {
    pub caller: Option<ComponentAddress>,
    pub proofs: Vec<ResourceAddress>,
}

/// An authorization rule attached to a protected operation.
#[derive(Clone, Copy, Debug, PartialEq, Eq, Structural)]
pub enum AccessRule {
    /// The immediate caller must be exactly this component.
    RequireCaller(ComponentAddress),
    /// The caller must present a proof of this resource.
    RequireResource(ResourceAddress),
}

/// Why a call failed. A failed call changes no state.
#[derive(Clone, Copy, Debug, PartialEq, Eq, Structural)]
pub enum OracleError {
    AuthorizationDenied,
    Unbound,
    DecodeMismatch,
}

impl AccessRule {
    /// Whether a call from `caller` presenting proofs of `proofs` satisfies the rule.
    pub open spec fn allows(self, caller: Option<ComponentAddress>, proofs: Seq<ResourceAddress>) -> bool {
        match self {
            AccessRule::RequireCaller(a) => caller == Some(a),
            AccessRule::RequireResource(r) => proofs.contains(r),
        }
    }

    pub fn check(&self, zone: &AuthZone) -> (r: bool)
        ensures
            r == self.allows(zone.caller, zone.proofs@),
    {
        match self {
            AccessRule::RequireCaller(a) => match zone.caller {
                Some(c) => c == *a,
                None => false,
            },
            AccessRule::RequireResource(r) => zone.presents(*r),
        }
    }
}

impl AuthZone {
    /// The zone of a call made by component `caller`, which presents no proof.
    pub fn of_component(caller: ComponentAddress) -> (z: AuthZone)
        ensures
            z.caller == Some(caller),
            z.proofs@ == Seq::<ResourceAddress>::empty(),
    {
        AuthZone { caller: Some(caller), proofs: Vec::new() }
    }

    /// The zone of a call made by an account presenting proofs of `proofs`.
    pub fn of_account(proofs: Vec<ResourceAddress>) -> (z: AuthZone)
        ensures
            z.caller == None::<ComponentAddress>,
            z.proofs@ == proofs@,
    {
        AuthZone { caller: None, proofs }
    }

    /// Whether a proof of `resource` is presented.
    pub fn presents(&self, resource: ResourceAddress) -> (b: bool)
        ensures
            b == self.proofs@.contains(resource),
    {
        let n = self.proofs.len();
        let mut i: usize = 0;
        while i < n
            invariant
                n == self.proofs@.len(),
                i <= n,
                forall|j: int| 0 <= j < i ==> self.proofs@[j] != resource,
            decreases n - i,
        {
            if self.proofs[i] == resource {
                return true;
            }
            i = i + 1;
        }
        false
    }
}

} // verus!
