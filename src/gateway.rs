use vstd::prelude::*;
use crate::errors::{GatewayError, ResolverError};
use crate::registration::{RegisterEvent, Registration, RegistryState};
use crate::resolver::{ResolveData, ResolverIndex, resolve_result};
use crate::types::{Hash32, Identity};

verus! {

/// Abstract state of a [`Contract`]: the resolver entries and the commitment
/// registry, which share a key space but not a policy.
pub struct GatewayState {
    pub resolver: Map<Seq<u8>, ResolveData>,
    pub registry: RegistryState,
}

/// The gateway's public entry points over commitments: payment resolution
/// (overwrite on register) and identity claims (reject on duplicate).
pub struct Contract {
    resolver: ResolverIndex,
    registration: Registration,
}

impl View for Contract {
    type V = GatewayState;

    closed spec fn view(&self) -> GatewayState {
        GatewayState { resolver: self.resolver@, registry: self.registration@ }
    }
}

impl Contract {
    pub closed spec fn wf(&self) -> bool {
        self.resolver.wf() && self.registration.wf()
    }

    /// A gateway with no entries and no claims.
    pub fn new() -> (r: Contract)
        ensures
            r.wf(),
            r@.resolver == Map::<Seq<u8>, ResolveData>::empty(),
            r@.registry.owners == Map::<Seq<u8>, Identity>::empty(),
            r@.registry.events.len() == 0,
    {
        Contract { resolver: ResolverIndex::new(), registration: Registration::new() }
    }

    /// Routes `commitment` to `wallet` with `memo`, replacing any earlier
    /// entry; the claim registry is untouched.
    pub fn register(&mut self, commitment: Hash32, wallet: Identity, memo: Option<u64>)
        requires
            old(self).wf(),
        ensures
            final(self).wf(),
            final(self)@.resolver == old(self)@.resolver.insert(
                commitment@,
                ResolveData { wallet, memo },
            ),
            final(self)@.registry == old(self)@.registry,
    {
        self.resolver.register(commitment, wallet, memo);
    }

    /// The wallet and memo that `commitment` routes to.
    pub fn resolve(&self, commitment: &Hash32) -> (r: Result<ResolveData, ResolverError>)
        requires
            self.wf(),
        ensures
            r == resolve_result(self@.resolver, commitment@),
    {
        self.resolver.resolve(commitment)
    }

    /// Claims `commitment` for `caller`; a commitment already claimed, by
    /// anyone, is rejected. The resolver entries are untouched.
    pub fn register_commitment(&mut self, caller: Identity, commitment: Hash32) -> (r: Result<
        (),
        GatewayError,
    >)
        requires
            old(self).wf(),
        ensures
            final(self).wf(),
            final(self)@.resolver == old(self)@.resolver,
            (final(self)@.registry, r) == old(self)@.registry.register_step(caller, commitment),
    {
        self.registration.register(caller, commitment)
    }

    /// The identity that claimed `commitment`, if any.
    pub fn get_commitment_owner(&self, commitment: &Hash32) -> (r: Option<Identity>)
        requires
            self.wf(),
        ensures
            r == self@.registry.owner_of(commitment@),
    {
        self.registration.get_owner(commitment)
    }

    /// The claim notifications recorded so far, oldest first.
    pub fn events(&self) -> (r: &[RegisterEvent])
        ensures
            r@ == self@.registry.events,
    {
        self.registration.events()
    }
}

} // verus!
