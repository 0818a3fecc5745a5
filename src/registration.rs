use vstd::prelude::*;
use crate::errors::GatewayError;
use crate::store::CommitmentMap;
use crate::types::{Hash32, Identity};

verus! {

/// Notification of a new commitment claim.
#[derive(Clone, Debug, PartialEq, Eq)]
pub struct RegisterEvent {
    pub commitment: Hash32,
    pub owner: Identity,
}

/// Abstract state of a [`Registration`]: who claimed each commitment (keyed
/// by the commitment's bytes), and the notification log.
pub struct RegistryState {
    pub owners: Map<Seq<u8>, Identity>,
    pub events: Seq<RegisterEvent>,
}

impl RegistryState {
    /// Who claimed the commitment with bytes `key`, if anyone.
    pub open spec fn owner_of(self, key: Seq<u8>) -> Option<Identity> {
        if self.owners.contains_key(key) {
            Some(self.owners[key])
        } else {
            None
        }
    }

    /// Outcome of `register`: the next state and the result.
    pub open spec fn register_step(self, caller: Identity, commitment: Hash32) -> (
        RegistryState,
        Result<(), GatewayError>,
    ) {
        if self.owners.contains_key(commitment@) {
            (self, Err(GatewayError::AlreadyRegistered))
        } else {
            (
                RegistryState {
                    owners: self.owners.insert(commitment@, caller),
                    events: self.events.push(RegisterEvent { commitment, owner: caller }),
                },
                Ok(()),
            )
        }
    }
}

/// The commitment registry: each commitment is claimed at most once, and a
/// claim is permanent. A second claim of the same commitment is rejected,
/// whoever makes it.
pub struct Registration {
    owners: CommitmentMap<Identity>,
    events: Vec<RegisterEvent>,
}

impl View for Registration {
    type V = RegistryState;

    closed spec fn view(&self) -> RegistryState {
        RegistryState { owners: self.owners@, events: self.events@ }
    }
}

impl Registration {
    pub closed spec fn wf(&self) -> bool {
        self.owners.wf()
    }

    /// A registry with no claims.
    pub fn new() -> (r: Registration)
        ensures
            r.wf(),
            r@.owners == Map::<Seq<u8>, Identity>::empty(),
            r@.events.len() == 0,
    {
        Registration { owners: CommitmentMap::new(), events: Vec::new() }
    }

    /// Binds `commitment` to `caller` if nobody has claimed it yet.
    pub fn register(&mut self, caller: Identity, commitment: Hash32) -> (r: Result<(), GatewayError>)
        requires
            old(self).wf(),
        ensures
            final(self).wf(),
            (final(self)@, r) == old(self)@.register_step(caller, commitment),
    {
        if self.owners.get(&commitment).is_some() {
            return Err(GatewayError::AlreadyRegistered);
        }
        let event = RegisterEvent { commitment, owner: caller.clone() };
        self.owners.insert(commitment, caller);
        self.events.push(event);
        Ok(())
    }

    /// The identity that claimed `commitment`, if any.
    pub fn get_owner(&self, commitment: &Hash32) -> (r: Option<Identity>)
        requires
            self.wf(),
        ensures
            r == self@.owner_of(commitment@),
    {
        match self.owners.get(commitment) {
            Some(owner) => Some(owner.clone()),
            None => None,
        }
    }

    /// The notifications recorded so far, oldest first.
    pub fn events(&self) -> (r: &[RegisterEvent])
        ensures
            r@ == self@.events,
    {
        self.events.as_slice()
    }
}

} // verus!
