use vstd::prelude::*;
use crate::errors::GatewayError;
use crate::types::{Hash32, Identity};

verus! {

/// The single (username, owner, creation time) tuple of the named entity.
#[derive(Clone, Debug, PartialEq, Eq)]
pub struct OwnershipRecord {
    pub username: String,
    pub owner: Identity,
    pub created_at: u64,
}

/// Notifications recorded by the ownership record and the root anchor, in
/// the order in which they were emitted.
#[derive(Clone, Debug, PartialEq, Eq)]
pub enum CoreEvent {
    Init { username: String, owner: Identity },
    Transfer { username: String, old_owner: Identity, new_owner: Identity },
    RootUpdated { root: Hash32 },
}

/// Abstract state of a [`CoreContract`]: the record (absent before
/// initialisation), the anchored Merkle root (absent until first written) and
/// the notification log.
pub struct CoreState {
    pub record: Option<OwnershipRecord>,
    pub root: Option<Hash32>,
    pub events: Seq<CoreEvent>,
}

impl CoreState {
    /// `who` is the recorded owner.
    pub open spec fn is_owner(self, who: Seq<char>) -> bool {
        self.record matches Some(rec) && rec.owner@ == who
    }

    /// Every recorded username is non-empty.
    pub open spec fn wf(self) -> bool {
        self.record matches Some(rec) ==> rec.username@.len() > 0
    }

    /// The state after the root is overwritten with `root`.
    pub open spec fn with_root(self, root: Hash32) -> CoreState {
        CoreState {
            record: self.record,
            root: Some(root),
            events: self.events.push(CoreEvent::RootUpdated { root }),
        }
    }

    /// The state after `new_owner` replaces the owner of an existing record,
    /// without any notification.
    pub open spec fn with_owner(self, new_owner: Identity) -> CoreState {
        CoreState {
            record: match self.record {
                Some(rec) => Some(
                    OwnershipRecord {
                        username: rec.username,
                        owner: new_owner,
                        created_at: rec.created_at,
                    },
                ),
                None => None,
            },
            root: self.root,
            events: self.events,
        }
    }

    /// The state after a successful ownership transfer to `new_owner`
    /// together with the new root: the owner is replaced, a `Transfer`
    /// notification is recorded, then the root is written.
    pub open spec fn after_transfer(self, new_owner: Identity, root: Hash32) -> CoreState
        recommends
            self.record is Some,
    {
        let rec = self.record->Some_0;
        let moved = self.with_owner(new_owner);
        CoreState {
            record: moved.record,
            root: moved.root,
            events: moved.events.push(
                CoreEvent::Transfer {
                    username: rec.username,
                    old_owner: rec.owner,
                    new_owner,
                },
            ),
        }.with_root(root)
    }

    /// Outcome of `init`: the next state and the result.
    pub open spec fn init_step(self, username: String, owner: Identity, now: u64) -> (
        CoreState,
        Result<(), GatewayError>,
    ) {
        if self.record is Some {
            (self, Err(GatewayError::AlreadyInitialized))
        } else if username@.len() == 0 {
            (self, Err(GatewayError::InvalidUsername))
        } else {
            (
                CoreState {
                    record: Some(OwnershipRecord { username, owner, created_at: now }),
                    root: self.root,
                    events: self.events.push(CoreEvent::Init { username, owner }),
                },
                Ok(()),
            )
        }
    }

    /// Outcome of the authorisation guard for `caller`.
    pub open spec fn guard(self, caller: Seq<char>) -> Result<(), GatewayError> {
        match self.record {
            None => Err(GatewayError::NotInitialized),
            Some(rec) => if caller == rec.owner@ {
                Ok(())
            } else {
                Err(GatewayError::Unauthorized)
            },
        }
    }

    /// Outcome of `transfer_ownership` called by `caller`.
    pub open spec fn transfer_ownership_step(self, caller: Seq<char>, new_owner: Identity) -> (
        CoreState,
        Result<(), GatewayError>,
    ) {
        match self.guard(caller) {
            Err(e) => (self, Err(e)),
            Ok(()) => (self.with_owner(new_owner), Ok(())),
        }
    }

    /// Outcome of `transfer` called by `caller`.
    pub open spec fn transfer_step(self, caller: Seq<char>, new_owner: Identity, root: Hash32) -> (
        CoreState,
        Result<(), GatewayError>,
    ) {
        match self.guard(caller) {
            Err(e) => (self, Err(e)),
            Ok(()) => if new_owner@ == self.record->Some_0.owner@ {
                (self, Err(GatewayError::SameOwner))
            } else {
                (self.after_transfer(new_owner, root), Ok(()))
            },
        }
    }

    /// Outcome of `update_root` called by `caller`.
    pub open spec fn update_root_step(self, caller: Seq<char>, root: Hash32) -> (
        CoreState,
        Result<(), GatewayError>,
    ) {
        if self.is_owner(caller) {
            (self.with_root(root), Ok(()))
        } else {
            (self, Err(GatewayError::Unauthorized))
        }
    }

    /// What `get_owner` returns.
    pub open spec fn owner_result(self) -> Result<Identity, GatewayError> {
        match self.record {
            Some(rec) => Ok(rec.owner),
            None => Err(GatewayError::NotInitialized),
        }
    }

    /// What `get_username` returns.
    pub open spec fn username_result(self) -> Result<String, GatewayError> {
        match self.record {
            Some(rec) => Ok(rec.username),
            None => Err(GatewayError::NotInitialized),
        }
    }

    /// What `get_root` returns.
    pub open spec fn root_result(self) -> Result<Hash32, GatewayError> {
        match self.root {
            Some(root) => Ok(root),
            None => Err(GatewayError::RootNotSet),
        }
    }
}

/// The ownership record of the named entity together with the Merkle root
/// anchor that its owner controls.
///
/// The root anchor has no owner of its own: whoever owns the record at the
/// moment of a write may write the root.
pub struct CoreContract {
    record: Option<OwnershipRecord>,
    root: Option<Hash32>,
    events: Vec<CoreEvent>,
}

impl View for CoreContract {
    type V = CoreState;

    closed spec fn view(&self) -> CoreState {
        CoreState { record: self.record, root: self.root, events: self.events@ }
    }
}

impl CoreContract {
    /// An uninitialised record with no root and no notifications.
    pub fn new() -> (r: CoreContract)
        ensures
            r@.record is None,
            r@.root is None,
            r@.events.len() == 0,
            r@.wf(),
    {
        CoreContract { record: None, root: None, events: Vec::new() }
    }

    /// Creates the record, once. `now` is the ledger time of the call.
    /// Fails with `AlreadyInitialized` on a second call and with
    /// `InvalidUsername` on an empty username.
    pub fn init(&mut self, username: String, owner: Identity, now: u64) -> (r: Result<
        (),
        GatewayError,
    >)
        requires
            old(self)@.wf(),
        ensures
            final(self)@.wf(),
            (final(self)@, r) == old(self)@.init_step(username, owner, now),
    {
        if self.record.is_some() {
            return Err(GatewayError::AlreadyInitialized);
        }
        if username.as_str().is_empty() {
            return Err(GatewayError::InvalidUsername);
        }
        let event = CoreEvent::Init { username: username.clone(), owner: owner.clone() };
        self.record = Some(OwnershipRecord { username, owner, created_at: now });
        self.events.push(event);
        Ok(())
    }

    /// The recorded username.
    pub fn get_username(&self) -> (r: Result<String, GatewayError>)
        ensures
            r == self@.username_result(),
    {
        match &self.record {
            Some(rec) => Ok(rec.username.clone()),
            None => Err(GatewayError::NotInitialized),
        }
    }

    /// The recorded owner.
    pub fn get_owner(&self) -> (r: Result<Identity, GatewayError>)
        ensures
            r == self@.owner_result(),
    {
        match &self.record {
            Some(rec) => Ok(rec.owner.clone()),
            None => Err(GatewayError::NotInitialized),
        }
    }

    /// The ledger time at which the record was created.
    pub fn get_created_at(&self) -> (r: Result<u64, GatewayError>)
        ensures
            match self@.record {
                Some(rec) => r == Ok::<u64, GatewayError>(rec.created_at),
                None => r == Err::<u64, GatewayError>(GatewayError::NotInitialized),
            },
    {
        match &self.record {
            Some(rec) => Ok(rec.created_at),
            None => Err(GatewayError::NotInitialized),
        }
    }

    /// The authorisation guard: succeeds exactly when `caller` is the
    /// recorded owner.
    pub fn require_owner(&self, caller: &Identity) -> (r: Result<(), GatewayError>)
        ensures
            r == self@.guard(caller@),
    {
        match &self.record {
            None => Err(GatewayError::NotInitialized),
            Some(rec) => {
                if *caller == rec.owner {
                    Ok(())
                } else {
                    Err(GatewayError::Unauthorized)
                }
            },
        }
    }

    /// Hands the record to `new_owner` without touching the root; `new_owner`
    /// may equal the current owner.
    pub fn transfer_ownership(&mut self, caller: &Identity, new_owner: Identity) -> (r: Result<
        (),
        GatewayError,
    >)
        requires
            old(self)@.wf(),
        ensures
            final(self)@.wf(),
            (final(self)@, r) == old(self)@.transfer_ownership_step(caller@, new_owner),
    {
        match self.require_owner(caller) {
            Err(e) => Err(e),
            Ok(()) => {
                match &mut self.record {
                    Some(rec) => {
                        rec.owner = new_owner;
                    },
                    None => {},
                }
                Ok(())
            },
        }
    }

    /// Overwrites the root and records `RootUpdated`. This is the privileged
    /// internal step: it performs no authorisation of its own, so that a
    /// transfer can write the root under the authority it has just handed
    /// to the new owner.
    fn write_root(&mut self, root: Hash32)
        ensures
            final(self)@ == old(self)@.with_root(root),
    {
        self.root = Some(root);
        self.events.push(CoreEvent::RootUpdated { root });
    }

    /// Transfers the record to `new_owner` and anchors `new_root`, as one
    /// unit: either both happen or nothing changes.
    ///
    /// Order of checks: an uninitialised record, a caller other than the
    /// owner, then a new owner equal to the current one.
    pub fn transfer(&mut self, caller: &Identity, new_owner: Identity, new_root: Hash32) -> (r:
        Result<(), GatewayError>)
        requires
            old(self)@.wf(),
        ensures
            final(self)@.wf(),
            (final(self)@, r) == old(self)@.transfer_step(caller@, new_owner, new_root),
    {
        let (username, old_owner, created_at) = match &self.record {
            None => {
                return Err(GatewayError::NotInitialized);
            },
            Some(rec) => (rec.username.clone(), rec.owner.clone(), rec.created_at),
        };
        if !(*caller == old_owner) {
            return Err(GatewayError::Unauthorized);
        }
        if new_owner == old_owner {
            return Err(GatewayError::SameOwner);
        }
        self.record = Some(
            OwnershipRecord { username: username.clone(), owner: new_owner.clone(), created_at },
        );
        self.events.push(CoreEvent::Transfer { username, old_owner, new_owner });
        self.write_root(new_root);
        Ok(())
    }

    /// Overwrites the anchored root; only the current owner may do so, and
    /// any other caller gets `Unauthorized`.
    pub fn update_root(&mut self, caller: &Identity, new_root: Hash32) -> (r: Result<
        (),
        GatewayError,
    >)
        requires
            old(self)@.wf(),
        ensures
            final(self)@.wf(),
            (final(self)@, r) == old(self)@.update_root_step(caller@, new_root),
    {
        match self.require_owner(caller) {
            Ok(()) => {
                self.write_root(new_root);
                Ok(())
            },
            Err(_) => Err(GatewayError::Unauthorized),
        }
    }

    /// The anchored root.
    pub fn get_root(&self) -> (r: Result<Hash32, GatewayError>)
        ensures
            r == self@.root_result(),
    {
        match self.root {
            Some(root) => Ok(root),
            None => Err(GatewayError::RootNotSet),
        }
    }

    /// The notifications recorded so far, oldest first.
    pub fn events(&self) -> (r: &[CoreEvent])
        ensures
            r@ == self@.events,
    {
        self.events.as_slice()
    }
}

} // verus!
