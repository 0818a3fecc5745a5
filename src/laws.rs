//! Properties that relate several operations, stated over the transition
//! functions that the operations' contracts are written in.
use vstd::prelude::*;
use crate::contract_core::{CoreEvent, CoreState};
use crate::errors::{ErrorKind, GatewayError, ResolverError};
use crate::registration::RegistryState;
use crate::resolver::{ResolveData, resolve_result};
use crate::types::{Hash32, Identity};

verus! {

/// Initialising a fresh record with a non-empty username stores exactly that
/// username and owner; any later `init`, whatever its arguments, fails with
/// an initialisation error and changes nothing.
pub proof fn init_stores_and_is_one_shot(
    s: CoreState,
    username: String,
    owner: Identity,
    now: u64,
    username2: String,
    owner2: Identity,
    now2: u64,
)
    requires
        s.record is None,
        username@.len() > 0,
    ensures
        ({
            let (s1, r1) = s.init_step(username, owner, now);
            let (s2, r2) = s1.init_step(username2, owner2, now2);
            &&& r1 is Ok
            &&& s1.owner_result() == Ok::<Identity, GatewayError>(owner)
            &&& s1.username_result() == Ok::<String, GatewayError>(username)
            &&& r2 == Err::<(), GatewayError>(GatewayError::AlreadyInitialized)
            &&& GatewayError::AlreadyInitialized.spec_kind() == ErrorKind::Initialization
            &&& s2 == s1
        }),
{
}

/// One mutating call on the ownership record and root anchor, with its
/// arguments as a caller issues them.
pub enum CoreCall {
    Init { username: String, owner: Identity, now: u64 },
    TransferOwnership { caller: Identity, new_owner: Identity },
    Transfer { caller: Identity, new_owner: Identity, root: Hash32 },
    UpdateRoot { caller: Identity, root: Hash32 },
}

/// The state after `call`, whether it succeeds or is declined.
pub open spec fn apply_call(s: CoreState, call: CoreCall) -> CoreState {
    match call {
        CoreCall::Init { username, owner, now } => s.init_step(username, owner, now).0,
        CoreCall::TransferOwnership { caller, new_owner } => s.transfer_ownership_step(
            caller@,
            new_owner,
        ).0,
        CoreCall::Transfer { caller, new_owner, root } => s.transfer_step(
            caller@,
            new_owner,
            root,
        ).0,
        CoreCall::UpdateRoot { caller, root } => s.update_root_step(caller@, root).0,
    }
}

/// The state after `calls`, in order.
pub open spec fn apply_calls(s: CoreState, calls: Seq<CoreCall>) -> CoreState
    decreases calls.len(),
{
    if calls.len() == 0 {
        s
    } else {
        apply_calls(apply_call(s, calls[0]), calls.drop_first())
    }
}

/// Once the record exists, no sequence of calls removes it or changes its
/// username or creation time.
pub proof fn record_identity_is_permanent(s: CoreState, calls: Seq<CoreCall>)
    requires
        s.record is Some,
    ensures
        apply_calls(s, calls).record is Some,
        apply_calls(s, calls).record->Some_0.username == s.record->Some_0.username,
        apply_calls(s, calls).record->Some_0.created_at == s.record->Some_0.created_at,
    decreases calls.len(),
{
    if calls.len() > 0 {
        let next = apply_call(s, calls[0]);
        assert(next.record is Some && next.record->Some_0.username == s.record->Some_0.username
            && next.record->Some_0.created_at == s.record->Some_0.created_at);
        record_identity_is_permanent(next, calls.drop_first());
    }
}

/// After a successful `init`, `get_username` returns the stored username
/// whatever calls follow.
pub proof fn username_survives_any_calls(
    s: CoreState,
    username: String,
    owner: Identity,
    now: u64,
    calls: Seq<CoreCall>,
)
    requires
        s.record is None,
        username@.len() > 0,
    ensures
        apply_calls(s.init_step(username, owner, now).0, calls).username_result() == Ok::<
            String,
            GatewayError,
        >(username),
{
    record_identity_is_permanent(s.init_step(username, owner, now).0, calls);
}

/// `init` with an empty username fails with an initialisation error and
/// leaves the state unchanged, whatever that state is.
pub proof fn init_rejects_empty_username(s: CoreState, username: String, owner: Identity, now: u64)
    requires
        username@.len() == 0,
    ensures
        ({
            let (s1, r) = s.init_step(username, owner, now);
            &&& r is Err
            &&& r->Err_0.spec_kind() == ErrorKind::Initialization
            &&& s1 == s
        }),
{
}

/// A transfer attempted by anyone but the owner fails with an authorisation
/// error and leaves owner, root and notifications unchanged.
pub proof fn transfer_by_non_owner_fails(
    s: CoreState,
    owner: Seq<char>,
    caller: Seq<char>,
    new_owner: Identity,
    root: Hash32,
)
    requires
        s.is_owner(owner),
        caller != owner,
    ensures
        ({
            let (s1, r) = s.transfer_step(caller, new_owner, root);
            &&& r == Err::<(), GatewayError>(GatewayError::Unauthorized)
            &&& GatewayError::Unauthorized.spec_kind() == ErrorKind::Authorization
            &&& s1 == s
        }),
{
}

/// A transfer by the owner to the owner itself fails with `SameOwner`, a
/// conflict error, and changes nothing.
pub proof fn transfer_to_self_fails(s: CoreState, owner: Identity, root: Hash32)
    requires
        s.is_owner(owner@),
    ensures
        ({
            let (s1, r) = s.transfer_step(owner@, owner, root);
            &&& r == Err::<(), GatewayError>(GatewayError::SameOwner)
            &&& GatewayError::SameOwner.spec_kind() == ErrorKind::Conflict
            &&& s1 == s
        }),
{
}

/// After a successful transfer the new owner is recorded, the new root is
/// anchored, and exactly two notifications were added: `Transfer`, then
/// `RootUpdated`.
pub proof fn transfer_success_effects(
    s: CoreState,
    caller: Seq<char>,
    new_owner: Identity,
    root: Hash32,
)
    requires
        s.transfer_step(caller, new_owner, root).1 is Ok,
    ensures
        ({
            let s1 = s.transfer_step(caller, new_owner, root).0;
            let rec = s.record->Some_0;
            &&& s1.owner_result() == Ok::<Identity, GatewayError>(new_owner)
            &&& s1.root_result() == Ok::<Hash32, GatewayError>(root)
            &&& s1.events.len() == s.events.len() + 2
            &&& s1.events.subrange(0, s.events.len() as int) == s.events
            &&& s1.events[s.events.len() as int] == CoreEvent::Transfer {
                username: rec.username,
                old_owner: rec.owner,
                new_owner,
            }
            &&& s1.events[s.events.len() + 1int] == CoreEvent::RootUpdated { root }
        }),
{
    let s1 = s.transfer_step(caller, new_owner, root).0;
    assert(s1.events.subrange(0, s.events.len() as int) =~= s.events);
}

/// After a successful transfer the new owner may update the root, while the
/// previous owner can neither update the root nor transfer again.
pub proof fn transfer_moves_authority(
    s: CoreState,
    caller: Seq<char>,
    new_owner: Identity,
    root: Hash32,
    later_root: Hash32,
    later_owner: Identity,
)
    requires
        s.transfer_step(caller, new_owner, root).1 is Ok,
    ensures
        ({
            let s1 = s.transfer_step(caller, new_owner, root).0;
            let (s2, r2) = s1.update_root_step(new_owner@, later_root);
            &&& r2 is Ok
            &&& s2.root_result() == Ok::<Hash32, GatewayError>(later_root)
            &&& s1.update_root_step(caller, later_root) == (s1, Err::<(), GatewayError>(
                GatewayError::Unauthorized,
            ))
            &&& s1.transfer_step(caller, later_owner, later_root) == (s1, Err::<(), GatewayError>(
                GatewayError::Unauthorized,
            ))
        }),
{
}

/// The first claim of a commitment succeeds; every later claim of it, by
/// anyone including the first claimant, fails with a conflict error and
/// leaves the recorded claimant as it was.
pub proof fn second_claim_rejected(
    s: RegistryState,
    commitment: Hash32,
    first: Identity,
    second: Identity,
)
    requires
        !s.owners.contains_key(commitment@),
    ensures
        ({
            let (s1, r1) = s.register_step(first, commitment);
            let (s2, r2) = s1.register_step(second, commitment);
            &&& r1 is Ok
            &&& s1.owner_of(commitment@) == Some(first)
            &&& r2 == Err::<(), GatewayError>(GatewayError::AlreadyRegistered)
            &&& GatewayError::AlreadyRegistered.spec_kind() == ErrorKind::Conflict
            &&& s2 == s1
            &&& s2.owner_of(commitment@) == Some(first)
        }),
{
}

/// Registering a commitment in the resolver twice leaves the second entry
/// in force.
pub proof fn resolver_last_write_wins(
    m: Map<Seq<u8>, ResolveData>,
    commitment: Hash32,
    first: ResolveData,
    second: ResolveData,
)
    ensures
        resolve_result(m.insert(commitment@, first).insert(commitment@, second), commitment@)
            == Ok::<ResolveData, ResolverError>(second),
{
}

/// Resolving a commitment that was never registered fails with `NotFound`.
pub proof fn resolver_unknown_not_found(m: Map<Seq<u8>, ResolveData>, commitment: Hash32)
    requires
        !m.contains_key(commitment@),
    ensures
        resolve_result(m, commitment@) == Err::<ResolveData, ResolverError>(
            ResolverError::NotFound,
        ),
{
}

} // verus!
