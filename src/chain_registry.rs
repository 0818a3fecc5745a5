use vstd::prelude::*;
use crate::types::{ChainId, Identity};

verus! {

/// An address on an external chain, with a human-readable label.
#[derive(Clone, Debug, PartialEq, Eq)]
pub struct ChainAddress {
    pub chain: ChainId,
    pub address: String,
    pub label: String,
}

impl ChainAddress {
    /// A field-for-field copy.
    pub fn duplicate(&self) -> (r: ChainAddress)
        ensures
            r == *self,
    {
        ChainAddress { chain: self.chain, address: self.address.clone(), label: self.label.clone() }
    }
}

/// Notifications recorded by the address book.
#[derive(Clone, Debug, PartialEq, Eq)]
pub enum ChainRegistryEvent {
    ChainAddressAdded { chain: ChainId, address: String, label: String },
    ChainAddressRemoved { chain: ChainId, address: String },
    OwnerChanged { new_owner: Identity },
}

/// Why an address-book operation was declined; nothing changes when one is.
#[derive(Clone, Copy, Debug, PartialEq, Eq, Structural)]
pub enum ChainRegistryError {
    OwnerNotSet,
    /// An address was to be added by someone other than the owner.
    NotOwnerToAdd,
    /// An address was to be removed by someone other than the owner.
    NotOwnerToRemove,
    /// The owner was to be changed by someone other than the current owner.
    NotCurrentOwner,
    AlreadyExists,
    NotFound,
    IndexOutOfBounds,
}

impl ChainRegistryError {
    /// A human-readable description.
    pub fn message(&self) -> (r: &'static str)
        ensures
            match *self {
                ChainRegistryError::OwnerNotSet => r@ == "Owner not set"@,
                ChainRegistryError::NotOwnerToAdd => r@ == "Only owner can add chain addresses"@,
                ChainRegistryError::NotOwnerToRemove => r@
                    == "Only owner can remove chain addresses"@,
                ChainRegistryError::NotCurrentOwner => r@ == "Only current owner can change owner"@,
                ChainRegistryError::AlreadyExists => r@ == "Address already exists for this chain"@,
                ChainRegistryError::NotFound => r@ == "Address not found"@,
                ChainRegistryError::IndexOutOfBounds => r@ == "Index out of bounds"@,
            },
    {
        match self {
            ChainRegistryError::OwnerNotSet => "Owner not set",
            ChainRegistryError::NotOwnerToAdd => "Only owner can add chain addresses",
            ChainRegistryError::NotOwnerToRemove => "Only owner can remove chain addresses",
            ChainRegistryError::NotCurrentOwner => "Only current owner can change owner",
            ChainRegistryError::AlreadyExists => "Address already exists for this chain",
            ChainRegistryError::NotFound => "Address not found",
            ChainRegistryError::IndexOutOfBounds => "Index out of bounds",
        }
    }
}

/// Number of chains the address book knows.
pub const CHAIN_COUNT: usize = 7;

impl ChainId {
    /// Position of the chain's list in the address book.
    pub open spec fn slot(self) -> int {
        match self {
            ChainId::Ethereum => 0,
            ChainId::Bitcoin => 1,
            ChainId::Solana => 2,
            ChainId::Polygon => 3,
            ChainId::Arbitrum => 4,
            ChainId::Optimism => 5,
            ChainId::Base => 6,
        }
    }

    fn slot_index(&self) -> (r: usize)
        ensures
            r == self.slot(),
            r < CHAIN_COUNT,
    {
        match self {
            ChainId::Ethereum => 0,
            ChainId::Bitcoin => 1,
            ChainId::Solana => 2,
            ChainId::Polygon => 3,
            ChainId::Arbitrum => 4,
            ChainId::Optimism => 5,
            ChainId::Base => 6,
        }
    }
}

/// Some entry of `list` holds `address`.
pub open spec fn holds_address(list: Seq<ChainAddress>, address: Seq<char>) -> bool {
    exists|i: int| 0 <= i < list.len() && #[trigger] list[i].address@ == address
}

/// Whether an entry stays when `address` is removed.
pub open spec fn keeps(address: Seq<char>) -> spec_fn(ChainAddress) -> bool {
    |a: ChainAddress| a.address@ != address
}

/// `list` without the entries that hold `address`, order kept.
pub open spec fn without_address(list: Seq<ChainAddress>, address: Seq<char>) -> Seq<
    ChainAddress,
> {
    list.filter(keeps(address))
}

/// The lists of an address book are well formed: one per chain, each no
/// longer than a `u32` counts, with every entry filed under its own chain and
/// no address twice in a list.
pub open spec fn book_wf(lists: Seq<Seq<ChainAddress>>) -> bool {
    &&& lists.len() == CHAIN_COUNT
    &&& forall|k: int| 0 <= k < CHAIN_COUNT ==> #[trigger] lists[k].len() <= u32::MAX
    &&& forall|k: int, i: int|
        0 <= k < CHAIN_COUNT && 0 <= i < lists[k].len() ==> (#[trigger] lists[k][i]).chain.slot()
            == k
    &&& forall|k: int, i: int, j: int|
        0 <= k < CHAIN_COUNT && 0 <= i < j < lists[k].len() ==> (#[trigger] lists[k][i]).address@
            != (#[trigger] lists[k][j]).address@
}

/// Abstract state of a [`ChainRegistry`]: the owner, one list per chain (in
/// order of addition) and the notification log.
pub struct BookState {
    pub owner: Option<Identity>,
    pub lists: Seq<Seq<ChainAddress>>,
    pub events: Seq<ChainRegistryEvent>,
}

impl BookState {
    /// The addresses recorded for `chain`, oldest first.
    pub open spec fn addresses(self, chain: ChainId) -> Seq<ChainAddress> {
        self.lists[chain.slot()]
    }

    /// Outcome of the owner check for `caller`, refusing with `refusal`
    /// when the caller is not the owner.
    pub open spec fn guard(self, caller: Seq<char>, refusal: ChainRegistryError) -> Result<
        (),
        ChainRegistryError,
    > {
        match self.owner {
            None => Err(ChainRegistryError::OwnerNotSet),
            Some(o) => if o@ == caller {
                Ok(())
            } else {
                Err(refusal)
            },
        }
    }

    /// The state with `list` as the list of `chain`.
    pub open spec fn with_list(self, chain: ChainId, list: Seq<ChainAddress>) -> BookState {
        BookState { owner: self.owner, lists: self.lists.update(chain.slot(), list), events: self.events }
    }

    /// Outcome of `add_chain_address` called by `caller`.
    pub open spec fn add_step(
        self,
        caller: Seq<char>,
        chain: ChainId,
        address: String,
        label: String,
    ) -> (BookState, Result<(), ChainRegistryError>) {
        match self.guard(caller, ChainRegistryError::NotOwnerToAdd) {
            Err(e) => (self, Err(e)),
            Ok(()) => if holds_address(self.addresses(chain), address@) {
                (self, Err(ChainRegistryError::AlreadyExists))
            } else {
                let next = self.with_list(
                    chain,
                    self.addresses(chain).push(ChainAddress { chain, address, label }),
                );
                (
                    BookState {
                        owner: next.owner,
                        lists: next.lists,
                        events: next.events.push(
                            ChainRegistryEvent::ChainAddressAdded { chain, address, label },
                        ),
                    },
                    Ok(()),
                )
            },
        }
    }

    /// Outcome of `remove_chain_address` called by `caller`.
    pub open spec fn remove_step(self, caller: Seq<char>, chain: ChainId, address: String) -> (
        BookState,
        Result<(), ChainRegistryError>,
    ) {
        match self.guard(caller, ChainRegistryError::NotOwnerToRemove) {
            Err(e) => (self, Err(e)),
            Ok(()) => if !holds_address(self.addresses(chain), address@) {
                (self, Err(ChainRegistryError::NotFound))
            } else {
                let next = self.with_list(chain, without_address(self.addresses(chain), address@));
                (
                    BookState {
                        owner: next.owner,
                        lists: next.lists,
                        events: next.events.push(
                            ChainRegistryEvent::ChainAddressRemoved { chain, address },
                        ),
                    },
                    Ok(()),
                )
            },
        }
    }

    /// Outcome of `change_owner` called by `caller`.
    pub open spec fn change_owner_step(self, caller: Seq<char>, new_owner: Identity) -> (
        BookState,
        Result<(), ChainRegistryError>,
    ) {
        match self.guard(caller, ChainRegistryError::NotCurrentOwner) {
            Err(e) => (self, Err(e)),
            Ok(()) => (
                BookState {
                    owner: Some(new_owner),
                    lists: self.lists,
                    events: self.events.push(ChainRegistryEvent::OwnerChanged { new_owner }),
                },
                Ok(()),
            ),
        }
    }
}

/// The owner-gated multi-chain address book: per chain, a list of labelled
/// addresses in which no address occurs twice.
pub struct ChainRegistry {
    owner: Option<Identity>,
    lists: Vec<Vec<ChainAddress>>,
    events: Vec<ChainRegistryEvent>,
}

impl View for ChainRegistry {
    type V = BookState;

    closed spec fn view(&self) -> BookState {
        BookState {
            owner: self.owner,
            lists: self.lists@.map_values(|l: Vec<ChainAddress>| l@),
            events: self.events@,
        }
    }
}

impl ChainRegistry {
    /// One list per chain, each no longer than a `u32` counts, with every
    /// entry filed under its own chain and no address twice in a list.
    pub open spec fn wf(&self) -> bool {
        book_wf(self@.lists)
    }

    /// An address book with no owner and no addresses.
    pub fn new() -> (r: ChainRegistry)
        ensures
            r.wf(),
            r@.owner is None,
            r@.lists.len() == CHAIN_COUNT,
            forall|k: int| 0 <= k < CHAIN_COUNT ==> #[trigger] r@.lists[k].len() == 0,
            forall|c: ChainId| #[trigger] r@.addresses(c).len() == 0,
            r@.events.len() == 0,
    {
        let mut lists: Vec<Vec<ChainAddress>> = Vec::new();
        let mut i: usize = 0;
        while i < CHAIN_COUNT
            invariant
                i <= CHAIN_COUNT,
                lists@.len() == i,
                forall|j: int| 0 <= j < i ==> (#[trigger] lists@[j])@.len() == 0,
            decreases CHAIN_COUNT - i,
        {
            lists.push(Vec::new());
            i = i + 1;
        }
        let r = ChainRegistry { owner: None, lists, events: Vec::new() };
        assert forall|c: ChainId| #[trigger] r@.addresses(c).len() == 0 by {
            assert(r.lists@[c.slot()]@.len() == 0);
        }
        assert forall|k: int| 0 <= k < CHAIN_COUNT implies #[trigger] r@.lists[k].len() == 0 by {
            assert(r.lists@[k]@.len() == 0);
        }
        r
    }

    /// Sets the owner, replacing any earlier one.
    pub fn initialize(&mut self, owner: Identity)
        requires
            old(self).wf(),
        ensures
            final(self).wf(),
            final(self)@.owner == Some(owner),
            final(self)@.lists == old(self)@.lists,
            final(self)@.events == old(self)@.events,
    {
        self.owner = Some(owner);
    }

    /// The owner check: succeeds exactly when `caller` is the owner, and
    /// otherwise refuses with `refusal` (or `OwnerNotSet` without an owner).
    fn authorize(&self, caller: &Identity, refusal: ChainRegistryError) -> (r: Result<
        (),
        ChainRegistryError,
    >)
        ensures
            r == self@.guard(caller@, refusal),
    {
        match &self.owner {
            None => Err(ChainRegistryError::OwnerNotSet),
            Some(o) => if *o == *caller {
                Ok(())
            } else {
                Err(refusal)
            },
        }
    }

    /// Position in `list` of the entry holding `address`.
    fn position(list: &Vec<ChainAddress>, address: &String) -> (r: Option<usize>)
        ensures
            match r {
                Some(i) => i < list@.len() && list@[i as int].address@ == address@,
                None => !holds_address(list@, address@),
            },
    {
        let mut i: usize = 0;
        while i < list.len()
            invariant
                i <= list@.len(),
                forall|j: int| 0 <= j < i ==> (#[trigger] list@[j]).address@ != address@,
            decreases list@.len() - i,
        {
            if list[i].address == *address {
                return Some(i);
            }
            i = i + 1;
        }
        None
    }

    /// Adds `address` with `label` to the list of `chain`. Only the owner
    /// may; an address already in that list is rejected.
    pub fn add_chain_address(
        &mut self,
        caller: &Identity,
        chain: ChainId,
        address: String,
        label: String,
    ) -> (r: Result<(), ChainRegistryError>)
        requires
            old(self).wf(),
            old(self)@.addresses(chain).len() < u32::MAX,
        ensures
            final(self).wf(),
            (final(self)@, r) == old(self)@.add_step(caller@, chain, address, label),
    {
        match self.authorize(caller, ChainRegistryError::NotOwnerToAdd) {
            Err(e) => {
                return Err(e);
            },
            Ok(()) => {},
        }
        let k = chain.slot_index();
        if Self::position(&self.lists[k], &address).is_some() {
            return Err(ChainRegistryError::AlreadyExists);
        }
        let ghost old_view = self@;
        let entry = ChainAddress { chain, address: address.clone(), label: label.clone() };
        let mut list = self.lists.remove(k);
        list.push(entry);
        self.lists.insert(k, list);
        self.events.push(ChainRegistryEvent::ChainAddressAdded { chain, address, label });
        let ghost e = ChainAddress { chain, address, label };
        let ghost s = chain.slot();
        assert(self@.lists =~= old_view.lists.update(s, old_view.addresses(chain).push(e)));
        let ghost lists = self@.lists;
        assert forall|k: int, i: int, j: int|
            0 <= k < CHAIN_COUNT && 0 <= i < j < lists[k].len() implies (
            #[trigger] lists[k][i]).address@ != (#[trigger] lists[k][j]).address@ by {
            if k == s && j == lists[k].len() - 1 {
                assert(old_view.lists[k][i] == lists[k][i]);
                assert(!holds_address(old_view.lists[k], address@));
            }
        }
        Ok(())
    }

    /// All addresses of `chain`, oldest first.
    pub fn get_chain_addresses(&self, chain: ChainId) -> (r: Vec<ChainAddress>)
        requires
            self.wf(),
        ensures
            r@ == self@.addresses(chain),
    {
        let k = chain.slot_index();
        let list = &self.lists[k];
        let mut out: Vec<ChainAddress> = Vec::new();
        let mut i: usize = 0;
        while i < list.len()
            invariant
                i <= list@.len(),
                out@ == list@.subrange(0, i as int),
            decreases list@.len() - i,
        {
            out.push(list[i].duplicate());
            i = i + 1;
            assert(out@ =~= list@.subrange(0, i as int));
        }
        assert(list@.subrange(0, list@.len() as int) =~= list@);
        out
    }

    /// The address of `chain` at position `index`.
    pub fn get_chain_address_at(&self, chain: ChainId, index: u32) -> (r: Result<
        ChainAddress,
        ChainRegistryError,
    >)
        requires
            self.wf(),
        ensures
            index < self@.addresses(chain).len() ==> r == Ok::<ChainAddress, ChainRegistryError>(
                self@.addresses(chain)[index as int],
            ),
            index >= self@.addresses(chain).len() ==> r == Err::<ChainAddress, ChainRegistryError>(
                ChainRegistryError::IndexOutOfBounds,
            ),
    {
        let list = &self.lists[chain.slot_index()];
        if index as usize >= list.len() {
            return Err(ChainRegistryError::IndexOutOfBounds);
        }
        Ok(list[index as usize].duplicate())
    }

    /// Number of addresses of `chain`.
    pub fn get_chain_address_count(&self, chain: ChainId) -> (r: u32)
        requires
            self.wf(),
        ensures
            r == self@.addresses(chain).len(),
    {
        let n = self.lists[chain.slot_index()].len();
        assert(self@.lists[chain.slot()].len() == n);
        n as u32
    }

    /// Whether `address` is recorded for `chain`.
    pub fn has_chain_address(&self, chain: ChainId, address: &String) -> (r: bool)
        requires
            self.wf(),
        ensures
            r == holds_address(self@.addresses(chain), address@),
    {
        Self::position(&self.lists[chain.slot_index()], address).is_some()
    }

    /// Removes `address` from the list of `chain`. Only the owner may; an
    /// address not in that list is reported as `NotFound`.
    pub fn remove_chain_address(&mut self, caller: &Identity, chain: ChainId, address: String) -> (r:
        Result<(), ChainRegistryError>)
        requires
            old(self).wf(),
        ensures
            final(self).wf(),
            (final(self)@, r) == old(self)@.remove_step(caller@, chain, address),
    {
        match self.authorize(caller, ChainRegistryError::NotOwnerToRemove) {
            Err(e) => {
                return Err(e);
            },
            Ok(()) => {},
        }
        let k = chain.slot_index();
        let ghost old_view = self@;
        let ghost pred = keeps(address@);
        let list = &self.lists[k];
        let ghost s = chain.slot();
        let mut kept: Vec<ChainAddress> = Vec::new();
        let mut found = false;
        let mut i: usize = 0;
        while i < list.len()
            invariant
                book_wf(old_view.lists),
                pred == keeps(address@),
                0 <= s < CHAIN_COUNT,
                list@ == old_view.lists[s],
                i <= list@.len(),
                kept@ == list@.subrange(0, i as int).filter(pred),
                found == holds_address(list@.subrange(0, i as int), address@),
                forall|a: int|
                    0 <= a < kept@.len() ==> exists|j: int|
                        0 <= j < i && #[trigger] list@[j] == #[trigger] kept@[a],
                forall|a: int, b: int|
                    0 <= a < b < kept@.len() ==> (#[trigger] kept@[a]).address@ != (
                    #[trigger] kept@[b]).address@,
            decreases list@.len() - i,
        {
            let ghost prefix = list@.subrange(0, i as int);
            let ghost next = list@.subrange(0, i + 1);
            assert(next.drop_last() =~= prefix);
            assert(next.last() == list@[i as int]);
            proof {
                reveal(Seq::filter);
            }
            assert(next.filter(pred) == if pred(list@[i as int]) {
                prefix.filter(pred).push(list@[i as int])
            } else {
                prefix.filter(pred)
            });
            let ghost old_kept = kept@;
            if !(list[i].address == address) {
                kept.push(list[i].duplicate());
                assert(pred(list@[i as int]));
                assert(kept@ =~= next.filter(pred));
                assert forall|a: int, b: int|
                    0 <= a < b < kept@.len() implies (#[trigger] kept@[a]).address@ != (
                    #[trigger] kept@[b]).address@ by {
                    if b == kept@.len() - 1 {
                        let j = choose|j: int| 0 <= j < i && #[trigger] list@[j] == old_kept[a];
                        assert(list@[j].address@ != list@[i as int].address@);
                    } else {
                        assert(old_kept[a] == kept@[a] && old_kept[b] == kept@[b]);
                    }
                }
                assert forall|a: int| 0 <= a < kept@.len() implies exists|j: int|
                    0 <= j < i + 1 && #[trigger] list@[j] == #[trigger] kept@[a] by {
                    if a == kept@.len() - 1 {
                        assert(list@[i as int] == kept@[a]);
                    } else {
                        assert(old_kept[a] == kept@[a]);
                        let j = choose|j: int| 0 <= j < i && #[trigger] list@[j] == old_kept[a];
                        assert(list@[j] == kept@[a]);
                    }
                }
            } else {
                found = true;
                assert(!pred(list@[i as int]));
                assert(kept@ =~= next.filter(pred));
            }
            assert(holds_address(next, address@) == (holds_address(prefix, address@)
                || list@[i as int].address@ == address@)) by {
                if list@[i as int].address@ == address@ {
                    assert(next[i as int].address@ == address@);
                }
                if holds_address(prefix, address@) {
                    let j = choose|j: int| 0 <= j < prefix.len() && #[trigger] prefix[j].address@
                        == address@;
                    assert(next[j].address@ == address@);
                }
                if holds_address(next, address@) {
                    let j = choose|j: int| 0 <= j < next.len() && #[trigger] next[j].address@
                        == address@;
                    if j < i {
                        assert(prefix[j].address@ == address@);
                    }
                }
            }
            i = i + 1;
        }
        assert(list@.subrange(0, list@.len() as int) =~= list@);
        if !found {
            return Err(ChainRegistryError::NotFound);
        }
        assert(kept@ == without_address(old_view.addresses(chain), address@));
        self.lists.set(k, kept);
        self.events.push(ChainRegistryEvent::ChainAddressRemoved { chain, address });
        assert(self@.lists =~= old_view.lists.update(s, kept@));
        let ghost lists = self@.lists;
        assert forall|k2: int, a: int|
            0 <= k2 < CHAIN_COUNT && 0 <= a < lists[k2].len() implies (
            #[trigger] lists[k2][a]).chain.slot() == k2 by {
            if k2 == s {
                let j = choose|j: int| 0 <= j < list@.len() && #[trigger] list@[j] == #[trigger] kept@[a];
                assert(old_view.lists[s][j].chain.slot() == s);
            }
        }
        assert forall|k2: int| 0 <= k2 < CHAIN_COUNT implies #[trigger] lists[k2].len() <= u32::MAX by {
            if k2 == s {
                assert(kept@.len() <= list@.len()) by {
                    list@.lemma_filter_len(pred);
                }
            }
        }
        Ok(())
    }

    /// The owner.
    pub fn get_owner(&self) -> (r: Result<Identity, ChainRegistryError>)
        ensures
            match self@.owner {
                Some(o) => r == Ok::<Identity, ChainRegistryError>(o),
                None => r == Err::<Identity, ChainRegistryError>(ChainRegistryError::OwnerNotSet),
            },
    {
        match &self.owner {
            Some(o) => Ok(o.clone()),
            None => Err(ChainRegistryError::OwnerNotSet),
        }
    }

    /// Hands the address book to `new_owner`. Only the owner may.
    pub fn change_owner(&mut self, caller: &Identity, new_owner: Identity) -> (r: Result<
        (),
        ChainRegistryError,
    >)
        requires
            old(self).wf(),
        ensures
            final(self).wf(),
            (final(self)@, r) == old(self)@.change_owner_step(caller@, new_owner),
    {
        match self.authorize(caller, ChainRegistryError::NotCurrentOwner) {
            Err(e) => {
                return Err(e);
            },
            Ok(()) => {},
        }
        let event = ChainRegistryEvent::OwnerChanged { new_owner: new_owner.clone() };
        self.owner = Some(new_owner);
        self.events.push(event);
        Ok(())
    }

    /// The notifications recorded so far, oldest first.
    pub fn events(&self) -> (r: &[ChainRegistryEvent])
        ensures
            r@ == self@.events,
    {
        self.events.as_slice()
    }
}

} // verus!
