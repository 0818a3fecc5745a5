use vstd::prelude::*;
use crate::errors::ResolverError;
use crate::store::CommitmentMap;
use crate::types::{Hash32, Identity};

verus! {

/// Where a commitment routes payments: a wallet and an optional memo.
#[derive(Clone, Debug, PartialEq, Eq)]
pub struct ResolveData {
    pub wallet: Identity,
    pub memo: Option<u64>,
}

impl ResolveData {
    /// A field-for-field copy.
    pub fn duplicate(&self) -> (r: ResolveData)
        ensures
            r == *self,
    {
        ResolveData { wallet: self.wallet.clone(), memo: self.memo }
    }
}

/// What resolving the commitment with bytes `key` against the entries `m`
/// returns.
pub open spec fn resolve_result(m: Map<Seq<u8>, ResolveData>, key: Seq<u8>) -> Result<
    ResolveData,
    ResolverError,
> {
    if m.contains_key(key) {
        Ok(m[key])
    } else {
        Err(ResolverError::NotFound)
    }
}

/// The resolver index: a mutable routing hint per commitment. Registering a
/// commitment again replaces its entry (last write wins), and anyone may
/// register any commitment: no authorisation is asked.
pub struct ResolverIndex {
    entries: CommitmentMap<ResolveData>,
}

impl View for ResolverIndex {
    type V = Map<Seq<u8>, ResolveData>;

    closed spec fn view(&self) -> Map<Seq<u8>, ResolveData> {
        self.entries@
    }
}

impl ResolverIndex {
    pub closed spec fn wf(&self) -> bool {
        self.entries.wf()
    }

    /// An index with no entries.
    pub fn new() -> (r: ResolverIndex)
        ensures
            r.wf(),
            r@ == Map::<Seq<u8>, ResolveData>::empty(),
    {
        ResolverIndex { entries: CommitmentMap::new() }
    }

    /// Routes `commitment` to `wallet` with `memo`, replacing any earlier entry.
    pub fn register(&mut self, commitment: Hash32, wallet: Identity, memo: Option<u64>)
        requires
            old(self).wf(),
        ensures
            final(self).wf(),
            final(self)@ == old(self)@.insert(commitment@, ResolveData { wallet, memo }),
    {
        self.entries.insert(commitment, ResolveData { wallet, memo });
    }

    /// The entry of `commitment`.
    pub fn resolve(&self, commitment: &Hash32) -> (r: Result<ResolveData, ResolverError>)
        requires
            self.wf(),
        ensures
            r == resolve_result(self@, commitment@),
    {
        match self.entries.get(commitment) {
            Some(data) => Ok(data.duplicate()),
            None => Err(ResolverError::NotFound),
        }
    }
}

} // verus!
