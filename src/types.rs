use vstd::prelude::*;

verus! {

/// An on-chain principal (account or contract), held as its textual address.
/// Two identities are the same principal exactly when their texts are equal.
pub type Identity = String;

/// A 32-byte value: a commitment (hash of an off-chain identifier) or a
/// Merkle root.
pub type Hash32 = [u8; 32];

/// Byte-exact comparison of two 32-byte values.
pub fn hash_eq(a: &Hash32, b: &Hash32) -> (r: bool)
    ensures
        r == (a@ == b@),
{
    let mut i: usize = 0;
    while i < 32
        invariant
            0 <= i <= 32,
            a@.len() == 32,
            b@.len() == 32,
            forall|j: int| 0 <= j < i ==> a@[j] == b@[j],
        decreases 32 - i,
    {
        if a[i] != b[i] {
            return false;
        }
        i = i + 1;
    }
    assert(a@ =~= b@);
    true
}

/// Chains whose addresses the address book can hold.
#[derive(Clone, Copy, Debug, PartialEq, Eq, Structural, PartialOrd, Ord)]
pub enum ChainId {
    Ethereum,
    Bitcoin,
    Solana,
    Polygon,
    Arbitrum,
    Optimism,
    Base,
}

impl ChainId {
    /// Lower-case name of the chain, as used in storage keys.
    pub fn to_string(&self) -> (r: &'static str)
        ensures
            match *self {
                ChainId::Ethereum => r@ == "ethereum"@,
                ChainId::Bitcoin => r@ == "bitcoin"@,
                ChainId::Solana => r@ == "solana"@,
                ChainId::Polygon => r@ == "polygon"@,
                ChainId::Arbitrum => r@ == "arbitrum"@,
                ChainId::Optimism => r@ == "optimism"@,
                ChainId::Base => r@ == "base"@,
            },
    {
        match self {
            ChainId::Ethereum => "ethereum",
            ChainId::Bitcoin => "bitcoin",
            ChainId::Solana => "solana",
            ChainId::Polygon => "polygon",
            ChainId::Arbitrum => "arbitrum",
            ChainId::Optimism => "optimism",
            ChainId::Base => "base",
        }
    }
}

} // verus!
