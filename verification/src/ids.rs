//! Identities of actors and tokens, and the key discipline of the tables.

use vstd::prelude::*;

verus! {

/// A type whose values stand in a line: each has a rank, no two share one,
/// and executable code can tell which of two comes first.
pub trait Key: Sized + Copy {
    /// The place of a key in the order of its type.
    spec fn rank(self) -> int;

    /// Keys of one rank are one key.
    proof fn lemma_rank_tells(a: Self, b: Self)
        ensures
            a.rank() == b.rank() ==> a == b,
    ;

    /// Whether two keys are the same value.
    fn same(&self, other: &Self) -> (r: bool)
        ensures
            r == (*self == *other),
    ;

    /// Whether this key comes before `other`.
    fn before(&self, other: &Self) -> (r: bool)
        ensures
            r == (self.rank() < other.rank()),
    ;
}

/// The number that two 128-bit halves write, the first being the upper.
pub open spec fn wide(hi: u128, lo: u128) -> int {
    hi * 0x1_0000_0000_0000_0000_0000_0000_0000_0000 + lo
}

/// The 256-bit identity of a user or a program, as two 128-bit halves.
#[derive(Clone, Copy, PartialEq, Eq, Structural, Debug, Hash)]
pub struct ActorId {
    pub hi: u128,
    pub lo: u128,
}

/// The 256-bit identifier of a token, as two 128-bit halves.
#[derive(Clone, Copy, PartialEq, Eq, Structural, Debug, Hash)]
pub struct TokenId {
    pub hi: u128,
    pub lo: u128,
}

pub type NftContractId = ActorId;

pub type UserId = ActorId;

pub type MatchId = ActorId;

pub type TransactionId = u64;

pub type GameId = usize;

pub type InGame = bool;

pub type NFTPrice = u128;

impl ActorId {
    /// The identity whose numeric value is `n`.
    pub fn new(n: u64) -> (r: Self)
        ensures
            r == (ActorId { hi: 0, lo: n as u128 }),
    {
        ActorId { hi: 0, lo: n as u128 }
    }

    /// The all-zero identity.
    pub fn zero() -> (r: Self)
        ensures
            r == (ActorId { hi: 0, lo: 0 }),
    {
        ActorId { hi: 0, lo: 0 }
    }
}

impl TokenId {
    /// The token identifier whose numeric value is `n`.
    pub fn new(n: u64) -> (r: Self)
        ensures
            r == (TokenId { hi: 0, lo: n as u128 }),
    {
        TokenId { hi: 0, lo: n as u128 }
    }

    /// The all-zero token identifier.
    pub fn zero() -> (r: Self)
        ensures
            r == (TokenId { hi: 0, lo: 0 }),
    {
        TokenId { hi: 0, lo: 0 }
    }
}

impl Key for ActorId {
    open spec fn rank(self) -> int {
        wide(self.hi, self.lo)
    }

    proof fn lemma_rank_tells(a: Self, b: Self) {
    }

    fn same(&self, other: &Self) -> (r: bool) {
        self.hi == other.hi && self.lo == other.lo
    }

    fn before(&self, other: &Self) -> (r: bool) {
        self.hi < other.hi || (self.hi == other.hi && self.lo < other.lo)
    }
}

impl Key for TokenId {
    open spec fn rank(self) -> int {
        wide(self.hi, self.lo)
    }

    proof fn lemma_rank_tells(a: Self, b: Self) {
    }

    fn same(&self, other: &Self) -> (r: bool) {
        self.hi == other.hi && self.lo == other.lo
    }

    fn before(&self, other: &Self) -> (r: bool) {
        self.hi < other.hi || (self.hi == other.hi && self.lo < other.lo)
    }
}

impl Key for u8 {
    open spec fn rank(self) -> int {
        self as int
    }

    proof fn lemma_rank_tells(a: Self, b: Self) {
    }

    fn same(&self, other: &Self) -> (r: bool) {
        *self == *other
    }

    fn before(&self, other: &Self) -> (r: bool) {
        *self < *other
    }
}

} // verus!
