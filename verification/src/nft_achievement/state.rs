use vstd::prelude::*;
use crate::account_util::MAX_URI_LENGTH;
use crate::key::Key;
use vstd::utf8::encode_utf8;

pub use crate::account_util::MaxSpace;

verus! {

/// The bytes reserved for an achievement's account.
pub const ACHIEVEMENT_SPACE: usize = 352;

/// The bytes that an achievement takes when stored, besides its URI's
/// bytes: the eight-byte account tag, four keys, the tier, the bump, two
/// times, three transfer fields and the URI's four-byte length.
pub const ACHIEVEMENT_FIXED_LEN: usize = 161;

/// The bytes that an achievement with this URI takes when stored.
pub open spec fn achievement_stored_len(uri: Seq<char>) -> nat {
    (ACHIEVEMENT_FIXED_LEN + encode_utf8(uri).len()) as nat
}

/// Whether an achievement with this URI fits in `space` bytes.
pub fn achievement_fits(uri: &String, space: usize) -> (b: bool)
    ensures
        b == (achievement_stored_len(uri@) <= space),
{
    let n = uri.as_str().as_bytes().len();
    space >= ACHIEVEMENT_FIXED_LEN && n <= space - ACHIEVEMENT_FIXED_LEN
}

/// An achievement that an issuer grants as a one-of-a-kind token.
pub struct Achievement {
    pub issuer: Key,
    pub recipient: Key,
    pub owner: Key,
    pub mint: Key,
    pub tier: Tier,
    pub bump: u8,
    pub created_at: i64,
    pub expires_at: i64,
    pub transferable: bool,
    pub transfer_count: u8,
    pub max_transfer_count: u8,
    pub uri: String,
}

impl MaxSpace for Achievement {
    /// Four keys, the tier, the bump, the two times, the three transfer
    /// fields and the longest URI.
    fn max_space() -> (n: usize)
        ensures
            n == 32 * 4 + 4 + 1 + 8 + 8 + 3 + MAX_URI_LENGTH,
            n == ACHIEVEMENT_SPACE,
    {
        (32 * 4) + 4 + 1 + 8 + 8 + 3 + MAX_URI_LENGTH
    }
}

impl Default for Achievement {
    fn default() -> (a: Self)
        ensures
            a.issuer@ == Seq::new(32, |i: int| 0u8),
            a.recipient@ == Seq::new(32, |i: int| 0u8),
            a.owner@ == Seq::new(32, |i: int| 0u8),
            a.mint@ == Seq::new(32, |i: int| 0u8),
            a.tier == Tier::Trivial,
            a.bump == 0,
            a.created_at == 0,
            a.expires_at == 0,
            !a.transferable,
            a.transfer_count == 0,
            a.max_transfer_count == 0,
            a.uri@ == Seq::<char>::empty(),
    {
        Achievement {
            issuer: Key::zeroed(),
            recipient: Key::zeroed(),
            owner: Key::zeroed(),
            mint: Key::zeroed(),
            tier: Tier::default(),
            bump: 0,
            created_at: 0,
            expires_at: 0,
            transferable: false,
            transfer_count: 0,
            max_transfer_count: 0,
            uri: String::new(),
        }
    }
}

/// How much an achievement weighs.
#[derive(Clone, Copy, PartialEq, Eq, Structural, Debug)]
pub enum Tier {
    Trivial,
    Minor,
    Major,
    Critical,
    Innovative,
}

/// The weight of each tier.
pub open spec fn tier_value(tier: Tier) -> u8 {
    match tier {
        Tier::Trivial => 1,
        Tier::Minor => 2,
        Tier::Major => 3,
        Tier::Critical => 5,
        Tier::Innovative => 8,
    }
}

impl Tier {
    /// The tier's weight: 1, 2, 3, 5 or 8.
    pub fn value(&self) -> (v: u8)
        ensures
            v == tier_value(*self),
    {
        match self {
            Tier::Trivial => 1,
            Tier::Minor => 2,
            Tier::Major => 3,
            Tier::Critical => 5,
            Tier::Innovative => 8,
        }
    }
}

impl Default for Tier {
    fn default() -> (t: Self)
        ensures
            t == Tier::Trivial,
    {
        Tier::Trivial
    }
}

} // verus!
