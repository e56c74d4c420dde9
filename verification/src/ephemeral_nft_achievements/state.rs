use vstd::prelude::*;
use crate::key::Key;

pub use crate::account_util::MaxSpace;
pub use crate::nft_achievement::state::{tier_value, Tier};

verus! {

/// The bytes reserved for an achievement's account.
pub const ACHIEVEMENT_SPACE: usize = 311;

/// The longest URI, in characters.
pub const MAX_URI_LENGTH: usize = 200;

/// An achievement that a granter gives to a recipient, valid until it
/// expires.
pub struct Achievement {
    pub granter: Key,
    pub recipient: Key,
    pub current_owner: Key,
    pub mint: Key,
    pub tier: Tier,
    pub bump: u8,
    pub created_at: i64,
    pub expires_at: i64,
    pub transferable: bool,
    pub transfer_count: u8,
    pub max_transfer_count: u8,
    pub uri: String,
}

impl MaxSpace for Achievement {
    /// Three keys, the tier, the bump, one time, two transfer fields and the
    /// longest URI.
    fn max_space() -> (n: usize)
        ensures
            n == 32 + 32 + 32 + 4 + 1 + 8 + 1 + 1 + MAX_URI_LENGTH,
            n == ACHIEVEMENT_SPACE,
    {
        32 + 32 + 32 + 4 + 1 + 8 + 1 + 1 + MAX_URI_LENGTH
    }
}

impl Default for Achievement {
    fn default() -> (a: Self)
        ensures
            a.granter@ == Seq::new(32, |i: int| 0u8),
            a.recipient@ == Seq::new(32, |i: int| 0u8),
            a.current_owner@ == Seq::new(32, |i: int| 0u8),
            a.mint@ == Seq::new(32, |i: int| 0u8),
            a.tier == Tier::Trivial,
            a.bump == 0,
            a.created_at == 0,
            a.expires_at == 0,
            !a.transferable,
            a.transfer_count == 0,
            a.max_transfer_count == 0,
            a.uri@ == Seq::<char>::empty(),
    {
        Achievement {
            granter: Key::zeroed(),
            recipient: Key::zeroed(),
            current_owner: Key::zeroed(),
            mint: Key::zeroed(),
            tier: Tier::default(),
            bump: 0,
            created_at: 0,
            expires_at: 0,
            transferable: false,
            transfer_count: 0,
            max_transfer_count: 0,
            uri: String::new(),
        }
    }
}

} // verus!
