//! Account rules and instruction planning for a set of on-chain programs that
//! issue achievements (as plain records or as one-of-a-kind tokens) and keep
//! user profiles.

pub mod key;
pub mod system;
pub mod token;
pub mod account_util;
pub mod seeds;
pub mod nft_achievement;
pub mod ephemeral_nft_achievements;
pub mod identity;
pub mod profile;
