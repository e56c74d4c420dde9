use vstd::prelude::*;
use crate::account_util::{MaxSpace, MAX_PROFILE_NAME_LENGTH, MAX_URI_LENGTH};
use crate::key::Key;
use vstd::utf8::encode_utf8;

verus! {

/// The bytes reserved for a profile's account.
pub const PROFILE_SPACE: usize = 271;

/// The bytes that a profile takes when stored, besides its name's and its
/// URI's bytes: the eight-byte account tag, the owner, the bump, the counter
/// and the two four-byte lengths.
pub const PROFILE_FIXED_LEN: usize = 57;

/// The bytes that a profile with this name and URI takes when stored.
pub open spec fn profile_stored_len(name: Seq<char>, details_uri: Seq<char>) -> nat {
    (PROFILE_FIXED_LEN + encode_utf8(name).len() + encode_utf8(details_uri).len()) as nat
}

/// A user's profile: its owner, its name and a link to its details.
pub struct Profile {
    pub owner: Key,
    pub bump: u8,
    pub achievements_created: u64,
    pub name: String,
    pub details_uri: String,
}

impl MaxSpace for Profile {
    /// The owner, the bump, the counter, the longest name and the longest URI.
    fn max_space() -> (n: usize)
        ensures
            n == 32 + 1 + 8 + MAX_PROFILE_NAME_LENGTH + MAX_URI_LENGTH,
            n == PROFILE_SPACE,
    {
        32 + 1 + 8 + MAX_PROFILE_NAME_LENGTH + MAX_URI_LENGTH
    }
}

impl Default for Profile {
    fn default() -> (p: Self)
        ensures
            p.owner@ == Seq::new(32, |i: int| 0u8),
            p.bump == 0,
            p.achievements_created == 0,
            p.name@ == Seq::<char>::empty(),
            p.details_uri@ == Seq::<char>::empty(),
    {
        Profile {
            owner: Key::zeroed(),
            bump: 0,
            achievements_created: 0,
            name: String::new(),
            details_uri: String::new(),
        }
    }
}

/// A claim that a profile makes about an outside account.
pub struct Claim {
    pub claim_type: ClaimType,
    pub profile: Key,
    pub uri: String,
}

impl Default for Claim {
    fn default() -> (c: Self)
        ensures
            c.claim_type == ClaimType::GitHub,
            c.profile@ == Seq::new(32, |i: int| 0u8),
            c.uri@ == Seq::<char>::empty(),
    {
        Claim { claim_type: ClaimType::default(), profile: Key::zeroed(), uri: String::new() }
    }
}

/// The kinds of outside account that a claim can name.
#[derive(Clone, Copy, PartialEq, Eq, Structural, Debug)]
pub enum ClaimType {
    GitHub,
    Email,
    Linkedin,
}

impl Default for ClaimType {
    fn default() -> (t: Self)
        ensures
            t == ClaimType::GitHub,
    {
        ClaimType::GitHub
    }
}

} // verus!
