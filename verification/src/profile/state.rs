use vstd::prelude::*;
use crate::account_util::{MaxSpace, MAX_PROFILE_NAME_LENGTH, MAX_URI_LENGTH};
use crate::key::Key;
use vstd::utf8::encode_utf8;

verus! {

/// The bytes reserved for a profile's account.
pub const PROFILE_SPACE: usize = 447;

/// The bytes that a profile takes when stored, besides its name's, its
/// URI's and its delegates' bytes: the eight-byte account tag, the owner, the
/// bump and the three four-byte lengths.
pub const PROFILE_FIXED_LEN: usize = 53;

/// The bytes that a profile with this name, URI and number of delegates
/// takes when stored: thirty-two for each delegate.
pub open spec fn profile_stored_len(name: Seq<char>, details_uri: Seq<char>, delegate_count: nat) -> nat {
    (PROFILE_FIXED_LEN + encode_utf8(name).len() + 32 * delegate_count + encode_utf8(details_uri).len()) as nat
}

/// Whether a profile with this name, URI and number of delegates fits in
/// `space` bytes.
pub fn profile_fits(name: &str, details_uri: &str, delegate_count: usize, space: usize) -> (b: bool)
    ensures
        b == (profile_stored_len(name@, details_uri@, delegate_count as nat) <= space),
{
    if space < PROFILE_FIXED_LEN {
        return false;
    }
    let room = space - PROFILE_FIXED_LEN;
    let name_len = name.as_bytes().len();
    if name_len > room {
        return false;
    }
    let room = room - name_len;
    let uri_len = details_uri.as_bytes().len();
    if uri_len > room {
        return false;
    }
    let room = room - uri_len;
    let fits = delegate_count <= room / 32;
    assert(fits == (32 * delegate_count <= room)) by (nonlinear_arith)
        requires
            fits == (delegate_count <= room / 32),
    ;
    fits
}

/// A user's profile: its owner, its name, the keys that may act for it and a
/// link to its details.
pub struct Profile {
    pub owner: Key,
    pub bump: u8,
    pub name: String,
    pub delegates: Vec<Key>,
    pub details_uri: String,
}

impl MaxSpace for Profile {
    /// The longest name, the owner, the bump, room for the delegates and the
    /// longest URI.
    fn max_space() -> (n: usize)
        ensures
            n == MAX_PROFILE_NAME_LENGTH + 32 + 1 + 184 + MAX_URI_LENGTH,
            n == PROFILE_SPACE,
    {
        MAX_PROFILE_NAME_LENGTH + 32 + 1 + 184 + MAX_URI_LENGTH
    }
}

impl Default for Profile {
    fn default() -> (p: Self)
        ensures
            p.owner@ == Seq::new(32, |i: int| 0u8),
            p.bump == 0,
            p.name@ == Seq::<char>::empty(),
            p.delegates@ == Seq::<Key>::empty(),
            p.details_uri@ == Seq::<char>::empty(),
    {
        Profile {
            owner: Key::zeroed(),
            bump: 0,
            name: String::new(),
            delegates: Vec::new(),
            details_uri: String::new(),
        }
    }
}

/// A certifier's statement that a recipient holds an outside account.
pub struct Claim {
    pub claim_type: ClaimType,
    pub certifier: Key,
    pub recipient: Key,
    pub username: String,
}

impl Default for Claim {
    fn default() -> (c: Self)
        ensures
            c.claim_type == ClaimType::Email,
            c.certifier@ == Seq::new(32, |i: int| 0u8),
            c.recipient@ == Seq::new(32, |i: int| 0u8),
            c.username@ == Seq::<char>::empty(),
    {
        Claim {
            claim_type: ClaimType::default(),
            certifier: Key::zeroed(),
            recipient: Key::zeroed(),
            username: String::new(),
        }
    }
}

/// An authority that certifies claims of one kind.
pub struct Certifier {
    pub authority: Key,
    pub bump: u8,
    pub claim_type: ClaimType,
    pub uri: String,
}

impl Default for Certifier {
    fn default() -> (c: Self)
        ensures
            c.authority@ == Seq::new(32, |i: int| 0u8),
            c.bump == 0,
            c.claim_type == ClaimType::Email,
            c.uri@ == Seq::<char>::empty(),
    {
        Certifier { authority: Key::zeroed(), bump: 0, claim_type: ClaimType::default(), uri: String::new() }
    }
}

/// The kinds of outside account that a claim can name.
#[derive(Clone, Copy, PartialEq, Eq, Structural, Debug)]
pub enum ClaimType {
    GitHub,
    Email,
    Linkedin,
}

impl Default for ClaimType {
    fn default() -> (t: Self)
        ensures
            t == ClaimType::Email,
    {
        ClaimType::Email
    }
}

} // verus!
