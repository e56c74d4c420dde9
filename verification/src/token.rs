use vstd::prelude::*;
use crate::key::Key;

verus! {

/// The token program's address, `TokenkegQfeZyiNwAJbNbGKPFXCWuBvf9Ss623VQ5DA`,
/// as bytes.
pub open spec fn token_program_address() -> Seq<u8> {
    seq![
        6u8, 221u8, 246u8, 225u8, 215u8, 101u8, 161u8, 147u8, 217u8, 203u8, 225u8, 70u8, 206u8,
        235u8, 121u8, 172u8, 28u8, 180u8, 133u8, 237u8, 95u8, 91u8, 55u8, 145u8, 58u8, 140u8,
        245u8, 133u8, 126u8, 255u8, 0u8, 169u8,
    ]
}

/// The size of a mint account's data.
pub const MINT_ACCOUNT_LEN: usize = 82;

/// The size of a token account's data.
pub const TOKEN_ACCOUNT_LEN: usize = 165;

/// `anchor_spl::token::ID`, the token program's address.
/// Claimed: the bytes that its `declare_id!` string decodes to.
#[verifier::external_body]
pub(crate) fn token_program_id() -> (k: Key)
    ensures
        k@ == token_program_address(),
{
    Key { bytes: anchor_spl::token::ID.to_bytes() }
}

/// `anchor_spl::token::Mint::LEN`.
/// Claimed: 82, the `Pack::LEN` of `spl_token::state::Mint` in its source.
#[verifier::external_body]
pub(crate) fn mint_len() -> (n: usize)
    ensures
        n == MINT_ACCOUNT_LEN,
{
    anchor_spl::token::Mint::LEN
}

/// `anchor_spl::token::TokenAccount::LEN`.
/// Claimed: 165, the `Pack::LEN` of `spl_token::state::Account` in its source.
#[verifier::external_body]
pub(crate) fn token_account_len() -> (n: usize)
    ensures
        n == TOKEN_ACCOUNT_LEN,
{
    anchor_spl::token::TokenAccount::LEN
}

/// A call into another program: the program, the accounts in their roles,
/// and whether the call is signed with the calling program's seeds.
pub struct CpiContext<T> {
    pub program: Key,
    pub accounts: T,
    pub signed: bool,
}

/// Accounts of the token program's `InitializeMint`.
#[derive(Clone, Copy)]
pub struct InitializeMint {
    pub mint: Key,
    pub rent: Key,
}

/// Accounts of the token program's `InitializeAccount`.
#[derive(Clone, Copy)]
pub struct InitializeAccount {
    pub account: Key,
    pub mint: Key,
    pub authority: Key,
    pub rent: Key,
}

/// Accounts of the token program's `MintTo`.
#[derive(Clone, Copy)]
pub struct MintTo {
    pub mint: Key,
    pub to: Key,
    pub authority: Key,
}

/// Accounts of the token program's `SetAuthority`.
#[derive(Clone, Copy)]
pub struct SetAuthority {
    pub current_authority: Key,
    pub account_or_mint: Key,
}

/// The kinds of authority that the token program knows.
#[derive(Clone, Copy, PartialEq, Eq, Structural, Debug)]
pub enum AuthorityType {
    MintTokens,
    FreezeAccount,
    AccountOwner,
    CloseAccount,
}

} // verus!
