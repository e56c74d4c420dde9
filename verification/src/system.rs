use vstd::prelude::*;
use vstd::arithmetic::power::pow;
use crate::key::Key;

verus! {

/// One account that an instruction touches, and how.
#[derive(Clone, Copy)]
pub struct AccountMeta {
    pub key: Key,
    pub is_signer: bool,
    pub is_writable: bool,
}

/// An instruction for another program: the program, the accounts and the
/// encoded arguments.
pub struct Instruction {
    pub program_id: Key,
    pub accounts: Vec<AccountMeta>,
    pub data: Vec<u8>,
}

/// One cross-program call: the instruction, and whether it is made with the
/// calling program's signer seeds.
pub struct Invocation {
    pub instruction: Instruction,
    pub signed: bool,
}

/// The address of the system program: 32 zero bytes.
pub open spec fn system_program_address() -> Seq<u8> {
    Seq::new(32, |i: int| 0u8)
}

/// The eight little-endian bytes of `v`.
pub open spec fn le_bytes(v: u64) -> Seq<u8> {
    Seq::new(8, |i: int| ((v as int / pow(256, i as nat)) % 256) as u8)
}

/// The four little-endian bytes of a variant index, as the system program
/// expects them in front of an instruction's arguments.
pub open spec fn variant_tag(index: u8) -> Seq<u8> {
    seq![index, 0u8, 0u8, 0u8]
}

/// An account that is written and signs.
pub open spec fn signing_writable(key: Key) -> AccountMeta {
    AccountMeta { key: key, is_signer: true, is_writable: true }
}

/// An account that is written and does not sign.
pub open spec fn writable(key: Key) -> AccountMeta {
    AccountMeta { key: key, is_signer: false, is_writable: true }
}

/// `ix` creates the account `to` with `lamports` paid by `from`, `space`
/// bytes and the program `owner` as its owner.
pub open spec fn is_create_account(ix: Instruction, from: Key, to: Key, lamports: u64, space: u64, owner: Seq<u8>) -> bool {
    &&& ix.program_id@ == system_program_address()
    &&& ix.accounts@ == seq![signing_writable(from), signing_writable(to)]
    &&& ix.data@ == variant_tag(0) + le_bytes(lamports) + le_bytes(space) + owner
}

/// `ix` moves `lamports` from `from` to `to` through the system program.
pub open spec fn is_transfer(ix: Instruction, from: Key, to: Key, lamports: u64) -> bool {
    &&& ix.program_id@ == system_program_address()
    &&& ix.accounts@ == seq![signing_writable(from), writable(to)]
    &&& ix.data@ == variant_tag(2) + le_bytes(lamports)
}

/// `ix` gives the account `key` a data area of `space` bytes.
pub open spec fn is_allocate(ix: Instruction, key: Key, space: u64) -> bool {
    &&& ix.program_id@ == system_program_address()
    &&& ix.accounts@ == seq![signing_writable(key)]
    &&& ix.data@ == variant_tag(8) + le_bytes(space)
}

/// `ix` makes `owner` the program that owns the account `key`.
pub open spec fn is_assign(ix: Instruction, key: Key, owner: Seq<u8>) -> bool {
    &&& ix.program_id@ == system_program_address()
    &&& ix.accounts@ == seq![signing_writable(key)]
    &&& ix.data@ == variant_tag(1) + owner
}

/// `system_instruction::create_account` of the Solana program library.
/// Claimed, as its source shows: the system program, the payer and the new
/// account both as writable signers, and the bincode encoding of
/// `SystemInstruction::CreateAccount { lamports, space, owner }` (variant 0,
/// then the amount, the size and the owner's bytes).
#[verifier::external_body]
pub(crate) fn system_create_account(from: &Key, to: &Key, lamports: u64, space: u64, owner: &Key) -> (ix: Instruction)
    ensures
        is_create_account(ix, *from, *to, lamports, space, owner@),
{
    let ix = anchor_lang::solana_program::system_instruction::create_account(
        &anchor_lang::prelude::Pubkey::new_from_array(from.bytes),
        &anchor_lang::prelude::Pubkey::new_from_array(to.bytes),
        lamports,
        space,
        &anchor_lang::prelude::Pubkey::new_from_array(owner.bytes),
    );
    let accounts = ix.accounts.iter().map(|m| AccountMeta {
        key: Key { bytes: m.pubkey.to_bytes() }, is_signer: m.is_signer, is_writable: m.is_writable,
    }).collect();
    Instruction { program_id: Key { bytes: ix.program_id.to_bytes() }, accounts, data: ix.data }
}

/// `system_instruction::transfer` of the Solana program library.
/// Claimed, as its source shows: the system program, the payer as a writable
/// signer, the receiver as a writable non-signer, and the bincode encoding of
/// `SystemInstruction::Transfer { lamports }` (variant 2 as four little-endian
/// bytes, then the amount as eight).
#[verifier::external_body]
pub(crate) fn system_transfer(from: &Key, to: &Key, lamports: u64) -> (ix: Instruction)
    ensures
        is_transfer(ix, *from, *to, lamports),
{
    let ix = anchor_lang::solana_program::system_instruction::transfer(
        &anchor_lang::prelude::Pubkey::new_from_array(from.bytes),
        &anchor_lang::prelude::Pubkey::new_from_array(to.bytes),
        lamports,
    );
    let accounts = ix.accounts.iter().map(|m| AccountMeta {
        key: Key { bytes: m.pubkey.to_bytes() }, is_signer: m.is_signer, is_writable: m.is_writable,
    }).collect();
    Instruction { program_id: Key { bytes: ix.program_id.to_bytes() }, accounts, data: ix.data }
}

/// `system_instruction::allocate` of the Solana program library.
/// Claimed, as its source shows: the system program, the account as a
/// writable signer, and the bincode encoding of
/// `SystemInstruction::Allocate { space }` (variant 8, then the size).
#[verifier::external_body]
pub(crate) fn system_allocate(key: &Key, space: u64) -> (ix: Instruction)
    ensures
        is_allocate(ix, *key, space),
{
    let ix = anchor_lang::solana_program::system_instruction::allocate(
        &anchor_lang::prelude::Pubkey::new_from_array(key.bytes),
        space,
    );
    let accounts = ix.accounts.iter().map(|m| AccountMeta {
        key: Key { bytes: m.pubkey.to_bytes() }, is_signer: m.is_signer, is_writable: m.is_writable,
    }).collect();
    Instruction { program_id: Key { bytes: ix.program_id.to_bytes() }, accounts, data: ix.data }
}

/// `system_instruction::assign` of the Solana program library.
/// Claimed, as its source shows: the system program, the account as a
/// writable signer, and the bincode encoding of
/// `SystemInstruction::Assign { owner }` (variant 1, then the owner's bytes).
#[verifier::external_body]
pub(crate) fn system_assign(key: &Key, owner: &Key) -> (ix: Instruction)
    ensures
        is_assign(ix, *key, owner@),
{
    let ix = anchor_lang::solana_program::system_instruction::assign(
        &anchor_lang::prelude::Pubkey::new_from_array(key.bytes),
        &anchor_lang::prelude::Pubkey::new_from_array(owner.bytes),
    );
    let accounts = ix.accounts.iter().map(|m| AccountMeta {
        key: Key { bytes: m.pubkey.to_bytes() }, is_signer: m.is_signer, is_writable: m.is_writable,
    }).collect();
    Instruction { program_id: Key { bytes: ix.program_id.to_bytes() }, accounts, data: ix.data }
}

/// The address and bump that `Pubkey::try_find_program_address` derives from
/// a seed list and a program: a hash over the seeds, the bump, the program and
/// a marker, searched from bump 255 down for a point off the curve.
pub uninterp spec fn canonical_program_address(seeds: Seq<Seq<u8>>, program_id: Seq<u8>) -> Option<(Seq<u8>, u8)>;

/// `Pubkey::try_find_program_address` of the Solana program library.
/// Claimed: the result is the named derivation of the seeds and the program;
/// and, as its source shows, it finds nothing when the seeds together with a
/// bump would be more than 16, or when one seed is longer than 32 bytes, and
/// a bump it finds is never 0 (the search stops before it).
/// The hash and the curve test themselves are not stated.
#[verifier::external_body]
pub(crate) fn find_program_address(seeds: &Vec<Vec<u8>>, program_id: &Key) -> (r: Option<(Key, u8)>)
    ensures
        match r {
            Some((k, b)) => canonical_program_address(seeds.deep_view(), program_id@) == Some((k@, b)),
            None => canonical_program_address(seeds.deep_view(), program_id@) is None,
        },
        (seeds@.len() >= 16 || exists|i: int| 0 <= i < seeds@.len() && seeds@[i]@.len() > 32)
            ==> r is None,
        r matches Some((_, b)) ==> b >= 1,
{
    let refs: Vec<&[u8]> = seeds.iter().map(|s| s.as_slice()).collect();
    let program = anchor_lang::prelude::Pubkey::new_from_array(program_id.bytes);
    match anchor_lang::prelude::Pubkey::try_find_program_address(&refs, &program) {
        Some((address, bump)) => Some((Key { bytes: address.to_bytes() }, bump)),
        None => None,
    }
}

} // verus!
