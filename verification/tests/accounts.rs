use achievement_programs::account_util::{
    account_is_free, char_count_exceeds, check_init, check_init_address, create_account, init_account,
    required_lamports, AccountState, ConstraintError,
    MAX_ALIAS_LENGTH, MAX_PROFILE_NAME_LENGTH, MAX_URI_LENGTH, ONE_DAY_IN_SECONDS,
};
use achievement_programs::key::Key;
use achievement_programs::nft_achievement::util;
use achievement_programs::seeds::with_bump;
use achievement_programs::system::Invocation;
use anchor_lang::prelude::Pubkey;
use anchor_lang::solana_program::system_instruction;

fn key(b: u8) -> Key {
    Key { bytes: [b; 32] }
}

fn pubkey(k: &Key) -> Pubkey {
    Pubkey::new_from_array(k.bytes)
}

fn le(v: u64) -> Vec<u8> {
    v.to_le_bytes().to_vec()
}

fn assert_same_instruction(got: &Invocation, want: &anchor_lang::solana_program::instruction::Instruction) {
    assert_eq!(got.instruction.program_id.bytes, want.program_id.to_bytes());
    assert_eq!(got.instruction.data, want.data);
    assert_eq!(got.instruction.accounts.len(), want.accounts.len());
    for (g, w) in got.instruction.accounts.iter().zip(want.accounts.iter()) {
        assert_eq!(g.key.bytes, w.pubkey.to_bytes());
        assert_eq!(g.is_signer, w.is_signer);
        assert_eq!(g.is_writable, w.is_writable);
    }
}

#[test]
fn constants_hold_their_values() {
    assert_eq!(MAX_ALIAS_LENGTH, 30);
    assert_eq!(MAX_PROFILE_NAME_LENGTH, 30);
    assert_eq!(MAX_URI_LENGTH, 200);
    assert_eq!(ONE_DAY_IN_SECONDS, 86400);
}

#[test]
fn key_comparison_and_bytes() {
    let a = key(7);
    let mut b = key(7);
    assert!(a.same_as(&b));
    b.bytes[31] = 8;
    assert!(!a.same_as(&b));
    assert_eq!(Key::zeroed().bytes, [0u8; 32]);
    assert_eq!(b.to_vec(), b.bytes.to_vec());
}

#[test]
fn required_lamports_tops_up_to_the_minimum() {
    assert_eq!(required_lamports(100, 30), 70);
    assert_eq!(required_lamports(890_880, 0), 890_880);
    assert_eq!(required_lamports(50, 80), 0);
    assert_eq!(required_lamports(50, 50), 0);
    assert_eq!(required_lamports(u64::MAX, 0), u64::MAX);
}

#[test]
fn required_lamports_asks_for_at_least_one_lamport() {
    assert_eq!(required_lamports(0, 0), 1);
    assert_eq!(required_lamports(0, 1), 0);
    assert_eq!(required_lamports(1, 0), 1);
}

#[test]
fn funded_account_holds_at_least_the_minimum() {
    for (min, cur) in [(0u64, 0u64), (10, 3), (10, 10), (10, 25), (1_000_000, 999_999)] {
        let r = required_lamports(min, cur);
        assert!(cur + r >= min && cur + r >= 1);
        if r > 0 {
            assert_eq!(cur + r, min.max(1));
        }
    }
}

#[test]
fn create_account_transfers_then_allocates_and_assigns() {
    let owner = key(9);
    let new_account = key(2);
    let payer = key(3);
    let seed: &[u8] = b"mint";
    let bump: &[u8] = &[254];
    let seeds: [&[u8]; 2] = [seed, bump];
    let creation = create_account(&owner, &new_account, &payer, 1_461_600, 1_000, 82, &seeds);
    assert_eq!(creation.signer_seeds, Some(vec![b"mint".to_vec(), vec![254u8]]));
    let plan = creation.invocations;
    assert_eq!(plan.len(), 3);
    let mut transfer = vec![2u8, 0, 0, 0];
    transfer.extend(le(1_460_600));
    assert_eq!(plan[0].instruction.data, transfer);
    assert!(!plan[0].signed);
    let mut allocate = vec![8u8, 0, 0, 0];
    allocate.extend(le(82));
    assert_eq!(plan[1].instruction.data, allocate);
    assert!(plan[1].signed);
    let mut assign = vec![1u8, 0, 0, 0];
    assign.extend([9u8; 32]);
    assert_eq!(plan[2].instruction.data, assign);
    assert!(plan[2].signed);
    for step in plan.iter() {
        assert_eq!(step.instruction.program_id.bytes, [0u8; 32]);
    }
    assert_same_instruction(&plan[0], &system_instruction::transfer(&pubkey(&payer), &pubkey(&new_account), 1_460_600));
    assert_same_instruction(&plan[1], &system_instruction::allocate(&pubkey(&new_account), 82));
    assert_same_instruction(&plan[2], &system_instruction::assign(&pubkey(&new_account), &pubkey(&owner)));
}

#[test]
fn create_account_skips_the_transfer_when_funded() {
    let creation = create_account(&key(9), &key(2), &key(3), 500, 500, 10, &[]);
    assert_eq!(creation.signer_seeds, Some(Vec::<Vec<u8>>::new()));
    let plan = creation.invocations;
    assert_eq!(plan.len(), 2);
    assert_eq!(plan[0].instruction.data[0], 8);
    assert_eq!(plan[1].instruction.data[0], 1);
    assert_eq!(plan[0].instruction.accounts.len(), 1);
    assert_eq!(plan[0].instruction.accounts[0].key.bytes, [2u8; 32]);
    assert!(plan[0].instruction.accounts[0].is_signer);
    assert!(plan[0].instruction.accounts[0].is_writable);
}

#[test]
fn transfer_names_payer_as_signer_and_receiver_as_writable() {
    let plan = create_account(&key(9), &key(2), &key(3), 10, 0, 0, &[]).invocations;
    let accounts = &plan[0].instruction.accounts;
    assert_eq!(accounts.len(), 2);
    assert_eq!(accounts[0].key.bytes, [3u8; 32]);
    assert!(accounts[0].is_signer && accounts[0].is_writable);
    assert_eq!(accounts[1].key.bytes, [2u8; 32]);
    assert!(!accounts[1].is_signer && accounts[1].is_writable);
}

#[test]
fn util_create_account_signs_only_with_seeds() {
    let seed: &[u8] = b"seed";
    let seeds: [&[u8]; 1] = [seed];
    let signed = util::create_account(&key(9), &key(2), &key(3), 10, 0, 4, Some(&seeds));
    assert_eq!(signed.signer_seeds, Some(vec![b"seed".to_vec()]));
    let signed = signed.invocations;
    assert_eq!(signed.len(), 3);
    assert!(!signed[0].signed && signed[1].signed && signed[2].signed);
    let unsigned = util::create_account(&key(9), &key(2), &key(3), 10, 0, 4, None);
    assert_eq!(unsigned.signer_seeds, None);
    let unsigned = unsigned.invocations;
    assert_eq!(unsigned.len(), 3);
    assert!(!unsigned[0].signed && !unsigned[1].signed && !unsigned[2].signed);
    let funded = util::create_account(&key(9), &key(2), &key(3), 10, 10, 4, None);
    assert_eq!(funded.invocations.len(), 2);
}

#[test]
fn init_address_accepts_only_the_canonical_address_and_bump() {
    let program = key(5);
    let seeds = vec![b"profile".to_vec(), vec![4u8; 32]];
    let refs: Vec<&[u8]> = seeds.iter().map(|s| s.as_slice()).collect();
    let (address, bump) = Pubkey::find_program_address(&refs, &pubkey(&program));
    let account = Key { bytes: address.to_bytes() };
    assert_eq!(check_init_address(&account, &seeds, bump, &program), Ok(()));
    assert_eq!(check_init_address(&account, &seeds, bump.wrapping_sub(1), &program), Err(ConstraintError::Seeds));
    assert_eq!(check_init_address(&key(1), &seeds, bump, &program), Err(ConstraintError::Seeds));
    assert_eq!(check_init_address(&account, &seeds, bump, &key(6)), Err(ConstraintError::Seeds));
}

#[test]
fn char_count_counts_characters_not_bytes() {
    assert!(!char_count_exceeds("", 0));
    assert!(char_count_exceeds("a", 0));
    assert!(!char_count_exceeds("abc", 3));
    assert!(char_count_exceeds("abcd", 3));
    assert!(!char_count_exceeds("ééé", 3));
    assert!(char_count_exceeds("éééé", 3));
}

#[test]
fn an_account_is_free_only_empty_and_with_the_system_program() {
    assert!(account_is_free(&AccountState { lamports: 5, data_len: 0, owner: Key::zeroed() }));
    assert!(!account_is_free(&AccountState { lamports: 0, data_len: 1, owner: Key::zeroed() }));
    assert!(!account_is_free(&AccountState { lamports: 0, data_len: 0, owner: key(1) }));
}

#[test]
fn init_account_creates_in_one_call_when_empty() {
    let plan = init_account(&key(3), &key(2), 0, 1_000, 40, &key(9));
    assert_eq!(plan.len(), 1);
    assert!(plan[0].signed);
    assert_same_instruction(
        &plan[0],
        &system_instruction::create_account(&pubkey(&key(3)), &pubkey(&key(2)), 1_000, 40, &pubkey(&key(9))),
    );
}

#[test]
fn init_account_tops_up_an_account_that_holds_lamports() {
    let plan = init_account(&key(3), &key(2), 400, 1_000, 40, &key(9));
    assert_eq!(plan.len(), 3);
    assert!(!plan[0].signed && plan[1].signed && plan[2].signed);
    assert_same_instruction(&plan[0], &system_instruction::transfer(&pubkey(&key(3)), &pubkey(&key(2)), 600));
    assert_same_instruction(&plan[1], &system_instruction::allocate(&pubkey(&key(2)), 40));
    assert_same_instruction(&plan[2], &system_instruction::assign(&pubkey(&key(2)), &pubkey(&key(9))));
    let funded = init_account(&key(3), &key(2), 5_000, 1_000, 40, &key(9));
    assert_eq!(funded.len(), 2);
}

#[test]
fn check_init_refuses_a_wrong_address_before_an_account_in_use() {
    let program = key(5);
    let seeds = vec![b"profile".to_vec(), vec![4u8; 32]];
    let refs: Vec<&[u8]> = seeds.iter().map(|s| s.as_slice()).collect();
    let (address, bump) = Pubkey::find_program_address(&refs, &pubkey(&program));
    let account = Key { bytes: address.to_bytes() };
    let free = AccountState { lamports: 0, data_len: 0, owner: Key::zeroed() };
    let used = AccountState { lamports: 10, data_len: 8, owner: program };
    assert_eq!(check_init(&account, &seeds, bump, &program, &free), Ok(()));
    assert_eq!(check_init(&account, &seeds, bump, &program, &used), Err(ConstraintError::AccountInUse));
    assert_eq!(check_init(&key(1), &seeds, bump, &program, &used), Err(ConstraintError::Seeds));
}

#[test]
fn with_bump_appends_the_bump_seed() {
    let seeds = vec![b"a".to_vec(), vec![1u8, 2]];
    assert_eq!(with_bump(seeds, 7), vec![b"a".to_vec(), vec![1u8, 2], vec![7u8]]);
}
