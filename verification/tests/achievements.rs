use achievement_programs::account_util::{AccountState, ConstraintError, CreationError, MaxSpace, StorageError};
use achievement_programs::ephemeral_nft_achievements as ephemeral;
use achievement_programs::key::Key;
use achievement_programs::nft_achievement::state::{Achievement, Tier};
use achievement_programs::nft_achievement::{
    create_achievement, grant_achievement, CreateAchievement, CreateAchievementArgs, GrantAchievement, GrantError,
    MintState,
};
use achievement_programs::token::AuthorityType;
use anchor_lang::prelude::Pubkey;
use anchor_lang::solana_program::system_instruction;

fn key(b: u8) -> Key {
    Key { bytes: [b; 32] }
}

fn token_program_bytes() -> [u8; 32] {
    anchor_spl::token::ID.to_bytes()
}

fn free() -> AccountState {
    AccountState { lamports: 0, data_len: 0, owner: Key::zeroed() }
}

fn signers() -> Vec<Key> {
    vec![key(2), key(5)]
}

fn program() -> Key {
    key(200)
}

fn achievement_address(mint: &Key) -> (Key, u8) {
    let (address, bump) =
        Pubkey::find_program_address(&[b"achievement", &mint.bytes], &Pubkey::new_from_array(program().bytes));
    (Key { bytes: address.to_bytes() }, bump)
}

fn nft_accounts() -> (CreateAchievement, u8) {
    let (achievement, bump) = achievement_address(&key(2));
    (
        CreateAchievement {
            achievement,
            mint: key(2),
            issuer: key(3),
            recipient: key(4),
            issuer_authority: key(5),
            sysvar_rent: key(6),
            sysvar_clock: key(7),
            token_program: Key { bytes: token_program_bytes() },
            system_program: Key::zeroed(),
        },
        bump,
    )
}

fn args(bump: u8, validity_length: i64, max_transfer_count: Option<u8>) -> CreateAchievementArgs {
    CreateAchievementArgs {
        tier: Tier::Major,
        validity_length,
        uri: "https://example.org/a.json".to_string(),
        bump,
        max_transfer_count,
    }
}

fn grant_accounts() -> GrantAchievement {
    GrantAchievement {
        achievement: key(1),
        mint: key(2),
        token_holding: key(8),
        issuer: key(3),
        recipient: key(4),
        issuer_authority: key(5),
        sysvar_rent: key(6),
        sysvar_clock: key(7),
        token_program: Key { bytes: token_program_bytes() },
        system_program: Key::zeroed(),
    }
}

fn record_on_mint(mint: Key) -> Achievement {
    let mut a = Achievement::default();
    a.mint = mint;
    a
}

fn fresh_mint() -> MintState {
    MintState { supply: 0, mint_authority: Some(key(1)) }
}

#[test]
fn tiers_have_their_weights() {
    assert_eq!(Tier::Trivial.value(), 1);
    assert_eq!(Tier::Minor.value(), 2);
    assert_eq!(Tier::Major.value(), 3);
    assert_eq!(Tier::Critical.value(), 5);
    assert_eq!(Tier::Innovative.value(), 8);
    assert_eq!(Tier::default(), Tier::Trivial);
}

#[test]
fn achievement_space_is_fixed() {
    assert_eq!(<Achievement as MaxSpace>::max_space(), 352);
    assert_eq!(<ephemeral::state::Achievement as MaxSpace>::max_space(), 311);
}

#[test]
fn default_achievement_is_empty() {
    let a = Achievement::default();
    assert_eq!(a.issuer.bytes, [0u8; 32]);
    assert_eq!(a.mint.bytes, [0u8; 32]);
    assert_eq!(a.tier, Tier::Trivial);
    assert_eq!(a.expires_at, 0);
    assert!(!a.transferable);
    assert_eq!(a.max_transfer_count, 0);
    assert!(a.uri.is_empty());
    let e = ephemeral::state::Achievement::default();
    assert_eq!(e.current_owner.bytes, [0u8; 32]);
    assert_eq!(e.tier, Tier::Trivial);
}

#[test]
fn nft_create_achievement_fills_the_record() {
    let (accounts, bump) = nft_accounts();
    let mut achievement = Achievement::default();
    achievement.recipient = key(44);
    let plan = create_achievement(&accounts, &mut achievement, args(bump, 86_400, None), &program(), &free(), 3_340_800, 1_700_000_000, 1_461_600, 0, &signers())
        .unwrap();
    assert_eq!(achievement.issuer.bytes, [3u8; 32]);
    assert_eq!(achievement.owner.bytes, [3u8; 32]);
    assert_eq!(achievement.recipient.bytes, [44u8; 32]);
    assert_eq!(achievement.mint.bytes, [2u8; 32]);
    assert_eq!(achievement.tier, Tier::Major);
    assert_eq!(achievement.bump, bump);
    assert_eq!(achievement.created_at, 1_700_000_000);
    assert_eq!(achievement.expires_at, 1_700_086_400);
    assert_eq!(achievement.max_transfer_count, 1);
    assert_eq!(achievement.transfer_count, 0);
    assert_eq!(achievement.uri, "https://example.org/a.json");
    assert_eq!(plan.decimals, 0);
    assert_eq!(plan.mint_authority.bytes, accounts.achievement.bytes);
    assert!(plan.freeze_authority.is_none());
    assert_eq!(plan.event.pubkey.bytes, accounts.achievement.bytes);
    assert_eq!(plan.initialize_mint.accounts.mint.bytes, [2u8; 32]);
    assert_eq!(plan.initialize_mint.accounts.rent.bytes, [6u8; 32]);
    assert_eq!(plan.initialize_mint.program.bytes, token_program_bytes());
    assert!(!plan.initialize_mint.signed);
    assert_eq!(plan.achievement_signer_seeds, vec![b"achievement".to_vec(), vec![2u8; 32], vec![bump]]);
}

#[test]
fn nft_create_achievement_creates_its_own_account() {
    let (accounts, bump) = nft_accounts();
    let plan = create_achievement(&accounts, &mut Achievement::default(), args(bump, 1, None), &program(), &free(), 3_340_800, 0, 0, 0, &signers())
        .unwrap();
    let steps = &plan.create_achievement_account;
    assert_eq!(steps.len(), 1);
    assert!(steps[0].signed);
    let want = system_instruction::create_account(
        &Pubkey::new_from_array([5u8; 32]),
        &Pubkey::new_from_array(accounts.achievement.bytes),
        3_340_800,
        352,
        &Pubkey::new_from_array(program().bytes),
    );
    assert_eq!(steps[0].instruction.data, want.data);
    assert_eq!(steps[0].instruction.program_id.bytes, want.program_id.to_bytes());
    assert_eq!(steps[0].instruction.accounts.len(), 2);
    assert!(steps[0].instruction.accounts[1].is_signer);
    let mut expected = vec![0u8, 0, 0, 0];
    expected.extend(3_340_800u64.to_le_bytes());
    expected.extend(352u64.to_le_bytes());
    expected.extend(program().bytes);
    assert_eq!(steps[0].instruction.data, expected);

    let funded = AccountState { lamports: 1_000, data_len: 0, owner: Key::zeroed() };
    let plan = create_achievement(&accounts, &mut Achievement::default(), args(bump, 1, None), &program(), &funded, 3_340_800, 0, 0, 0, &signers())
        .unwrap();
    let steps = &plan.create_achievement_account;
    assert_eq!(steps.len(), 3);
    assert!(steps.iter().skip(1).all(|s| s.signed));
    assert_eq!(steps[0].instruction.data[0], 2);
    assert_eq!(steps[1].instruction.data[0], 8);
    assert_eq!(steps[2].instruction.data[0], 1);
    assert_eq!(&steps[2].instruction.data[4..], &program().bytes);
}

#[test]
fn nft_create_achievement_creates_a_mint_owned_by_the_token_program() {
    let (accounts, bump) = nft_accounts();
    let mut achievement = Achievement::default();
    let plan = create_achievement(&accounts, &mut achievement, args(bump, 10, Some(3)), &program(), &free(), 0, 5, 1_461_600, 600, &signers())
        .unwrap();
    assert_eq!(achievement.max_transfer_count, 3);
    let steps = &plan.create_mint;
    assert_eq!(steps.len(), 3);
    let mut transfer = vec![2u8, 0, 0, 0];
    transfer.extend(1_461_000u64.to_le_bytes());
    assert_eq!(steps[0].instruction.data, transfer);
    assert_eq!(steps[0].instruction.accounts[0].key.bytes, [5u8; 32]);
    assert_eq!(steps[0].instruction.accounts[1].key.bytes, [2u8; 32]);
    let mut allocate = vec![8u8, 0, 0, 0];
    allocate.extend(82u64.to_le_bytes());
    assert_eq!(steps[1].instruction.data, allocate);
    let mut assign = vec![1u8, 0, 0, 0];
    assign.extend(token_program_bytes());
    assert_eq!(steps[2].instruction.data, assign);
    assert!(steps.iter().all(|s| !s.signed));
}

#[test]
fn token_program_address_is_the_token_program() {
    let (accounts, bump) = nft_accounts();
    let plan = create_achievement(&accounts, &mut Achievement::default(), args(bump, 0, None), &program(), &free(), 0, 0, 0, 0, &signers())
        .unwrap();
    let assign = &plan.create_mint[plan.create_mint.len() - 1].instruction.data;
    assert_eq!(&assign[4..], &[
        6u8, 221, 246, 225, 215, 101, 161, 147, 217, 203, 225, 70, 206, 235, 121, 172, 28, 180, 133,
        237, 95, 91, 55, 145, 58, 140, 245, 133, 126, 255, 0, 169,
    ]);
}

#[test]
fn achievement_expires_validity_length_after_creation() {
    let (accounts, bump) = nft_accounts();
    for (now, validity) in [(0i64, 0i64), (100, -50), (-1_000, 7), (i64::MAX - 1, 1)] {
        let mut a = Achievement::default();
        create_achievement(&accounts, &mut a, args(bump, validity, None), &program(), &free(), 0, now, 0, 0, &signers()).unwrap();
        assert_eq!(a.expires_at - a.created_at, validity);
    }
}

#[test]
fn nft_achievement_address_is_checked() {
    let (mut accounts, bump) = nft_accounts();
    assert_eq!(accounts.check(&args(bump, 0, None), &program(), &free()), Ok(()));
    assert_eq!(accounts.check(&args(bump.wrapping_add(1), 0, None), &program(), &free()), Err(ConstraintError::Seeds));
    assert_eq!(accounts.achievement_seeds(), vec![b"achievement".to_vec(), vec![2u8; 32]]);
    accounts.achievement = key(1);
    let mut a = Achievement::default();
    a.uri = "kept".to_string();
    let r = create_achievement(&accounts, &mut a, args(bump, 0, None), &program(), &free(), 0, 9, 0, 0, &signers());
    assert_eq!(r.err(), Some(CreationError::Accounts(ConstraintError::Seeds)));
    assert_eq!(a.uri, "kept");
    assert_eq!(a.created_at, 0);
}

#[test]
fn second_achievement_for_a_mint_is_refused() {
    let (accounts, bump) = nft_accounts();
    let mut first = Achievement::default();
    assert!(create_achievement(&accounts, &mut first, args(bump, 0, None), &program(), &free(), 0, 1, 0, 0, &signers()).is_ok());
    let taken = AccountState { lamports: 3_340_800, data_len: 352, owner: program() };
    let mut second = Achievement::default();
    let r = create_achievement(&accounts, &mut second, args(bump, 0, None), &program(), &taken, 0, 2, 0, 0, &signers());
    assert_eq!(r.err(), Some(CreationError::Accounts(ConstraintError::AccountInUse)));
    assert_eq!(second.created_at, 0);
    let elsewhere = CreateAchievement { achievement: key(9), ..accounts };
    let r = create_achievement(&elsewhere, &mut second, args(bump, 0, None), &program(), &free(), 0, 2, 0, 0, &signers());
    assert_eq!(r.err(), Some(CreationError::Accounts(ConstraintError::Seeds)));
    let wrong_owner = AccountState { lamports: 0, data_len: 0, owner: program() };
    assert_eq!(accounts.check(&args(bump, 0, None), &program(), &wrong_owner), Err(ConstraintError::AccountInUse));
}

#[test]
fn ephemeral_create_achievement_gives_it_to_the_recipient() {
    let (achievement_key, bump) = achievement_address(&key(2));
    let accounts = ephemeral::CreateAchievement {
        achievement: achievement_key,
        mint: key(2),
        granter: key(3),
        recipient: key(4),
        granter_authority: key(5),
        sysvar_rent: key(6),
        sysvar_clock: key(7),
        token_program: Key { bytes: token_program_bytes() },
        system_program: Key::zeroed(),
    };
    let mut achievement = ephemeral::state::Achievement::default();
    let args = ephemeral::CreateAchievementArgs {
        tier: Tier::Innovative,
        validity_length: 3_600,
        uri: "u".to_string(),
        bump,
        max_transfer_count: Some(0),
    };
    let plan = ephemeral::create_achievement(&accounts, &mut achievement, args, &program(), &free(), 3_055_200, 100, 10, 0, &signers())
        .unwrap();
    assert_eq!(achievement.granter.bytes, [3u8; 32]);
    assert_eq!(achievement.recipient.bytes, [4u8; 32]);
    assert_eq!(achievement.current_owner.bytes, [4u8; 32]);
    assert_eq!(achievement.mint.bytes, [2u8; 32]);
    assert_eq!(achievement.tier, Tier::Innovative);
    assert_eq!(achievement.created_at, 100);
    assert_eq!(achievement.expires_at, 3_700);
    assert_eq!(achievement.max_transfer_count, 0);
    assert_eq!(achievement.uri, "u");
    assert_eq!(plan.create_mint.len(), 3);
    assert_eq!(plan.create_mint[0].instruction.accounts[0].key.bytes, [5u8; 32]);
    assert_eq!(plan.mint_authority.bytes, achievement_key.bytes);
    assert_eq!(plan.event.pubkey.bytes, achievement_key.bytes);
    assert_eq!(plan.create_achievement_account.len(), 1);
    let mut space = vec![];
    space.extend(311u64.to_le_bytes());
    assert_eq!(&plan.create_achievement_account[0].instruction.data[12..20], &space[..]);
    assert_eq!(accounts.to_cpi_contexts().accounts.mint.bytes, [2u8; 32]);
}

#[test]
fn ephemeral_second_achievement_for_a_mint_is_refused() {
    let (achievement_key, bump) = achievement_address(&key(2));
    let accounts = ephemeral::CreateAchievement {
        achievement: key(1),
        mint: key(2),
        granter: key(3),
        recipient: key(4),
        granter_authority: key(5),
        sysvar_rent: key(6),
        sysvar_clock: key(7),
        token_program: Key { bytes: token_program_bytes() },
        system_program: Key::zeroed(),
    };
    let a = |bump| ephemeral::CreateAchievementArgs { tier: Tier::Trivial, validity_length: 0, uri: String::new(), bump, max_transfer_count: None };
    assert_eq!(accounts.check(&a(bump), &program(), &free()), Err(ConstraintError::Seeds));
    let accounts = ephemeral::CreateAchievement { achievement: achievement_key, ..accounts };
    assert_eq!(accounts.check(&a(bump), &program(), &free()), Ok(()));
    let taken = AccountState { lamports: 1, data_len: 311, owner: program() };
    let mut record = ephemeral::state::Achievement::default();
    let r = ephemeral::create_achievement(&accounts, &mut record, a(bump), &program(), &taken, 0, 0, 0, 0, &signers());
    assert_eq!(r.err(), Some(CreationError::Accounts(ConstraintError::AccountInUse)));
    assert_eq!(record.granter.bytes, [0u8; 32]);
}

#[test]
fn grant_mints_exactly_one_token_and_drops_the_mint_authority() {
    let accounts = grant_accounts();
    let plan = grant_achievement(&accounts, &record_on_mint(key(2)), &fresh_mint(), 253, 252, 2_039_280, 0, &signers()).unwrap();
    assert_eq!(plan.amount, 1);
    assert_eq!(plan.authority_type, AuthorityType::MintTokens);
    assert!(plan.new_authority.is_none());
    assert_eq!(plan.signer_seeds, vec![b"achievement".to_vec(), vec![2u8; 32], vec![253u8]]);
    assert_eq!(
        plan.token_holding_seeds,
        vec![b"achievement_token_holding".to_vec(), vec![2u8; 32], vec![4u8; 32], vec![252u8]]
    );
    assert_eq!(plan.initialize_token_account.accounts.account.bytes, [8u8; 32]);
    assert_eq!(plan.initialize_token_account.accounts.mint.bytes, [2u8; 32]);
    assert_eq!(plan.initialize_token_account.accounts.authority.bytes, [1u8; 32]);
    assert_eq!(plan.initialize_token_account.accounts.rent.bytes, [6u8; 32]);
    assert_eq!(plan.mint_to.accounts.to.bytes, [8u8; 32]);
    assert_eq!(plan.mint_to.accounts.authority.bytes, [1u8; 32]);
    assert_eq!(plan.set_authority.accounts.current_authority.bytes, [1u8; 32]);
    assert_eq!(plan.set_authority.accounts.account_or_mint.bytes, [2u8; 32]);
    assert!(plan.initialize_token_account.signed && plan.mint_to.signed && plan.set_authority.signed);
}

#[test]
fn grant_creates_a_signed_token_holding() {
    let plan = grant_achievement(&grant_accounts(), &record_on_mint(key(2)), &fresh_mint(), 1, 2, 2_039_280, 39_280, &signers()).unwrap();
    let steps = &plan.create_token_holding;
    assert_eq!(steps.len(), 3);
    assert!(!steps[0].signed && steps[1].signed && steps[2].signed);
    let mut transfer = vec![2u8, 0, 0, 0];
    transfer.extend(2_000_000u64.to_le_bytes());
    assert_eq!(steps[0].instruction.data, transfer);
    let mut allocate = vec![8u8, 0, 0, 0];
    allocate.extend(165u64.to_le_bytes());
    assert_eq!(steps[1].instruction.data, allocate);
    assert_eq!(steps[1].instruction.accounts[0].key.bytes, [8u8; 32]);
    let funded = grant_achievement(&grant_accounts(), &record_on_mint(key(2)), &fresh_mint(), 1, 2, 2_039_280, 2_039_280, &signers()).unwrap();
    assert_eq!(funded.create_token_holding.len(), 2);
}

#[test]
fn grant_requires_the_achievement_mint() {
    let accounts = grant_accounts();
    assert_eq!(accounts.check(&record_on_mint(key(2))), Ok(()));
    assert_eq!(accounts.check(&record_on_mint(key(9))), Err(ConstraintError::HasOne));
    let r = grant_achievement(&accounts, &record_on_mint(key(9)), &fresh_mint(), 1, 2, 0, 0, &signers());
    assert_eq!(r.err(), Some(GrantError::HasOne));
}

#[test]
fn grant_needs_the_achievement_as_minting_authority() {
    let accounts = grant_accounts();
    let record = record_on_mint(key(2));
    let fixed = MintState { supply: 1, mint_authority: None };
    assert_eq!(grant_achievement(&accounts, &record, &fixed, 1, 2, 0, 0, &signers()).err(), Some(GrantError::FixedSupply));
    let other = MintState { supply: 0, mint_authority: Some(key(77)) };
    assert_eq!(grant_achievement(&accounts, &record, &other, 1, 2, 0, 0, &signers()).err(), Some(GrantError::OwnerMismatch));
    let full = MintState { supply: u64::MAX, mint_authority: Some(key(1)) };
    assert_eq!(grant_achievement(&accounts, &record, &full, 1, 2, 0, 0, &signers()).err(), Some(GrantError::Overflow));
}

#[test]
fn a_granted_mint_takes_no_second_grant() {
    let accounts = grant_accounts();
    let record = record_on_mint(key(2));
    let mint = fresh_mint();
    let plan = grant_achievement(&accounts, &record, &mint, 1, 2, 0, 0, &signers()).unwrap();
    let after = MintState { supply: mint.supply + plan.amount, mint_authority: plan.new_authority };
    assert_eq!(after.supply, 1);
    let other_recipient = GrantAchievement { recipient: key(40), token_holding: key(41), ..accounts };
    let r = grant_achievement(&other_recipient, &record, &after, 1, 3, 0, 0, &signers());
    assert_eq!(r.err(), Some(GrantError::FixedSupply));
}

#[test]
fn signer_seeds_sign_for_the_achievement_address() {
    let accounts = grant_accounts();
    let (address, bump) = achievement_address(&key(2));
    let seeds = accounts.signer_seeds(bump);
    let refs: Vec<&[u8]> = seeds.iter().map(|s| s.as_slice()).collect();
    let signed_for = Pubkey::create_program_address(&refs, &Pubkey::new_from_array(program().bytes)).unwrap();
    assert_eq!(signed_for.to_bytes(), address.bytes);
}

#[test]
fn nft_create_achievement_needs_the_payer_then_the_mint_to_sign() {
    let (accounts, bump) = nft_accounts();
    let mut a = Achievement::default();
    a.uri = "kept".to_string();
    let r = create_achievement(&accounts, &mut a, args(bump, 0, None), &program(), &free(), 0, 9, 0, 0, &vec![key(2)]);
    assert_eq!(r.err(), Some(CreationError::Accounts(ConstraintError::MissingSigner)));
    let r = create_achievement(&accounts, &mut a, args(bump, 0, None), &program(), &free(), 0, 9, 0, 0, &vec![key(5)]);
    assert_eq!(r.err(), Some(CreationError::Accounts(ConstraintError::Signer)));
    let elsewhere = CreateAchievement { achievement: key(9), ..accounts };
    let r = create_achievement(&elsewhere, &mut a, args(bump, 0, None), &program(), &free(), 0, 9, 0, 0, &vec![key(5)]);
    assert_eq!(r.err(), Some(CreationError::Accounts(ConstraintError::Seeds)));
    let r = create_achievement(&elsewhere, &mut a, args(bump, 0, None), &program(), &free(), 0, 9, 0, 0, &vec![]);
    assert_eq!(r.err(), Some(CreationError::Accounts(ConstraintError::MissingSigner)));
    assert_eq!(a.uri, "kept");
    assert_eq!(a.created_at, 0);
    let r = create_achievement(&accounts, &mut a, args(bump, 0, None), &program(), &free(), 0, 9, 0, 0, &vec![key(8), key(5), key(2)]);
    assert!(r.is_ok());
}

#[test]
fn nft_achievement_uri_must_fit_its_account() {
    let (accounts, bump) = nft_accounts();
    let mut longest = args(bump, 0, None);
    longest.uri = "a".repeat(191);
    let mut a = Achievement::default();
    assert!(create_achievement(&accounts, &mut a, longest, &program(), &free(), 0, 1, 0, 0, &signers()).is_ok());
    assert_eq!(a.uri.len(), 191);
    let mut too_long = args(bump, 0, None);
    too_long.uri = "é".repeat(96);
    let mut b = Achievement::default();
    let r = create_achievement(&accounts, &mut b, too_long, &program(), &free(), 0, 1, 0, 0, &signers());
    assert_eq!(r.err(), Some(CreationError::Storage(StorageError::AccountDidNotSerialize)));
    assert!(b.uri.is_empty());
}

#[test]
fn ephemeral_create_achievement_needs_signatures_and_room() {
    let (achievement_key, bump) = achievement_address(&key(2));
    let accounts = ephemeral::CreateAchievement {
        achievement: achievement_key,
        mint: key(2),
        granter: key(3),
        recipient: key(4),
        granter_authority: key(5),
        sysvar_rent: key(6),
        sysvar_clock: key(7),
        token_program: Key { bytes: token_program_bytes() },
        system_program: Key::zeroed(),
    };
    let a = |uri: String| ephemeral::CreateAchievementArgs { tier: Tier::Minor, validity_length: 0, uri, bump, max_transfer_count: None };
    let mut record = ephemeral::state::Achievement::default();
    let r = ephemeral::create_achievement(&accounts, &mut record, a(String::new()), &program(), &free(), 0, 0, 0, 0, &vec![key(2)]);
    assert_eq!(r.err(), Some(CreationError::Accounts(ConstraintError::MissingSigner)));
    let r = ephemeral::create_achievement(&accounts, &mut record, a(String::new()), &program(), &free(), 0, 0, 0, 0, &vec![key(5)]);
    assert_eq!(r.err(), Some(CreationError::Accounts(ConstraintError::Signer)));
    let r = ephemeral::create_achievement(&accounts, &mut record, a("b".repeat(151)), &program(), &free(), 0, 0, 0, 0, &signers());
    assert_eq!(r.err(), Some(CreationError::Storage(StorageError::AccountDidNotSerialize)));
    assert_eq!(record.mint.bytes, [0u8; 32]);
    let r = ephemeral::create_achievement(&accounts, &mut record, a("b".repeat(150)), &program(), &free(), 0, 0, 0, 0, &signers());
    assert!(r.is_ok());
    assert_eq!(record.mint.bytes, [2u8; 32]);
}

#[test]
fn grant_needs_the_issuer_authority_to_sign() {
    let accounts = grant_accounts();
    let r = grant_achievement(&accounts, &record_on_mint(key(9)), &fresh_mint(), 1, 2, 0, 0, &vec![key(2)]);
    assert_eq!(r.err(), Some(GrantError::MissingSigner));
    let r = grant_achievement(&accounts, &record_on_mint(key(2)), &fresh_mint(), 1, 2, 0, 0, &vec![key(5)]);
    assert!(r.is_ok());
}
