pub mod state;

use vstd::prelude::*;
use crate::account_util::{
    check_init, creates_account, has_signed, init_accepted, is_free,
    lemma_creation_paid_by, lemma_initialization_paid_by, init_account, init_refusal,
    initializes_account, signed_by, spec_required_lamports, AccountState, ConstraintError,
    CreationError, MaxSpace, StorageError,
};
use crate::key::Key;
use crate::nft_achievement::{achievement_seeds, achievement_signer_seed_list, achievement_signer_seeds, util};
use crate::seeds::{achievement_tag, achievement_tag_bytes, lemma_seed_views};
use crate::system::{canonical_program_address, le_bytes, system_program_address, variant_tag, Invocation};
use crate::token::{
    mint_len, token_program_address, token_program_id, CpiContext, InitializeMint,
    MINT_ACCOUNT_LEN,
};
use self::state::{Achievement, Tier, ACHIEVEMENT_SPACE};
use crate::nft_achievement::state::{achievement_fits, achievement_stored_len};

verus! {

/// Announces the address of a new achievement.
#[derive(Clone, Copy)]
pub struct AchievementCreated {
    pub pubkey: Key,
}

/// The accounts of `create_achievement`.
#[derive(Clone, Copy)]
pub struct CreateAchievement {
    /// The new achievement, at the address that `achievement` and the mint give.
    pub achievement: Key,
    /// The new mint, a fresh account that signs.
    pub mint: Key,
    pub granter: Key,
    pub recipient: Key,
    /// Pays for the new accounts.
    pub granter_authority: Key,
    pub sysvar_rent: Key,
    pub sysvar_clock: Key,
    pub token_program: Key,
    pub system_program: Key,
}

/// The arguments of `create_achievement`.
pub struct CreateAchievementArgs {
    pub tier: Tier,
    pub validity_length: i64,
    pub uri: String,
    pub bump: u8,
    pub max_transfer_count: Option<u8>,
}

/// What `create_achievement` asks of other programs, in order: the calls that
/// create the achievement's own account (signed with
/// `achievement_signer_seeds`), the calls that create the mint account, then
/// the mint's initialisation with `decimals`, `mint_authority` and
/// `freeze_authority`; and the event it emits.
pub struct CreateAchievementPlan {
    pub achievement_signer_seeds: Vec<Vec<u8>>,
    pub create_achievement_account: Vec<Invocation>,
    pub create_mint: Vec<Invocation>,
    pub initialize_mint: CpiContext<InitializeMint>,
    pub decimals: u8,
    pub mint_authority: Key,
    pub freeze_authority: Option<Key>,
    pub event: AchievementCreated,
}

impl CreateAchievement {
    /// The payer's signature, which its signer type asks for while the
    /// accounts are read.
    pub open spec fn payer_signed(self, signers: Seq<Key>) -> bool {
        signed_by(signers, self.granter_authority)
    }

    /// The new mint's signature, which its constraint asks for after the
    /// achievement's account has passed its rule.
    pub open spec fn mint_signed(self, signers: Seq<Key>) -> bool {
        signed_by(signers, self.mint)
    }

    /// The seeds of the achievement's address: `achievement` and the mint.
    pub fn achievement_seeds(&self) -> (seeds: Vec<Vec<u8>>)
        ensures
            seeds.deep_view() == achievement_seeds(self.mint),
    {
        let mut seeds: Vec<Vec<u8>> = Vec::new();
        seeds.push(achievement_tag_bytes());
        seeds.push(self.mint.to_vec());
        proof {
            lemma_seed_views(&seeds);
        }
        assert(seeds.deep_view() =~= achievement_seeds(self.mint));
        seeds
    }

    /// The rule of the accounts for the new achievement: it must sit at the
    /// canonical address of its seeds for this program, with the bump that
    /// the arguments name, and it must be free.
    pub fn check(&self, args: &CreateAchievementArgs, program_id: &Key, achievement_state: &AccountState) -> (r: Result<(), ConstraintError>)
        ensures
            r is Ok <==> init_accepted(self.achievement, achievement_seeds(self.mint), args.bump, *program_id, *achievement_state),
            r is Err ==> r == Err::<(), ConstraintError>(
                init_refusal(self.achievement, achievement_seeds(self.mint), args.bump, *program_id, *achievement_state),
            ),
    {
        let seeds = self.achievement_seeds();
        proof {
            lemma_seed_views(&seeds);
        }
        check_init(&self.achievement, &seeds, args.bump, program_id, achievement_state)
    }

    /// The token program's mint initialisation, on the new mint and the rent
    /// sysvar.
    pub fn to_cpi_contexts(&self) -> (c: CpiContext<InitializeMint>)
        ensures
            c.program == self.token_program,
            c.accounts == (InitializeMint { mint: self.mint, rent: self.sysvar_rent }),
            !c.signed,
    {
        CpiContext {
            program: self.token_program,
            accounts: InitializeMint { mint: self.mint, rent: self.sysvar_rent },
            signed: false,
        }
    }
}

/// Why `create_achievement` would refuse, if it would: the payer's missing
/// signature first, then the rule of the achievement's account, then the
/// mint's missing signature, then a record too long for the achievement's
/// space.
pub open spec fn achievement_refusal(
    accounts: CreateAchievement,
    args: CreateAchievementArgs,
    program_id: Key,
    achievement_state: AccountState,
    signers: Seq<Key>,
) -> Option<CreationError> {
    if !accounts.payer_signed(signers) {
        Some(CreationError::Accounts(ConstraintError::MissingSigner))
    } else if !init_accepted(accounts.achievement, achievement_seeds(accounts.mint), args.bump, program_id, achievement_state) {
        Some(CreationError::Accounts(
            init_refusal(accounts.achievement, achievement_seeds(accounts.mint), args.bump, program_id, achievement_state),
        ))
    } else if !accounts.mint_signed(signers) {
        Some(CreationError::Accounts(ConstraintError::Signer))
    } else if achievement_stored_len(args.uri@) > ACHIEVEMENT_SPACE {
        Some(CreationError::Storage(StorageError::AccountDidNotSerialize))
    } else {
        None
    }
}

/// The achievement as `create_achievement` fills it in from `old`.
pub open spec fn records_achievement(
    old: Achievement,
    new: Achievement,
    accounts: CreateAchievement,
    args: CreateAchievementArgs,
    current_timestamp: i64,
) -> bool {
    &&& new.granter == accounts.granter
    &&& new.recipient == accounts.recipient
    &&& new.current_owner == accounts.recipient
    &&& new.mint == accounts.mint
    &&& new.tier == args.tier
    &&& new.bump == args.bump
    &&& new.created_at == current_timestamp
    &&& new.expires_at == current_timestamp + args.validity_length
    &&& new.transferable == old.transferable
    &&& new.transfer_count == old.transfer_count
    &&& new.max_transfer_count == (match args.max_transfer_count {
        Some(count) => count,
        None => 1u8,
    })
    &&& new.uri@ == args.uri@
}

/// The calls that `create_achievement` plans.
pub open spec fn plans_achievement(
    plan: CreateAchievementPlan,
    accounts: CreateAchievement,
    bump: u8,
    program_id: Key,
    achievement_state: AccountState,
    achievement_minimum_balance: u64,
    mint_minimum_balance: u64,
    mint_lamports: u64,
) -> bool {
    &&& plan.achievement_signer_seeds.deep_view() == achievement_signer_seeds(accounts.mint, bump)
    &&& initializes_account(
        plan.create_achievement_account@,
        accounts.granter_authority,
        accounts.achievement,
        achievement_state.lamports,
        achievement_minimum_balance,
        ACHIEVEMENT_SPACE as u64,
        program_id@,
    )
    &&& creates_account(
        plan.create_mint@,
        token_program_address(),
        accounts.mint,
        accounts.granter_authority,
        spec_required_lamports(mint_minimum_balance, mint_lamports),
        MINT_ACCOUNT_LEN as u64,
        false,
    )
    &&& plan.initialize_mint.program == accounts.token_program
    &&& plan.initialize_mint.accounts == (InitializeMint { mint: accounts.mint, rent: accounts.sysvar_rent })
    &&& !plan.initialize_mint.signed
    &&& plan.decimals == 0
    &&& plan.mint_authority == accounts.achievement
    &&& plan.freeze_authority is None
    &&& plan.event == (AchievementCreated { pubkey: accounts.achievement })
}

/// Creates an achievement. The payer must have signed, the achievement's
/// account must pass its rule (see `CreateAchievement::check`), the mint must
/// have signed, and the achievement must fit in its space; a refused achievement is left
/// as it was.
/// Then it plans the achievement account's creation (the space of an
/// achievement, owned by this program, paid by the granter authority), the
/// mint's creation (a token-program account of the mint's size) and its
/// initialisation with no decimals and the achievement as mint authority, and
/// fills in the achievement: granted by the granter to the recipient, who
/// owns it, on this mint, created now and expiring `validity_length` seconds
/// later, with at most `max_transfer_count` transfers (one if none is given).
///
/// `signers` are the accounts that signed the transaction,
/// `achievement_state` is what the achievement's account holds now and
/// `achievement_minimum_balance` the rent-exempt minimum of its space;
/// `current_timestamp` is the clock's time, `mint_minimum_balance` the
/// rent-exempt minimum of a mint and `mint_lamports` what the mint holds now.
/// The expiry must fit in an `i64`; a program panics where it does not.
pub fn create_achievement(
    accounts: &CreateAchievement,
    achievement: &mut Achievement,
    args: CreateAchievementArgs,
    program_id: &Key,
    achievement_state: &AccountState,
    achievement_minimum_balance: u64,
    current_timestamp: i64,
    mint_minimum_balance: u64,
    mint_lamports: u64,
    signers: &Vec<Key>,
) -> (r: Result<CreateAchievementPlan, CreationError>)
    requires
        i64::MIN <= current_timestamp + args.validity_length <= i64::MAX,
    ensures
        r is Ok <==> achievement_refusal(*accounts, args, *program_id, *achievement_state, signers@) is None,
        r matches Err(e) ==> {
            &&& achievement_refusal(*accounts, args, *program_id, *achievement_state, signers@) == Some(e)
            &&& *final(achievement) == *old(achievement)
        },
        r matches Ok(plan) ==> {
            &&& plans_achievement(
                plan,
                *accounts,
                args.bump,
                *program_id,
                *achievement_state,
                achievement_minimum_balance,
                mint_minimum_balance,
                mint_lamports,
            )
            &&& records_achievement(*old(achievement), *final(achievement), *accounts, args, current_timestamp)
        },
        r is Ok ==> signed_by(signers@, accounts.granter_authority) && signed_by(signers@, accounts.mint),
        r is Ok ==> final(achievement).current_owner == accounts.recipient && final(achievement).granter == accounts.granter,
        r is Ok && args.max_transfer_count is None ==> final(achievement).max_transfer_count == 1,
        r is Ok && args.max_transfer_count is Some ==> final(achievement).max_transfer_count == args.max_transfer_count->0,
        r matches Ok(plan) ==> (achievement_state.lamports == 0 || achievement_state.lamports < achievement_minimum_balance) ==> {
            &&& plan.create_achievement_account@.len() >= 1
            &&& plan.create_achievement_account@[0].instruction.accounts@[0].key@ == accounts.granter_authority@
            &&& plan.create_achievement_account@[0].instruction.accounts@[0].is_signer
            &&& plan.create_achievement_account@[0].instruction.accounts@[1].key@ == accounts.achievement@
        },
{
    if !has_signed(signers, &accounts.granter_authority) {
        return Err(CreationError::Accounts(ConstraintError::MissingSigner));
    }
    if let Err(e) = accounts.check(&args, program_id, achievement_state) {
        return Err(CreationError::Accounts(e));
    }
    if !has_signed(signers, &accounts.mint) {
        return Err(CreationError::Accounts(ConstraintError::Signer));
    }
    if !achievement_fits(&args.uri, Achievement::max_space()) {
        return Err(CreationError::Storage(StorageError::AccountDidNotSerialize));
    }
    let achievement_signer_seeds = achievement_signer_seed_list(&accounts.mint, args.bump);
    let create_achievement_account = init_account(
        &accounts.granter_authority,
        &accounts.achievement,
        achievement_state.lamports,
        achievement_minimum_balance,
        Achievement::max_space(),
        program_id,
    );
    let initialize_mint = accounts.to_cpi_contexts();
    let token_program = token_program_id();
    let create_mint = util::create_account(
        &token_program,
        &accounts.mint,
        &accounts.granter_authority,
        mint_minimum_balance,
        mint_lamports,
        mint_len(),
        None,
    ).invocations;

    achievement.granter = accounts.granter;
    achievement.recipient = accounts.recipient;
    achievement.current_owner = accounts.recipient;
    achievement.mint = accounts.mint;
    achievement.tier = args.tier;
    achievement.bump = args.bump;
    achievement.created_at = current_timestamp;
    achievement.expires_at = current_timestamp + args.validity_length;
    achievement.uri = args.uri;
    achievement.max_transfer_count = args.max_transfer_count.unwrap_or(1);

    let plan = CreateAchievementPlan {
        achievement_signer_seeds,
        create_achievement_account,
        create_mint,
        initialize_mint,
        decimals: 0,
        mint_authority: accounts.achievement,
        freeze_authority: None,
        event: AchievementCreated { pubkey: accounts.achievement },
    };
    proof {
        lemma_creation_paid_by_granter_authority(
            plan, *accounts, args.bump, *program_id, *achievement_state,
            achievement_minimum_balance, mint_minimum_balance, mint_lamports,
        );
    }
    Ok(plan)
}

/// What an accepted creation stores, field by field: granted by the granter
/// to the recipient, who owns it, on the accounts' mint, with the tier and
/// bump of the arguments, created at the clock's time and expiring
/// `validity_length` seconds later, not yet transferred, with the URI of the
/// arguments, and at most `max_transfer_count` transfers, or exactly one when
/// none is given.
pub proof fn lemma_created_achievement(
    old: Achievement,
    new: Achievement,
    accounts: CreateAchievement,
    args: CreateAchievementArgs,
    current_timestamp: i64,
)
    requires
        records_achievement(old, new, accounts, args, current_timestamp),
    ensures
        new.granter == accounts.granter,
        new.recipient == accounts.recipient,
        new.current_owner == accounts.recipient,
        new.mint == accounts.mint,
        new.tier == args.tier,
        new.bump == args.bump,
        new.created_at == current_timestamp,
        new.expires_at - new.created_at == args.validity_length,
        new.transfer_count == old.transfer_count,
        args.max_transfer_count is None ==> new.max_transfer_count == 1,
        args.max_transfer_count matches Some(n) ==> new.max_transfer_count == n,
        new.uri@ == args.uri@,
{
}

/// The granter authority pays for what an accepted creation creates: when
/// the achievement's account holds nothing, or less than its rent-exempt
/// minimum, the first call of its creation is a system call that takes the
/// lamports from the granter authority, who signs, and gives them to the
/// achievement's account; and likewise for the mint. The mint is initialised
/// with no decimals, the achievement as its only authority.
pub proof fn lemma_creation_paid_by_granter_authority(
    plan: CreateAchievementPlan,
    accounts: CreateAchievement,
    bump: u8,
    program_id: Key,
    achievement_state: AccountState,
    achievement_minimum_balance: u64,
    mint_minimum_balance: u64,
    mint_lamports: u64,
)
    requires
        plans_achievement(
            plan, accounts, bump, program_id, achievement_state,
            achievement_minimum_balance, mint_minimum_balance, mint_lamports,
        ),
    ensures
        (achievement_state.lamports == 0 || achievement_state.lamports < achievement_minimum_balance) ==> {
            &&& plan.create_achievement_account@.len() >= 1
            &&& plan.create_achievement_account@[0].instruction.program_id@ == system_program_address()
            &&& plan.create_achievement_account@[0].instruction.accounts@[0].key@ == accounts.granter_authority@
            &&& plan.create_achievement_account@[0].instruction.accounts@[0].is_signer
            &&& plan.create_achievement_account@[0].instruction.accounts@[1].key@ == accounts.achievement@
        },
        (mint_lamports == 0 || mint_lamports < mint_minimum_balance) ==> {
            &&& plan.create_mint@.len() >= 1
            &&& plan.create_mint@[0].instruction.program_id@ == system_program_address()
            &&& plan.create_mint@[0].instruction.accounts@[0].key@ == accounts.granter_authority@
            &&& plan.create_mint@[0].instruction.accounts@[0].is_signer
            &&& plan.create_mint@[0].instruction.accounts@[1].key@ == accounts.mint@
        },
        achievement_state.lamports == 0 ==> {
            &&& plan.create_achievement_account@.len() == 1
            &&& plan.create_achievement_account@[0].signed
            &&& plan.create_achievement_account@[0].instruction.data@
                == variant_tag(0) + le_bytes(achievement_minimum_balance) + le_bytes(311) + program_id@
        },
        plan.achievement_signer_seeds.deep_view() == seq![achievement_tag(), accounts.mint@, seq![bump]],
        plan.initialize_mint.accounts.mint == accounts.mint,
        plan.decimals == 0,
        plan.mint_authority == accounts.achievement,
        plan.freeze_authority is None,
{
    if achievement_state.lamports == 0 || achievement_state.lamports < achievement_minimum_balance {
        lemma_initialization_paid_by(
            plan.create_achievement_account@, accounts.granter_authority, accounts.achievement,
            achievement_state.lamports, achievement_minimum_balance, ACHIEVEMENT_SPACE as u64, program_id@,
        );
    }
    if mint_lamports == 0 || mint_lamports < mint_minimum_balance {
        lemma_creation_paid_by(
            plan.create_mint@, token_program_address(), accounts.mint, accounts.granter_authority,
            spec_required_lamports(mint_minimum_balance, mint_lamports), MINT_ACCOUNT_LEN as u64, false,
        );
    }
}

/// At most one achievement exists per mint, at the address of its seeds.
/// Once a creation for a mint has been accepted, any later creation for the
/// same mint by the same program is refused, whatever account and bump it
/// names: the only address its rule accepts is the first one, and that
/// account now holds the achievement's space.
pub proof fn lemma_one_achievement_per_mint(
    first: CreateAchievement,
    first_bump: u8,
    first_state: AccountState,
    second: CreateAchievement,
    second_args: CreateAchievementArgs,
    second_state: AccountState,
    second_signers: Seq<Key>,
    program_id: Key,
)
    requires
        init_accepted(first.achievement, achievement_seeds(first.mint), first_bump, program_id, first_state),
        second.mint@ == first.mint@,
        second.achievement@ == first.achievement@ ==> second_state.data_len == ACHIEVEMENT_SPACE,
    ensures
        canonical_program_address(achievement_seeds(first.mint), program_id@) == Some((first.achievement@, first_bump)),
        !init_accepted(second.achievement, achievement_seeds(second.mint), second_args.bump, program_id, second_state),
        achievement_refusal(second, second_args, program_id, second_state, second_signers) is Some,
{
    assert(achievement_seeds(second.mint) =~= achievement_seeds(first.mint));
}

/// A creation is refused, and so changes no record and plans nothing,
/// whenever the payer or the mint did not sign, or the achievement's account
/// is not at the canonical address of the mint's seeds with the bump named,
/// or is not free: an achievement only ever sits at the address of its mint.
pub proof fn lemma_refused_creations(
    accounts: CreateAchievement,
    args: CreateAchievementArgs,
    program_id: Key,
    achievement_state: AccountState,
    signers: Seq<Key>,
)
    ensures
        !signed_by(signers, accounts.granter_authority)
            ==> achievement_refusal(accounts, args, program_id, achievement_state, signers) is Some,
        !signed_by(signers, accounts.mint)
            ==> achievement_refusal(accounts, args, program_id, achievement_state, signers) is Some,
        canonical_program_address(achievement_seeds(accounts.mint), program_id@) != Some((accounts.achievement@, args.bump))
            ==> achievement_refusal(accounts, args, program_id, achievement_state, signers) is Some,
        !is_free(achievement_state)
            ==> achievement_refusal(accounts, args, program_id, achievement_state, signers) is Some,
{
}

} // verus!
