pub mod state;
pub mod util;

use vstd::prelude::*;
use crate::account_util::{
    check_init, creates_account, has_signed, init_accepted, init_account, is_free,
    lemma_creation_paid_by, lemma_initialization_paid_by, init_refusal,
    initializes_account, signed_by, spec_required_lamports, AccountState, ConstraintError,
    CreationError, MaxSpace, StorageError,
};
use crate::key::Key;
use crate::seeds::{lemma_seed_views, achievement_tag, achievement_tag_bytes, token_holding_tag, token_holding_tag_bytes};
use crate::system::{canonical_program_address, le_bytes, system_program_address, variant_tag, Invocation};
use crate::token::{
    mint_len, token_account_len, token_program_address, token_program_id, AuthorityType,
    CpiContext, InitializeAccount, InitializeMint, MintTo, SetAuthority, MINT_ACCOUNT_LEN,
    TOKEN_ACCOUNT_LEN,
};
use self::state::{achievement_fits, achievement_stored_len, Achievement, Tier, ACHIEVEMENT_SPACE};

verus! {

/// Announces the address of a new achievement.
#[derive(Clone, Copy)]
pub struct AchievementCreated {
    pub pubkey: Key,
}

/// The accounts of `create_achievement`.
#[derive(Clone, Copy)]
pub struct CreateAchievement {
    /// The new achievement, at the address that `achievement` and the mint give.
    pub achievement: Key,
    /// The new mint, a fresh account that signs.
    pub mint: Key,
    pub issuer: Key,
    pub recipient: Key,
    /// Pays for the new accounts.
    pub issuer_authority: Key,
    pub sysvar_rent: Key,
    pub sysvar_clock: Key,
    pub token_program: Key,
    pub system_program: Key,
}

/// The arguments of `create_achievement`.
pub struct CreateAchievementArgs {
    pub tier: Tier,
    pub validity_length: i64,
    pub uri: String,
    pub bump: u8,
    pub max_transfer_count: Option<u8>,
}

/// The seeds of an achievement's address: `achievement` and its mint.
pub open spec fn achievement_seeds(mint: Key) -> Seq<Seq<u8>> {
    seq![achievement_tag(), mint@]
}

/// The seeds with which an achievement signs: its address seeds and its bump.
pub open spec fn achievement_signer_seeds(mint: Key, bump: u8) -> Seq<Seq<u8>> {
    seq![achievement_tag(), mint@, seq![bump]]
}

/// The achievement signs with the very seeds that placed it, followed by its
/// bump: what `grant_achievement` signs with is what `create_achievement`
/// checked the achievement's address against.
pub proof fn lemma_signer_seeds_extend_address_seeds(mint: Key, bump: u8)
    ensures
        achievement_signer_seeds(mint, bump) == achievement_seeds(mint).push(seq![bump]),
{
    assert(achievement_signer_seeds(mint, bump) =~= achievement_seeds(mint).push(seq![bump]));
}

/// The seeds of the account that holds a granted token: the
/// `achievement_token_holding` tag, the mint, the recipient and the bump.
pub open spec fn token_holding_seeds(mint: Key, recipient: Key, bump: u8) -> Seq<Seq<u8>> {
    seq![token_holding_tag(), mint@, recipient@, seq![bump]]
}

/// What `create_achievement` asks of other programs, in order: the calls that
/// create the achievement's own account (signed with
/// `achievement_signer_seeds`), the calls that create the mint account, then
/// the mint's initialisation with `decimals`, `mint_authority` and
/// `freeze_authority`; and the event it emits.
pub struct CreateAchievementPlan {
    pub achievement_signer_seeds: Vec<Vec<u8>>,
    pub create_achievement_account: Vec<Invocation>,
    pub create_mint: Vec<Invocation>,
    pub initialize_mint: CpiContext<InitializeMint>,
    pub decimals: u8,
    pub mint_authority: Key,
    pub freeze_authority: Option<Key>,
    pub event: AchievementCreated,
}

/// The supply and the minting authority of a mint.
#[derive(Clone, Copy)]
pub struct MintState {
    pub supply: u64,
    pub mint_authority: Option<Key>,
}

/// The mint that a creation plan leaves: initialised with no tokens and the
/// plan's mint authority.
pub open spec fn mint_after_creation(plan: CreateAchievementPlan) -> MintState {
    MintState { supply: 0, mint_authority: Some(plan.mint_authority) }
}

/// The seeds with which an achievement signs, as bytes.
pub fn achievement_signer_seed_list(mint: &Key, bump: u8) -> (seeds: Vec<Vec<u8>>)
    ensures
        seeds.deep_view() == achievement_signer_seeds(*mint, bump),
{
    let mut seeds: Vec<Vec<u8>> = Vec::new();
    seeds.push(achievement_tag_bytes());
    seeds.push(mint.to_vec());
    let b: Vec<u8> = vec![bump];
    assert(b@ =~= seq![bump]);
    seeds.push(b);
    proof {
        lemma_seed_views(&seeds);
    }
    assert(seeds.deep_view() =~= achievement_signer_seeds(*mint, bump));
    seeds
}

impl CreateAchievement {
    /// The payer's signature, which its signer type asks for while the
    /// accounts are read.
    pub open spec fn payer_signed(self, signers: Seq<Key>) -> bool {
        signed_by(signers, self.issuer_authority)
    }

    /// The new mint's signature, which its constraint asks for after the
    /// achievement's account has passed its rule.
    pub open spec fn mint_signed(self, signers: Seq<Key>) -> bool {
        signed_by(signers, self.mint)
    }

    /// The seeds of the achievement's address.
    pub fn achievement_seeds(&self) -> (seeds: Vec<Vec<u8>>)
        ensures
            seeds.deep_view() == achievement_seeds(self.mint),
    {
        let mut seeds: Vec<Vec<u8>> = Vec::new();
        seeds.push(achievement_tag_bytes());
        seeds.push(self.mint.to_vec());
        proof {
            lemma_seed_views(&seeds);
        }
        assert(seeds.deep_view() =~= achievement_seeds(self.mint));
        seeds
    }

    /// The rule of the accounts for the new achievement: it must sit at the
    /// canonical address of its seeds for this program, with the bump that
    /// the arguments name, and it must be free.
    pub fn check(&self, args: &CreateAchievementArgs, program_id: &Key, achievement_state: &AccountState) -> (r: Result<(), ConstraintError>)
        ensures
            r is Ok <==> init_accepted(self.achievement, achievement_seeds(self.mint), args.bump, *program_id, *achievement_state),
            r is Err ==> r == Err::<(), ConstraintError>(
                init_refusal(self.achievement, achievement_seeds(self.mint), args.bump, *program_id, *achievement_state),
            ),
    {
        let seeds = self.achievement_seeds();
        proof {
            lemma_seed_views(&seeds);
        }
        check_init(&self.achievement, &seeds, args.bump, program_id, achievement_state)
    }

    /// The token program's mint initialisation, on the new mint and the rent
    /// sysvar.
    pub fn to_cpi_contexts(&self) -> (c: CpiContext<InitializeMint>)
        ensures
            c.program == self.token_program,
            c.accounts == (InitializeMint { mint: self.mint, rent: self.sysvar_rent }),
            !c.signed,
    {
        CpiContext {
            program: self.token_program,
            accounts: InitializeMint { mint: self.mint, rent: self.sysvar_rent },
            signed: false,
        }
    }
}

/// Why `create_achievement` would refuse, if it would: the payer's missing
/// signature first, then the rule of the achievement's account, then the
/// mint's missing signature, then a record too long for the achievement's
/// space.
pub open spec fn achievement_refusal(
    accounts: CreateAchievement,
    args: CreateAchievementArgs,
    program_id: Key,
    achievement_state: AccountState,
    signers: Seq<Key>,
) -> Option<CreationError> {
    if !accounts.payer_signed(signers) {
        Some(CreationError::Accounts(ConstraintError::MissingSigner))
    } else if !init_accepted(accounts.achievement, achievement_seeds(accounts.mint), args.bump, program_id, achievement_state) {
        Some(CreationError::Accounts(
            init_refusal(accounts.achievement, achievement_seeds(accounts.mint), args.bump, program_id, achievement_state),
        ))
    } else if !accounts.mint_signed(signers) {
        Some(CreationError::Accounts(ConstraintError::Signer))
    } else if achievement_stored_len(args.uri@) > ACHIEVEMENT_SPACE {
        Some(CreationError::Storage(StorageError::AccountDidNotSerialize))
    } else {
        None
    }
}

/// The achievement as `create_achievement` fills it in from `old`.
pub open spec fn records_achievement(
    old: Achievement,
    new: Achievement,
    accounts: CreateAchievement,
    args: CreateAchievementArgs,
    current_timestamp: i64,
) -> bool {
    &&& new.issuer == accounts.issuer
    &&& new.recipient == old.recipient
    &&& new.owner == accounts.issuer
    &&& new.mint == accounts.mint
    &&& new.tier == args.tier
    &&& new.bump == args.bump
    &&& new.created_at == current_timestamp
    &&& new.expires_at == current_timestamp + args.validity_length
    &&& new.transferable == old.transferable
    &&& new.transfer_count == old.transfer_count
    &&& new.max_transfer_count == (match args.max_transfer_count {
        Some(count) => count,
        None => 1u8,
    })
    &&& new.uri@ == args.uri@
}

/// The calls that `create_achievement` plans.
pub open spec fn plans_achievement(
    plan: CreateAchievementPlan,
    accounts: CreateAchievement,
    bump: u8,
    program_id: Key,
    achievement_state: AccountState,
    achievement_minimum_balance: u64,
    mint_minimum_balance: u64,
    mint_lamports: u64,
) -> bool {
    &&& plan.achievement_signer_seeds.deep_view() == achievement_signer_seeds(accounts.mint, bump)
    &&& initializes_account(
        plan.create_achievement_account@,
        accounts.issuer_authority,
        accounts.achievement,
        achievement_state.lamports,
        achievement_minimum_balance,
        ACHIEVEMENT_SPACE as u64,
        program_id@,
    )
    &&& creates_account(
        plan.create_mint@,
        token_program_address(),
        accounts.mint,
        accounts.issuer_authority,
        spec_required_lamports(mint_minimum_balance, mint_lamports),
        MINT_ACCOUNT_LEN as u64,
        false,
    )
    &&& plan.initialize_mint.program == accounts.token_program
    &&& plan.initialize_mint.accounts == (InitializeMint { mint: accounts.mint, rent: accounts.sysvar_rent })
    &&& !plan.initialize_mint.signed
    &&& plan.decimals == 0
    &&& plan.mint_authority == accounts.achievement
    &&& plan.freeze_authority is None
    &&& plan.event == (AchievementCreated { pubkey: accounts.achievement })
}

/// Creates an achievement. The payer must have signed, the achievement's
/// account must pass its rule (see `CreateAchievement::check`), the mint must
/// have signed, and the achievement must fit in its space; a refused achievement is left
/// as it was.
/// Then it plans the achievement account's creation (the space of an
/// achievement, owned by this program, paid by the issuer authority), the
/// mint's creation (a token-program account of the mint's size) and its
/// initialisation with no decimals and the achievement as mint authority, and
/// fills in the achievement: issued and owned by the issuer, on this mint,
/// created now and expiring `validity_length` seconds later, with at most
/// `max_transfer_count` transfers (one if none is given).
///
/// `signers` are the accounts that signed the transaction,
/// `achievement_state` is what the achievement's account holds now and
/// `achievement_minimum_balance` the rent-exempt minimum of its space;
/// `current_timestamp` is the clock's time, `mint_minimum_balance` the
/// rent-exempt minimum of a mint and `mint_lamports` what the mint holds now.
/// The expiry must fit in an `i64`; a program panics where it does not.
pub fn create_achievement(
    accounts: &CreateAchievement,
    achievement: &mut Achievement,
    args: CreateAchievementArgs,
    program_id: &Key,
    achievement_state: &AccountState,
    achievement_minimum_balance: u64,
    current_timestamp: i64,
    mint_minimum_balance: u64,
    mint_lamports: u64,
    signers: &Vec<Key>,
) -> (r: Result<CreateAchievementPlan, CreationError>)
    requires
        i64::MIN <= current_timestamp + args.validity_length <= i64::MAX,
    ensures
        r is Ok <==> achievement_refusal(*accounts, args, *program_id, *achievement_state, signers@) is None,
        r matches Err(e) ==> {
            &&& achievement_refusal(*accounts, args, *program_id, *achievement_state, signers@) == Some(e)
            &&& *final(achievement) == *old(achievement)
        },
        r matches Ok(plan) ==> {
            &&& plans_achievement(
                plan,
                *accounts,
                args.bump,
                *program_id,
                *achievement_state,
                achievement_minimum_balance,
                mint_minimum_balance,
                mint_lamports,
            )
            &&& records_achievement(*old(achievement), *final(achievement), *accounts, args, current_timestamp)
        },
        r is Ok ==> signed_by(signers@, accounts.issuer_authority) && signed_by(signers@, accounts.mint),
        r is Ok ==> final(achievement).bump == args.bump && final(achievement).mint == accounts.mint,
        r is Ok && args.max_transfer_count is None ==> final(achievement).max_transfer_count == 1,
        r is Ok && args.max_transfer_count is Some ==> final(achievement).max_transfer_count == args.max_transfer_count->0,
        r matches Ok(plan) ==> (achievement_state.lamports == 0 || achievement_state.lamports < achievement_minimum_balance) ==> {
            &&& plan.create_achievement_account@.len() >= 1
            &&& plan.create_achievement_account@[0].instruction.accounts@[0].key@ == accounts.issuer_authority@
            &&& plan.create_achievement_account@[0].instruction.accounts@[0].is_signer
            &&& plan.create_achievement_account@[0].instruction.accounts@[1].key@ == accounts.achievement@
        },
{
    if !has_signed(signers, &accounts.issuer_authority) {
        return Err(CreationError::Accounts(ConstraintError::MissingSigner));
    }
    if let Err(e) = accounts.check(&args, program_id, achievement_state) {
        return Err(CreationError::Accounts(e));
    }
    if !has_signed(signers, &accounts.mint) {
        return Err(CreationError::Accounts(ConstraintError::Signer));
    }
    if !achievement_fits(&args.uri, Achievement::max_space()) {
        return Err(CreationError::Storage(StorageError::AccountDidNotSerialize));
    }
    let achievement_signer_seeds = achievement_signer_seed_list(&accounts.mint, args.bump);
    let create_achievement_account = init_account(
        &accounts.issuer_authority,
        &accounts.achievement,
        achievement_state.lamports,
        achievement_minimum_balance,
        Achievement::max_space(),
        program_id,
    );
    let initialize_mint = accounts.to_cpi_contexts();
    let token_program = token_program_id();
    let create_mint = util::create_account(
        &token_program,
        &accounts.mint,
        &accounts.issuer_authority,
        mint_minimum_balance,
        mint_lamports,
        mint_len(),
        None,
    ).invocations;

    achievement.issuer = accounts.issuer;
    achievement.owner = accounts.issuer;
    achievement.mint = accounts.mint;
    achievement.tier = args.tier;
    achievement.bump = args.bump;
    achievement.created_at = current_timestamp;
    achievement.expires_at = current_timestamp + args.validity_length;
    achievement.uri = args.uri;
    achievement.max_transfer_count = args.max_transfer_count.unwrap_or(1);

    let plan = CreateAchievementPlan {
        achievement_signer_seeds,
        create_achievement_account,
        create_mint,
        initialize_mint,
        decimals: 0,
        mint_authority: accounts.achievement,
        freeze_authority: None,
        event: AchievementCreated { pubkey: accounts.achievement },
    };
    proof {
        lemma_creation_paid_by_issuer_authority(
            plan, *accounts, args.bump, *program_id, *achievement_state,
            achievement_minimum_balance, mint_minimum_balance, mint_lamports,
        );
    }
    Ok(plan)
}

/// What an accepted creation stores, field by field: issued by and owned by
/// the issuer, the recipient left as it was, on the accounts' mint, with the
/// tier and bump of the arguments, created at the clock's time and expiring
/// `validity_length` seconds later, not yet transferred, with the URI of the
/// arguments, and at most `max_transfer_count` transfers, or exactly one when
/// none is given.
pub proof fn lemma_created_achievement(
    old: Achievement,
    new: Achievement,
    accounts: CreateAchievement,
    args: CreateAchievementArgs,
    current_timestamp: i64,
)
    requires
        records_achievement(old, new, accounts, args, current_timestamp),
    ensures
        new.issuer == accounts.issuer,
        new.owner == accounts.issuer,
        new.recipient == old.recipient,
        new.mint == accounts.mint,
        new.tier == args.tier,
        new.bump == args.bump,
        new.created_at == current_timestamp,
        new.expires_at - new.created_at == args.validity_length,
        new.transfer_count == old.transfer_count,
        args.max_transfer_count is None ==> new.max_transfer_count == 1,
        args.max_transfer_count matches Some(n) ==> new.max_transfer_count == n,
        new.uri@ == args.uri@,
{
}

/// The issuer authority pays for what an accepted creation creates: when the
/// achievement's account holds nothing, or less than its rent-exempt minimum,
/// the first call of its creation is a system call that takes the lamports
/// from the issuer authority, who signs, and gives them to the achievement's
/// account; and likewise for the mint. The mint is initialised by the token
/// program with no decimals, the achievement as its only authority.
pub proof fn lemma_creation_paid_by_issuer_authority(
    plan: CreateAchievementPlan,
    accounts: CreateAchievement,
    bump: u8,
    program_id: Key,
    achievement_state: AccountState,
    achievement_minimum_balance: u64,
    mint_minimum_balance: u64,
    mint_lamports: u64,
)
    requires
        plans_achievement(
            plan, accounts, bump, program_id, achievement_state,
            achievement_minimum_balance, mint_minimum_balance, mint_lamports,
        ),
    ensures
        (achievement_state.lamports == 0 || achievement_state.lamports < achievement_minimum_balance) ==> {
            &&& plan.create_achievement_account@.len() >= 1
            &&& plan.create_achievement_account@[0].instruction.program_id@ == system_program_address()
            &&& plan.create_achievement_account@[0].instruction.accounts@[0].key@ == accounts.issuer_authority@
            &&& plan.create_achievement_account@[0].instruction.accounts@[0].is_signer
            &&& plan.create_achievement_account@[0].instruction.accounts@[1].key@ == accounts.achievement@
        },
        (mint_lamports == 0 || mint_lamports < mint_minimum_balance) ==> {
            &&& plan.create_mint@.len() >= 1
            &&& plan.create_mint@[0].instruction.program_id@ == system_program_address()
            &&& plan.create_mint@[0].instruction.accounts@[0].key@ == accounts.issuer_authority@
            &&& plan.create_mint@[0].instruction.accounts@[0].is_signer
            &&& plan.create_mint@[0].instruction.accounts@[1].key@ == accounts.mint@
        },
        achievement_state.lamports == 0 ==> {
            &&& plan.create_achievement_account@.len() == 1
            &&& plan.create_achievement_account@[0].signed
            &&& plan.create_achievement_account@[0].instruction.data@
                == variant_tag(0) + le_bytes(achievement_minimum_balance) + le_bytes(352) + program_id@
        },
        plan.achievement_signer_seeds.deep_view() == seq![achievement_tag(), accounts.mint@, seq![bump]],
        plan.initialize_mint.accounts.mint == accounts.mint,
        plan.decimals == 0,
        plan.mint_authority == accounts.achievement,
        plan.freeze_authority is None,
{
    if achievement_state.lamports == 0 || achievement_state.lamports < achievement_minimum_balance {
        lemma_initialization_paid_by(
            plan.create_achievement_account@, accounts.issuer_authority, accounts.achievement,
            achievement_state.lamports, achievement_minimum_balance, ACHIEVEMENT_SPACE as u64, program_id@,
        );
    }
    if mint_lamports == 0 || mint_lamports < mint_minimum_balance {
        lemma_creation_paid_by(
            plan.create_mint@, token_program_address(), accounts.mint, accounts.issuer_authority,
            spec_required_lamports(mint_minimum_balance, mint_lamports), MINT_ACCOUNT_LEN as u64, false,
        );
    }
}

/// At most one achievement exists per mint. Once a creation for a mint has
/// been accepted, any later creation for the same mint by the same program is
/// refused, whatever account and bump it names: the only address its rule
/// accepts is the first one, and that account now holds the achievement's
/// space.
pub proof fn lemma_one_achievement_per_mint(
    first: CreateAchievement,
    first_bump: u8,
    first_state: AccountState,
    second: CreateAchievement,
    second_args: CreateAchievementArgs,
    second_state: AccountState,
    second_signers: Seq<Key>,
    program_id: Key,
)
    requires
        init_accepted(first.achievement, achievement_seeds(first.mint), first_bump, program_id, first_state),
        second.mint@ == first.mint@,
        second.achievement@ == first.achievement@ ==> second_state.data_len == ACHIEVEMENT_SPACE,
    ensures
        canonical_program_address(achievement_seeds(first.mint), program_id@) == Some((first.achievement@, first_bump)),
        !init_accepted(second.achievement, achievement_seeds(second.mint), second_args.bump, program_id, second_state),
        achievement_refusal(second, second_args, program_id, second_state, second_signers) is Some,
{
    assert(achievement_seeds(second.mint) =~= achievement_seeds(first.mint));
}


/// A creation is refused, and so changes no record and plans nothing,
/// whenever the payer or the mint did not sign, or the achievement's account
/// is not at the canonical address of the mint's seeds with the bump named,
/// or is not free: an achievement only ever sits at the address of its mint.
pub proof fn lemma_refused_creations(
    accounts: CreateAchievement,
    args: CreateAchievementArgs,
    program_id: Key,
    achievement_state: AccountState,
    signers: Seq<Key>,
)
    ensures
        !signed_by(signers, accounts.issuer_authority)
            ==> achievement_refusal(accounts, args, program_id, achievement_state, signers) is Some,
        !signed_by(signers, accounts.mint)
            ==> achievement_refusal(accounts, args, program_id, achievement_state, signers) is Some,
        canonical_program_address(achievement_seeds(accounts.mint), program_id@) != Some((accounts.achievement@, args.bump))
            ==> achievement_refusal(accounts, args, program_id, achievement_state, signers) is Some,
        !is_free(achievement_state)
            ==> achievement_refusal(accounts, args, program_id, achievement_state, signers) is Some,
{
}


/// The accounts of `grant_achievement`.
#[derive(Clone, Copy)]
pub struct GrantAchievement {
    /// The achievement; it must name `mint` as its mint.
    pub achievement: Key,
    pub mint: Key,
    /// The new account that will hold the granted token.
    pub token_holding: Key,
    pub issuer: Key,
    pub recipient: Key,
    /// Pays for the token holding.
    pub issuer_authority: Key,
    pub sysvar_rent: Key,
    pub sysvar_clock: Key,
    pub token_program: Key,
    pub system_program: Key,
}

/// What `grant_achievement` asks of other programs, in order: the calls that
/// create the token holding (signed with `token_holding_seeds`), then, signed
/// with `signer_seeds`, the holding's initialisation, the minting of `amount`
/// tokens into it, and the change of the mint's `authority_type` authority to
/// `new_authority`.
pub struct GrantAchievementPlan {
    pub signer_seeds: Vec<Vec<u8>>,
    pub token_holding_seeds: Vec<Vec<u8>>,
    pub create_token_holding: Vec<Invocation>,
    pub initialize_token_account: CpiContext<InitializeAccount>,
    pub mint_to: CpiContext<MintTo>,
    pub amount: u64,
    pub set_authority: CpiContext<SetAuthority>,
    pub authority_type: AuthorityType,
    pub new_authority: Option<Key>,
}

impl GrantAchievement {
    /// The `has_one = mint` rule of the accounts: the achievement's mint must
    /// be the mint handed in.
    pub fn check(&self, achievement: &Achievement) -> (r: Result<(), ConstraintError>)
        ensures
            r is Ok <==> achievement.mint@ == self.mint@,
            r is Err ==> r == Err::<(), ConstraintError>(ConstraintError::HasOne),
    {
        if achievement.mint.same_as(&self.mint) {
            Ok(())
        } else {
            Err(ConstraintError::HasOne)
        }
    }

    /// The seeds with which the achievement signs: `achievement`, the mint
    /// and the achievement's bump.
    pub fn signer_seeds(&self, achievement_bump: u8) -> (seeds: Vec<Vec<u8>>)
        ensures
            seeds.deep_view() == achievement_signer_seeds(self.mint, achievement_bump),
    {
        achievement_signer_seed_list(&self.mint, achievement_bump)
    }

    /// The seeds of the token holding's address: `achievement_token_holding`,
    /// the mint, the recipient and the holding's bump.
    pub fn token_holding_seeds(&self, token_holding_bump: u8) -> (seeds: Vec<Vec<u8>>)
        ensures
            seeds.deep_view() == token_holding_seeds(self.mint, self.recipient, token_holding_bump),
    {
        let mut seeds: Vec<Vec<u8>> = Vec::new();
        seeds.push(token_holding_tag_bytes());
        seeds.push(self.mint.to_vec());
        seeds.push(self.recipient.to_vec());
        let bump: Vec<u8> = vec![token_holding_bump];
        assert(bump@ =~= seq![token_holding_bump]);
        seeds.push(bump);
        proof {
            lemma_seed_views(&seeds);
        }
        assert(seeds.deep_view() =~= token_holding_seeds(self.mint, self.recipient, token_holding_bump));
        seeds
    }

    /// The three token-program calls of a grant, each signed by the
    /// achievement: initialise the holding for the mint with the achievement
    /// as its authority, mint into the holding, and change the mint's
    /// authority.
    pub fn to_signed_cpi_contexts(&self) -> (c: (CpiContext<InitializeAccount>, CpiContext<MintTo>, CpiContext<SetAuthority>))
        ensures
            c.0.program == self.token_program,
            c.0.accounts == (InitializeAccount {
                account: self.token_holding,
                mint: self.mint,
                authority: self.achievement,
                rent: self.sysvar_rent,
            }),
            c.0.signed,
            c.1.program == self.token_program,
            c.1.accounts == (MintTo { mint: self.mint, to: self.token_holding, authority: self.achievement }),
            c.1.signed,
            c.2.program == self.token_program,
            c.2.accounts == (SetAuthority { current_authority: self.achievement, account_or_mint: self.mint }),
            c.2.signed,
    {
        let initialize = CpiContext {
            program: self.token_program,
            accounts: InitializeAccount {
                account: self.token_holding,
                mint: self.mint,
                authority: self.achievement,
                rent: self.sysvar_rent,
            },
            signed: true,
        };
        let mint_to = CpiContext {
            program: self.token_program,
            accounts: MintTo { mint: self.mint, to: self.token_holding, authority: self.achievement },
            signed: true,
        };
        let set_authority = CpiContext {
            program: self.token_program,
            accounts: SetAuthority { current_authority: self.achievement, account_or_mint: self.mint },
            signed: true,
        };
        (initialize, mint_to, set_authority)
    }
}

/// Why a grant is refused.
#[derive(Clone, Copy, PartialEq, Eq, Structural, Debug)]
pub enum GrantError {
    /// The issuer authority did not sign.
    MissingSigner,
    /// The achievement's mint is not the mint handed in.
    HasOne,
    /// The mint has no minting authority left: its supply is fixed.
    FixedSupply,
    /// The mint's minting authority is not the achievement.
    OwnerMismatch,
    /// One more token would overflow the mint's supply.
    Overflow,
}

/// Why a grant on `mint` would be refused, if it would: the issuer
/// authority's signature first, then the accounts' rule, then the mint's
/// authority, then its supply.
pub open spec fn grant_refusal(accounts: GrantAchievement, achievement: Achievement, mint: MintState, signers: Seq<Key>) -> Option<GrantError> {
    if !signed_by(signers, accounts.issuer_authority) {
        Some(GrantError::MissingSigner)
    } else if achievement.mint@ != accounts.mint@ {
        Some(GrantError::HasOne)
    } else {
        match mint.mint_authority {
            None => Some(GrantError::FixedSupply),
            Some(authority) => if authority@ != accounts.achievement@ {
                Some(GrantError::OwnerMismatch)
            } else if mint.supply == u64::MAX {
                Some(GrantError::Overflow)
            } else {
                None
            },
        }
    }
}

/// The mint that a grant plan leaves: `amount` more tokens, and
/// `new_authority` as its minting authority.
pub open spec fn mint_after_grant(mint: MintState, plan: GrantAchievementPlan) -> MintState {
    MintState { supply: (mint.supply + plan.amount) as u64, mint_authority: plan.new_authority }
}

/// The calls that `grant_achievement` plans.
pub open spec fn plans_grant(
    plan: GrantAchievementPlan,
    accounts: GrantAchievement,
    achievement_bump: u8,
    token_holding_bump: u8,
    token_holding_minimum_balance: u64,
    token_holding_lamports: u64,
) -> bool {
    &&& plan.signer_seeds.deep_view() == achievement_signer_seeds(accounts.mint, achievement_bump)
    &&& plan.token_holding_seeds.deep_view() == token_holding_seeds(accounts.mint, accounts.recipient, token_holding_bump)
    &&& creates_account(
        plan.create_token_holding@,
        token_program_address(),
        accounts.token_holding,
        accounts.issuer_authority,
        spec_required_lamports(token_holding_minimum_balance, token_holding_lamports),
        TOKEN_ACCOUNT_LEN as u64,
        true,
    )
    &&& plan.initialize_token_account.program == accounts.token_program
    &&& plan.initialize_token_account.accounts == (InitializeAccount {
        account: accounts.token_holding,
        mint: accounts.mint,
        authority: accounts.achievement,
        rent: accounts.sysvar_rent,
    })
    &&& plan.initialize_token_account.signed
    &&& plan.mint_to.program == accounts.token_program
    &&& plan.mint_to.accounts == (MintTo { mint: accounts.mint, to: accounts.token_holding, authority: accounts.achievement })
    &&& plan.mint_to.signed
    &&& plan.amount == 1
    &&& plan.set_authority.program == accounts.token_program
    &&& plan.set_authority.accounts == (SetAuthority { current_authority: accounts.achievement, account_or_mint: accounts.mint })
    &&& plan.set_authority.signed
    &&& plan.authority_type == AuthorityType::MintTokens
    &&& plan.new_authority is None
}

/// Grants an achievement. It is refused when the issuer authority did not
/// sign, when the achievement's mint is not
/// the mint handed in, when the mint has no minting authority left, when
/// that authority is not the achievement, or when the supply is full.
/// Otherwise it plans the creation of the recipient's token holding (a
/// token-program account of a token account's size, at the address of its
/// seeds, paid by the issuer authority), its initialisation, the minting of
/// exactly one token into it, and the removal of the mint's minting
/// authority, so that no second token can ever be minted.
///
/// `signers` are the accounts that signed the transaction, `mint` the mint's
/// supply and authority now,
/// `token_holding_minimum_balance` the rent-exempt minimum of a token account
/// and `token_holding_lamports` what the holding holds now.
pub fn grant_achievement(
    accounts: &GrantAchievement,
    achievement: &Achievement,
    mint: &MintState,
    achievement_bump: u8,
    token_holding_bump: u8,
    token_holding_minimum_balance: u64,
    token_holding_lamports: u64,
    signers: &Vec<Key>,
) -> (r: Result<GrantAchievementPlan, GrantError>)
    ensures
        r is Ok <==> grant_refusal(*accounts, *achievement, *mint, signers@) is None,
        r matches Err(e) ==> grant_refusal(*accounts, *achievement, *mint, signers@) == Some(e),
        r matches Ok(plan) ==> plans_grant(
            plan,
            *accounts,
            achievement_bump,
            token_holding_bump,
            token_holding_minimum_balance,
            token_holding_lamports,
        ),
        r is Ok ==> signed_by(signers@, accounts.issuer_authority),
        r matches Ok(plan) ==> (token_holding_lamports == 0 || token_holding_lamports < token_holding_minimum_balance) ==> {
            &&& plan.create_token_holding@.len() >= 1
            &&& plan.create_token_holding@[0].instruction.accounts@[0].key@ == accounts.issuer_authority@
            &&& plan.create_token_holding@[0].instruction.accounts@[0].is_signer
            &&& plan.create_token_holding@[0].instruction.accounts@[1].key@ == accounts.token_holding@
        },
        r matches Ok(plan) ==> plan.amount == 1 && plan.new_authority is None,
{
    if !has_signed(signers, &accounts.issuer_authority) {
        return Err(GrantError::MissingSigner);
    }
    if accounts.check(achievement).is_err() {
        return Err(GrantError::HasOne);
    }
    match &mint.mint_authority {
        None => {
            return Err(GrantError::FixedSupply);
        },
        Some(authority) => {
            if !authority.same_as(&accounts.achievement) {
                return Err(GrantError::OwnerMismatch);
            }
        },
    }
    if mint.supply == u64::MAX {
        return Err(GrantError::Overflow);
    }
    let signer_seeds = accounts.signer_seeds(achievement_bump);
    let (initialize_token_account, mint_to, set_authority) = accounts.to_signed_cpi_contexts();
    let holding_seeds = accounts.token_holding_seeds(token_holding_bump);
    assert(holding_seeds@.len() == holding_seeds.deep_view().len());
    let seed_slices: [&[u8]; 4] = [
        holding_seeds[0].as_slice(),
        holding_seeds[1].as_slice(),
        holding_seeds[2].as_slice(),
        holding_seeds[3].as_slice(),
    ];
    let token_program = token_program_id();
    let create_token_holding = util::create_account(
        &token_program,
        &accounts.token_holding,
        &accounts.issuer_authority,
        token_holding_minimum_balance,
        token_holding_lamports,
        token_account_len(),
        Some(seed_slices.as_slice()),
    ).invocations;
    let plan = GrantAchievementPlan {
        signer_seeds,
        token_holding_seeds: holding_seeds,
        create_token_holding,
        initialize_token_account,
        mint_to,
        amount: 1,
        set_authority,
        authority_type: AuthorityType::MintTokens,
        new_authority: None,
    };
    proof {
        lemma_grant_paid_by_issuer_authority(
            plan, *accounts, achievement_bump, token_holding_bump, token_holding_minimum_balance, token_holding_lamports,
        );
    }
    Ok(plan)
}

/// What an accepted grant does: the issuer authority pays for the
/// recipient's token holding (when the holding holds nothing, or less than
/// its rent-exempt minimum, the first call of its creation is a system call
/// that takes the lamports from the issuer authority, who signs, and gives
/// them to the holding); exactly one token of the accounts' mint is minted
/// into that holding by the achievement; and the mint's minting authority is
/// then taken away, with no new one.
pub proof fn lemma_grant_paid_by_issuer_authority(
    plan: GrantAchievementPlan,
    accounts: GrantAchievement,
    achievement_bump: u8,
    token_holding_bump: u8,
    token_holding_minimum_balance: u64,
    token_holding_lamports: u64,
)
    requires
        plans_grant(plan, accounts, achievement_bump, token_holding_bump, token_holding_minimum_balance, token_holding_lamports),
    ensures
        (token_holding_lamports == 0 || token_holding_lamports < token_holding_minimum_balance) ==> {
            &&& plan.create_token_holding@.len() >= 1
            &&& plan.create_token_holding@[0].instruction.program_id@ == system_program_address()
            &&& plan.create_token_holding@[0].instruction.accounts@[0].key@ == accounts.issuer_authority@
            &&& plan.create_token_holding@[0].instruction.accounts@[0].is_signer
            &&& plan.create_token_holding@[0].instruction.accounts@[1].key@ == accounts.token_holding@
        },
        plan.signer_seeds.deep_view() == seq![achievement_tag(), accounts.mint@, seq![achievement_bump]],
        plan.token_holding_seeds.deep_view()
            == seq![token_holding_tag(), accounts.mint@, accounts.recipient@, seq![token_holding_bump]],
        plan.amount == 1,
        plan.mint_to.accounts.mint == accounts.mint,
        plan.mint_to.accounts.to == accounts.token_holding,
        plan.mint_to.accounts.authority == accounts.achievement,
        plan.set_authority.accounts.account_or_mint == accounts.mint,
        plan.authority_type == AuthorityType::MintTokens,
        plan.new_authority is None,
{
    if token_holding_lamports == 0 || token_holding_lamports < token_holding_minimum_balance {
        lemma_creation_paid_by(
            plan.create_token_holding@, token_program_address(), accounts.token_holding, accounts.issuer_authority,
            spec_required_lamports(token_holding_minimum_balance, token_holding_lamports), TOKEN_ACCOUNT_LEN as u64, true,
        );
    }
}

/// After a grant has gone through, the mint holds one more token and has no
/// minting authority left, so every later grant on that mint is refused for
/// its fixed supply (or, before that, by the accounts' rule).
pub proof fn lemma_granted_mint_is_fixed(
    accounts: GrantAchievement,
    achievement: Achievement,
    mint: MintState,
    plan: GrantAchievementPlan,
    achievement_bump: u8,
    token_holding_bump: u8,
    token_holding_minimum_balance: u64,
    token_holding_lamports: u64,
    signers: Seq<Key>,
    later: GrantAchievement,
    later_achievement: Achievement,
    later_signers: Seq<Key>,
)
    requires
        grant_refusal(accounts, achievement, mint, signers) is None,
        plans_grant(plan, accounts, achievement_bump, token_holding_bump, token_holding_minimum_balance, token_holding_lamports),
    ensures
        mint_after_grant(mint, plan).supply == mint.supply + 1,
        mint_after_grant(mint, plan).mint_authority is None,
        grant_refusal(later, later_achievement, mint_after_grant(mint, plan), later_signers) is Some,
        signed_by(later_signers, later.issuer_authority) && later_achievement.mint@ == later.mint@
            ==> grant_refusal(later, later_achievement, mint_after_grant(mint, plan), later_signers)
            == Some(GrantError::FixedSupply),
{
}

/// An achievement's mint never holds more than one token: the mint that a
/// creation leaves is empty with the achievement as its minting authority; a
/// grant on it leaves one token and no authority, and every later grant on it
/// is refused.
pub proof fn lemma_one_token_per_achievement(
    created: CreateAchievementPlan,
    accounts: GrantAchievement,
    achievement: Achievement,
    plan: GrantAchievementPlan,
    achievement_bump: u8,
    token_holding_bump: u8,
    token_holding_minimum_balance: u64,
    token_holding_lamports: u64,
    signers: Seq<Key>,
    later: GrantAchievement,
    later_achievement: Achievement,
    later_signers: Seq<Key>,
)
    requires
        grant_refusal(accounts, achievement, mint_after_creation(created), signers) is None,
        plans_grant(plan, accounts, achievement_bump, token_holding_bump, token_holding_minimum_balance, token_holding_lamports),
    ensures
        mint_after_creation(created).supply == 0,
        mint_after_grant(mint_after_creation(created), plan).supply == 1,
        grant_refusal(later, later_achievement, mint_after_grant(mint_after_creation(created), plan), later_signers) is Some,
{
    lemma_granted_mint_is_fixed(
        accounts,
        achievement,
        mint_after_creation(created),
        plan,
        achievement_bump,
        token_holding_bump,
        token_holding_minimum_balance,
        token_holding_lamports,
        signers,
        later,
        later_achievement,
        later_signers,
    );
}

} // verus!
