use vstd::prelude::*;
use crate::key::Key;
use crate::seeds::seed_list;
use vstd::std_specs::iter::IteratorSpec;
use crate::system::{
    canonical_program_address, find_program_address, is_allocate, is_assign, is_create_account,
    is_transfer, system_allocate, system_assign, system_create_account, system_program_address,
    system_transfer, Invocation,
};

verus! {

/// The longest alias, in characters.
pub const MAX_ALIAS_LENGTH: usize = 30;

/// The longest profile name, in characters: a profile's name is its alias.
pub const MAX_PROFILE_NAME_LENGTH: usize = MAX_ALIAS_LENGTH;

/// The longest URI, in characters.
pub const MAX_URI_LENGTH: usize = 200;

/// One day, in seconds.
pub const ONE_DAY_IN_SECONDS: u64 = 86400;

/// Whether `s` has more than `limit` characters; the count stops once it
/// passes the limit.
pub fn char_count_exceeds(s: &str, limit: usize) -> (b: bool)
    ensures
        b == (s@.len() > limit),
{
    broadcast use vstd::string::group_string_axioms;

    let mut chars = s.chars();
    let mut n: usize = 0;
    loop
        invariant
            n <= limit,
            chars.obeys_prophetic_iter_laws(),
            n + chars.remaining().len() == s@.len(),
            chars.decrease() is Some,
        decreases chars.decrease()->0,
    {
        match chars.next() {
            None => {
                return false;
            },
            Some(_) => {
                if n == limit {
                    return true;
                }
                n = n + 1;
            },
        }
    }
}

/// The number of bytes to reserve for an account of this type.
pub trait MaxSpace {
    fn max_space() -> usize;
}

/// Why the accounts handed to an instruction were refused.
#[derive(Clone, Copy, PartialEq, Eq, Structural, Debug)]
pub enum ConstraintError {
    /// The account is not at the address that its seeds and bump give.
    Seeds,
    /// A stored key does not match the account handed in.
    HasOne,
    /// The account to be created already holds data or belongs to a program.
    AccountInUse,
    /// An account of a signer's type did not sign the transaction.
    MissingSigner,
    /// An account that its constraints mark as a signer did not sign.
    Signer,
}

/// Why a record cannot be stored.
#[derive(Clone, Copy, PartialEq, Eq, Structural, Debug)]
pub enum StorageError {
    /// The serialised record is longer than its account's data.
    AccountDidNotSerialize,
}

/// `key` is among the accounts that signed the transaction.
pub open spec fn signed_by(signers: Seq<Key>, key: Key) -> bool {
    exists|i: int| 0 <= i < signers.len() && #[trigger] signers[i]@ == key@
}

/// Whether `key` is among the accounts that signed the transaction.
pub fn has_signed(signers: &Vec<Key>, key: &Key) -> (b: bool)
    ensures
        b == signed_by(signers@, *key),
{
    let mut i: usize = 0;
    while i < signers.len()
        invariant
            0 <= i <= signers@.len(),
            forall|j: int| 0 <= j < i ==> #[trigger] signers@[j]@ != key@,
        decreases signers@.len() - i,
    {
        if signers[i].same_as(key) {
            return true;
        }
        i = i + 1;
    }
    false
}

/// A refusal of an instruction: by the rules of its accounts, by the
/// program's own checks, or because its record does not fit its account.
#[derive(Clone, Copy, PartialEq, Eq, Structural, Debug)]
pub enum InstructionError<E> {
    Accounts(ConstraintError),
    Program(E),
    Storage(StorageError),
}

/// A refusal of an instruction that has no errors of its own: by the rules
/// of its accounts, or because its record does not fit its account.
#[derive(Clone, Copy, PartialEq, Eq, Structural, Debug)]
pub enum CreationError {
    Accounts(ConstraintError),
    Storage(StorageError),
}

/// What the runtime shows of an account that an instruction is to create.
#[derive(Clone, Copy)]
pub struct AccountState {
    pub lamports: u64,
    pub data_len: usize,
    pub owner: Key,
}

/// An account is free to be created when it holds no data and still belongs
/// to the system program; the system program refuses to allocate or assign
/// any other.
pub open spec fn is_free(state: AccountState) -> bool {
    state.data_len == 0 && state.owner@ == system_program_address()
}

/// Whether an account is free to be created.
pub fn account_is_free(state: &AccountState) -> (b: bool)
    ensures
        b == is_free(*state),
{
    let system = Key::zeroed();
    state.data_len == 0 && state.owner.same_as(&system)
}

/// An account at `account` may be created from `seeds` with `bump` for
/// `program_id`: it sits at the canonical address of the seeds, found with
/// that bump, and it is free.
pub open spec fn init_accepted(account: Key, seeds: Seq<Seq<u8>>, bump: u8, program_id: Key, state: AccountState) -> bool {
    &&& canonical_program_address(seeds, program_id@) == Some((account@, bump))
    &&& is_free(state)
}

/// The error that refuses a creation at `account`: a wrong address first,
/// then an account in use.
pub open spec fn init_refusal(account: Key, seeds: Seq<Seq<u8>>, bump: u8, program_id: Key, state: AccountState) -> ConstraintError {
    if canonical_program_address(seeds, program_id@) != Some((account@, bump)) {
        ConstraintError::Seeds
    } else {
        ConstraintError::AccountInUse
    }
}

/// The lamports that must move into a new account so that it holds at least
/// the rent-exempt minimum, and at least one lamport.
pub open spec fn spec_required_lamports(minimum_balance: u64, current_lamports: u64) -> nat {
    let target: u64 = if minimum_balance >= 1 { minimum_balance } else { 1 };
    if target > current_lamports {
        (target - current_lamports) as nat
    } else {
        0
    }
}

/// The lamports to transfer to a new account before it is allocated:
/// what it lacks of `max(minimum_balance, 1)`.
pub fn required_lamports(minimum_balance: u64, current_lamports: u64) -> (r: u64)
    ensures
        r == spec_required_lamports(minimum_balance, current_lamports),
        current_lamports + r >= minimum_balance,
        current_lamports + r >= 1,
        r > 0 ==> current_lamports + r == (if minimum_balance >= 1 { minimum_balance } else { 1 }),
        current_lamports >= minimum_balance && current_lamports >= 1 ==> r == 0,
{
    minimum_balance.max(1).saturating_sub(current_lamports)
}

/// `plan` creates the account `new_account` owned by `owner` with `space`
/// bytes: a transfer of `lamports` from `payer` first when it is positive,
/// then the allocation and the assignment, made signed or not as `signed`
/// says.
pub open spec fn creates_account(
    plan: Seq<Invocation>,
    owner: Seq<u8>,
    new_account: Key,
    payer: Key,
    lamports: nat,
    space: u64,
    signed: bool,
) -> bool {
    let k: int = if lamports > 0 { 1 } else { 0 };
    &&& plan.len() == k + 2
    &&& lamports > 0 ==> {
        &&& is_transfer(plan[0].instruction, payer, new_account, lamports as u64)
        &&& !plan[0].signed
    }
    &&& is_allocate(plan[k].instruction, new_account, space)
    &&& plan[k].signed == signed
    &&& is_assign(plan[k + 1].instruction, new_account, owner)
    &&& plan[k + 1].signed == signed
}

/// The calls that create an account, and the seeds with which those of them
/// that are signed are signed.
pub struct AccountCreation {
    pub invocations: Vec<Invocation>,
    pub signer_seeds: Option<Vec<Vec<u8>>>,
}

/// The calls that create `new_account` as an account of `owner` with `size`
/// bytes, paid by `payer`: top it up to the rent-exempt minimum if it lacks
/// lamports, allocate it and assign it, the last two signed with
/// `signer_seeds`. `minimum_balance` is the rent-exempt minimum for `size`
/// bytes and `current_lamports` what the account holds now.
pub fn create_account(
    owner: &Key,
    new_account: &Key,
    payer: &Key,
    minimum_balance: u64,
    current_lamports: u64,
    size: usize,
    signer_seeds: &[&[u8]],
) -> (plan: AccountCreation)
    ensures
        creates_account(
            plan.invocations@,
            owner@,
            *new_account,
            *payer,
            spec_required_lamports(minimum_balance, current_lamports),
            size as u64,
            true,
        ),
        plan.signer_seeds matches Some(seeds) && seeds.deep_view() == signer_seeds.deep_view(),
{
    let invocations = plan_account_creation(owner, new_account, payer, minimum_balance, current_lamports, size, true);
    AccountCreation { invocations, signer_seeds: Some(seed_list(signer_seeds)) }
}

/// The calls that create an account, with the allocation and the assignment
/// signed or not as `signed` says.
pub(crate) fn plan_account_creation(
    owner: &Key,
    new_account: &Key,
    payer: &Key,
    minimum_balance: u64,
    current_lamports: u64,
    size: usize,
    signed: bool,
) -> (plan: Vec<Invocation>)
    ensures
        creates_account(
            plan@,
            owner@,
            *new_account,
            *payer,
            spec_required_lamports(minimum_balance, current_lamports),
            size as u64,
            signed,
        ),
{
    let lamports = required_lamports(minimum_balance, current_lamports);
    let mut plan: Vec<Invocation> = Vec::new();
    if lamports > 0 {
        plan.push(Invocation { instruction: system_transfer(payer, new_account, lamports), signed: false });
    }
    plan.push(Invocation { instruction: system_allocate(new_account, size as u64), signed });
    plan.push(Invocation { instruction: system_assign(new_account, owner), signed });
    plan
}

/// Checks an account that an instruction creates from seeds: its address
/// (see `check_init_address`), then that it is free.
pub fn check_init(account: &Key, seeds: &Vec<Vec<u8>>, bump: u8, program_id: &Key, state: &AccountState) -> (r: Result<(), ConstraintError>)
    requires
        seeds@.len() < 16,
        forall|i: int| 0 <= i < seeds@.len() ==> #[trigger] seeds@[i]@.len() <= 32,
    ensures
        r is Ok <==> init_accepted(*account, seeds.deep_view(), bump, *program_id, *state),
        r is Err ==> r == Err::<(), ConstraintError>(init_refusal(*account, seeds.deep_view(), bump, *program_id, *state)),
{
    check_init_address(account, seeds, bump, program_id)?;
    if account_is_free(state) {
        Ok(())
    } else {
        Err(ConstraintError::AccountInUse)
    }
}

/// `plan` creates the program account `account` with `space` bytes for
/// `owner`, paid by `payer`, all signed: in one system call with
/// `minimum_balance` lamports when the account holds none yet; otherwise by a
/// top-up to the minimum, an allocation and an assignment.
pub open spec fn initializes_account(
    plan: Seq<Invocation>,
    payer: Key,
    account: Key,
    current_lamports: u64,
    minimum_balance: u64,
    space: u64,
    owner: Seq<u8>,
) -> bool {
    if current_lamports == 0 {
        &&& plan.len() == 1
        &&& is_create_account(plan[0].instruction, payer, account, minimum_balance, space, owner)
        &&& plan[0].signed
    } else {
        creates_account(plan, owner, account, payer, spec_required_lamports(minimum_balance, current_lamports), space, true)
    }
}

/// Whenever a creation plan moves lamports, its first call is a system
/// call that takes them from `payer`, who signs, and gives them to
/// `new_account`.
pub proof fn lemma_creation_paid_by(
    plan: Seq<Invocation>,
    owner: Seq<u8>,
    new_account: Key,
    payer: Key,
    lamports: nat,
    space: u64,
    signed: bool,
)
    requires
        creates_account(plan, owner, new_account, payer, lamports, space, signed),
        lamports > 0,
    ensures
        plan.len() >= 1,
        plan[0].instruction.program_id@ == system_program_address(),
        plan[0].instruction.accounts@.len() == 2,
        plan[0].instruction.accounts@[0].key@ == payer@,
        plan[0].instruction.accounts@[0].is_signer,
        plan[0].instruction.accounts@[1].key@ == new_account@,
{
}

/// Whenever an account that holds nothing, or less than its rent-exempt
/// minimum, is initialised, the first call of the plan is a system call
/// that takes the lamports from `payer`, who signs, and gives them to
/// `account`.
pub proof fn lemma_initialization_paid_by(
    plan: Seq<Invocation>,
    payer: Key,
    account: Key,
    current_lamports: u64,
    minimum_balance: u64,
    space: u64,
    owner: Seq<u8>,
)
    requires
        initializes_account(plan, payer, account, current_lamports, minimum_balance, space, owner),
        current_lamports == 0 || current_lamports < minimum_balance,
    ensures
        plan.len() >= 1,
        plan[0].instruction.program_id@ == system_program_address(),
        plan[0].instruction.accounts@.len() == 2,
        plan[0].instruction.accounts@[0].key@ == payer@,
        plan[0].instruction.accounts@[0].is_signer,
        plan[0].instruction.accounts@[1].key@ == account@,
{
    if current_lamports != 0 {
        lemma_creation_paid_by(
            plan, owner, account, payer, spec_required_lamports(minimum_balance, current_lamports), space, true,
        );
    }
}

/// The calls that create the program account `account` with `space` bytes
/// for `owner`, paid by `payer` and signed with the account's seeds.
/// `current_lamports` is what the account holds now and `minimum_balance` the
/// rent-exempt minimum for `space` bytes.
pub fn init_account(
    payer: &Key,
    account: &Key,
    current_lamports: u64,
    minimum_balance: u64,
    space: usize,
    owner: &Key,
) -> (plan: Vec<Invocation>)
    ensures
        initializes_account(plan@, *payer, *account, current_lamports, minimum_balance, space as u64, owner@),
{
    if current_lamports == 0 {
        let mut plan: Vec<Invocation> = Vec::new();
        plan.push(Invocation {
            instruction: system_create_account(payer, account, minimum_balance, space as u64, owner),
            signed: true,
        });
        plan
    } else {
        plan_account_creation(owner, account, payer, minimum_balance, current_lamports, space, true)
    }
}

/// Checks the address of an account that an instruction creates from seeds:
/// it must be the canonical address that the seeds give for `program_id`,
/// found with the bump `bump`.
///
/// The search for the address is not made with more than 15 seeds, or with a
/// seed longer than 32 bytes: it finds nothing there, and a program panics.
pub fn check_init_address(account: &Key, seeds: &Vec<Vec<u8>>, bump: u8, program_id: &Key) -> (r: Result<(), ConstraintError>)
    requires
        seeds@.len() < 16,
        forall|i: int| 0 <= i < seeds@.len() ==> #[trigger] seeds@[i]@.len() <= 32,
    ensures
        r is Ok <==> canonical_program_address(seeds.deep_view(), program_id@) == Some((account@, bump)),
        r is Err ==> r == Err::<(), ConstraintError>(ConstraintError::Seeds),
{
    match find_program_address(seeds, program_id) {
        Some((address, found)) => {
            if address.same_as(account) && found == bump {
                Ok(())
            } else {
                Err(ConstraintError::Seeds)
            }
        },
        None => Err(ConstraintError::Seeds),
    }
}

} // verus!
