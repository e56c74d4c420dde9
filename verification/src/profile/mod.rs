pub mod error;
pub mod state;

use vstd::prelude::*;
use vstd::utf8::encode_utf8;
use crate::account_util::{
    char_count_exceeds, check_init, has_signed, init_accepted, init_account, init_refusal,
    initializes_account, lemma_initialization_paid_by, is_free, signed_by, AccountState, ConstraintError, CreationError,
    InstructionError, MaxSpace, StorageError, MAX_PROFILE_NAME_LENGTH, MAX_URI_LENGTH,
};
use crate::key::Key;
use crate::seeds::{lemma_seed_views, profile_tag, profile_tag_bytes, with_bump};
use crate::system::{canonical_program_address, le_bytes, system_program_address, variant_tag, Invocation};
use self::error::ProfileError;
use self::state::{profile_fits, profile_stored_len, Profile, PROFILE_SPACE};

verus! {

/// The accounts of `create`.
#[derive(Clone, Copy)]
pub struct Create {
    /// The new profile, at the address that `profile` and its name give.
    pub profile: Key,
    /// Owns and pays for the new profile.
    pub owner: Key,
    pub system_program: Key,
}

/// The arguments of `create`.
pub struct CreateArgs {
    pub name: String,
    pub bump: u8,
    pub details_uri: Option<String>,
}

/// The accounts of `add_delegate`.
#[derive(Clone, Copy)]
pub struct AddDelegate {
    /// The profile; it must name `owner` as its owner.
    pub profile: Key,
    pub owner: Key,
    /// The key that is to act for the profile.
    pub delegate: Key,
}

/// The view of an optional string.
pub open spec fn opt_view(s: Option<String>) -> Option<Seq<char>> {
    match s {
        Some(t) => Some(t@),
        None => None,
    }
}

/// What validation answers for a name and an optional details URI: the name
/// (the alias) is checked first, against the longest profile name, then the
/// URI, when there is one, against the longest URI.
pub open spec fn validation(name: Seq<char>, details_uri: Option<Seq<char>>) -> Result<(), ProfileError> {
    if name.len() > MAX_PROFILE_NAME_LENGTH {
        Err(ProfileError::AliasCharLengthExceeded)
    } else if details_uri is Some && details_uri->0.len() > MAX_URI_LENGTH {
        Err(ProfileError::URICharLengthExceeded)
    } else {
        Ok(())
    }
}

/// The URI that a profile stores for an optional one: empty for none.
pub open spec fn stored_uri(details_uri: Option<Seq<char>>) -> Seq<char> {
    match details_uri {
        Some(u) => u,
        None => Seq::empty(),
    }
}

/// Validation measures in characters, not bytes: a name of at most 30
/// characters, whatever its length in bytes, with no URI or a URI of at most
/// 200 characters, is accepted; a longer name is refused for its length
/// first, and otherwise a longer URI for its.
pub proof fn lemma_validation_counts_characters(name: Seq<char>, details_uri: Option<Seq<char>>)
    ensures
        validation(name, details_uri) is Ok <==> name.len() <= 30 && (details_uri matches Some(u) ==> u.len() <= 200),
        name.len() > 30 ==> validation(name, details_uri) == Err::<(), ProfileError>(ProfileError::AliasCharLengthExceeded),
        (details_uri matches Some(u) && u.len() > 200) && name.len() <= 30
            ==> validation(name, details_uri) == Err::<(), ProfileError>(ProfileError::URICharLengthExceeded),
{
}

/// The seeds of a profile's address: `profile` and the UTF-8 bytes of its
/// name.
pub open spec fn profile_seeds(name: Seq<char>) -> Seq<Seq<u8>> {
    seq![profile_tag(), encode_utf8(name)]
}

impl Create {
    /// The signature that the accounts need: the owner's, who pays.
    pub open spec fn signatures(self, signers: Seq<Key>) -> bool {
        signed_by(signers, self.owner)
    }

    /// Checks that the owner signed.
    pub fn check_signers(&self, signers: &Vec<Key>) -> (r: Result<(), ConstraintError>)
        ensures
            r is Ok <==> self.signatures(signers@),
            r is Err ==> r == Err::<(), ConstraintError>(ConstraintError::MissingSigner),
    {
        if has_signed(signers, &self.owner) {
            Ok(())
        } else {
            Err(ConstraintError::MissingSigner)
        }
    }

    /// Refuses a name of more than `MAX_PROFILE_NAME_LENGTH` characters, then
    /// a details URI of more than `MAX_URI_LENGTH` characters.
    pub fn validate(args: &CreateArgs) -> (r: Result<(), ProfileError>)
        ensures
            r == validation(args.name@, opt_view(args.details_uri)),
            r is Ok <==> args.name@.len() <= 30 && (args.details_uri matches Some(u) ==> u@.len() <= 200),
            args.name@.len() > 30 ==> r == Err::<(), ProfileError>(ProfileError::AliasCharLengthExceeded),
    {
        if char_count_exceeds(args.name.as_str(), MAX_PROFILE_NAME_LENGTH) {
            return Err(ProfileError::AliasCharLengthExceeded);
        }
        if let Some(uri) = &args.details_uri {
            if char_count_exceeds(uri.as_str(), MAX_URI_LENGTH) {
                return Err(ProfileError::URICharLengthExceeded);
            }
        }
        Ok(())
    }

    /// The seeds of the profile's address for the name in `args`.
    pub fn profile_seeds(args: &CreateArgs) -> (seeds: Vec<Vec<u8>>)
        ensures
            seeds.deep_view() == profile_seeds(args.name@),
    {
        let mut seeds: Vec<Vec<u8>> = Vec::new();
        seeds.push(profile_tag_bytes());
        seeds.push(vstd::slice::slice_to_vec(args.name.as_str().as_bytes()));
        proof {
            lemma_seed_views(&seeds);
        }
        assert(seeds.deep_view() =~= profile_seeds(args.name@));
        seeds
    }

    /// The rule of the accounts for the new profile: it must sit at the
    /// canonical address of its seeds for this program, with the bump that
    /// the arguments name, and it must be free. A name of more than 32 bytes
    /// cannot be a seed; a program panics there.
    pub fn check(&self, args: &CreateArgs, program_id: &Key, profile_state: &AccountState) -> (r: Result<(), ConstraintError>)
        requires
            encode_utf8(args.name@).len() <= 32,
        ensures
            r is Ok <==> init_accepted(self.profile, profile_seeds(args.name@), args.bump, *program_id, *profile_state),
            r is Err ==> r == Err::<(), ConstraintError>(
                init_refusal(self.profile, profile_seeds(args.name@), args.bump, *program_id, *profile_state),
            ),
    {
        let seeds = Create::profile_seeds(args);
        proof {
            lemma_seed_views(&seeds);
        }
        check_init(&self.profile, &seeds, args.bump, program_id, profile_state)
    }
}

impl AddDelegate {
    /// The `has_one = owner` rule of the accounts: the profile's owner must
    /// be the owner handed in.
    pub fn check(&self, profile: &Profile) -> (r: Result<(), ConstraintError>)
        ensures
            r is Ok <==> profile.owner@ == self.owner@,
            r is Err ==> r == Err::<(), ConstraintError>(ConstraintError::HasOne),
    {
        if profile.owner.same_as(&self.owner) {
            Ok(())
        } else {
            Err(ConstraintError::HasOne)
        }
    }
}

/// What `create` asks of the system program: the calls that create the
/// profile's account, signed with `profile_signer_seeds`.
pub struct CreatePlan {
    pub profile_signer_seeds: Vec<Vec<u8>>,
    pub create_profile_account: Vec<Invocation>,
}

/// Why `create` would refuse, if it would: the owner's missing signature
/// first, then the rule of the profile's account, then the validation of the
/// arguments, then a record too long for the profile's space.
/// `delegate_count` is the number of delegates that the record holds.
pub open spec fn create_refusal(
    accounts: Create,
    name: Seq<char>,
    details_uri: Option<Seq<char>>,
    bump: u8,
    program_id: Key,
    profile_state: AccountState,
    signers: Seq<Key>,
    delegate_count: nat,
) -> Option<InstructionError<ProfileError>> {
    if !accounts.signatures(signers) {
        Some(InstructionError::Accounts(ConstraintError::MissingSigner))
    } else if !init_accepted(accounts.profile, profile_seeds(name), bump, program_id, profile_state) {
        Some(InstructionError::Accounts(init_refusal(accounts.profile, profile_seeds(name), bump, program_id, profile_state)))
    } else {
        match validation(name, details_uri) {
            Err(e) => Some(InstructionError::Program(e)),
            Ok(()) => if profile_stored_len(name, stored_uri(details_uri), delegate_count) > PROFILE_SPACE {
                Some(InstructionError::Storage(StorageError::AccountDidNotSerialize))
            } else {
                None
            },
        }
    }
}

/// The profile as `create` fills it in from `old`.
pub open spec fn records_profile(old: Profile, new: Profile, accounts: Create, args: CreateArgs) -> bool {
    &&& new.name@ == args.name@
    &&& new.bump == args.bump
    &&& new.details_uri@ == (match args.details_uri {
        Some(uri) => uri@,
        None => Seq::<char>::empty(),
    })
    &&& new.owner == accounts.owner
    &&& new.name@.len() <= MAX_PROFILE_NAME_LENGTH
    &&& new.details_uri@.len() <= MAX_URI_LENGTH
    &&& new.delegates@ == old.delegates@
}

/// What an accepted creation stores, field by field: the name, the bump
/// and the details URI of the arguments (an empty URI when none is given),
/// the owner of the accounts, a name of at most 30 characters and a URI of at
/// most 200, and the rest of the record as it was.
pub proof fn lemma_created_profile(old: Profile, new: Profile, accounts: Create, args: CreateArgs)
    requires
        records_profile(old, new, accounts, args),
    ensures
        new.name@ == args.name@,
        new.bump == args.bump,
        new.owner == accounts.owner,
        args.details_uri matches Some(u) ==> new.details_uri@ == u@,
        args.details_uri is None ==> new.details_uri@.len() == 0,
        new.name@.len() <= 30,
        new.details_uri@.len() <= 200,
        new.delegates@ == old.delegates@,
{
}

/// Creates a profile. It is refused when the owner did not sign, then when
/// the profile's account breaks its rule (see `Create::check`), then when the
/// arguments fail validation, then when the profile would not fit its space;
/// a refused profile is left as it was. Otherwise it plans the creation of
/// the profile's account (the space of a profile, owned by this program, paid
/// by the owner) and fills in the profile: the name, the bump and the details
/// URI (empty when none is given) from the arguments, the owner from the
/// accounts. A name of more than 32 bytes cannot be a seed; a program panics
/// there.
///
/// `signers` are the accounts that signed the transaction, `profile_state`
/// what the profile's account holds now and `profile_minimum_balance` the
/// rent-exempt minimum of its space.
pub fn create(
    accounts: &Create,
    profile: &mut Profile,
    args: CreateArgs,
    program_id: &Key,
    profile_state: &AccountState,
    profile_minimum_balance: u64,
    signers: &Vec<Key>,
) -> (r: Result<CreatePlan, InstructionError<ProfileError>>)
    requires
        encode_utf8(args.name@).len() <= 32,
    ensures
        r is Ok <==> create_refusal(
            *accounts, args.name@, opt_view(args.details_uri), args.bump, *program_id, *profile_state,
            signers@, old(profile).delegates@.len(),
        ) is None,
        r matches Err(e) ==> {
            &&& create_refusal(
                *accounts, args.name@, opt_view(args.details_uri), args.bump, *program_id, *profile_state,
                signers@, old(profile).delegates@.len(),
            ) == Some(e)
            &&& *final(profile) == *old(profile)
        },
        r matches Ok(plan) ==> {
            &&& plan.profile_signer_seeds.deep_view() == profile_seeds(args.name@).push(seq![args.bump])
            &&& initializes_account(
                plan.create_profile_account@,
                accounts.owner,
                accounts.profile,
                profile_state.lamports,
                profile_minimum_balance,
                PROFILE_SPACE as u64,
                program_id@,
            )
            &&& records_profile(*old(profile), *final(profile), *accounts, args)
        },
        r is Ok ==> {
            &&& final(profile).name@ == args.name@
            &&& final(profile).bump == args.bump
            &&& final(profile).owner == accounts.owner
            &&& final(profile).details_uri@ == (if args.details_uri is Some { args.details_uri->0@ } else { Seq::<char>::empty() })
        },
        r matches Ok(plan) ==> (profile_state.lamports == 0 || profile_state.lamports < profile_minimum_balance) ==> {
            &&& plan.create_profile_account@.len() >= 1
            &&& plan.create_profile_account@[0].instruction.program_id@ == system_program_address()
            &&& plan.create_profile_account@[0].instruction.accounts@[0].key@ == accounts.owner@
            &&& plan.create_profile_account@[0].instruction.accounts@[0].is_signer
            &&& plan.create_profile_account@[0].instruction.accounts@[1].key@ == accounts.profile@
        },
        r matches Ok(plan) ==> profile_state.lamports == 0 ==> {
            &&& plan.create_profile_account@.len() == 1
            &&& plan.create_profile_account@[0].signed
            &&& plan.create_profile_account@[0].instruction.data@
                == variant_tag(0) + le_bytes(profile_minimum_balance) + le_bytes(447) + program_id@
        },
{
    if let Err(e) = accounts.check_signers(signers) {
        return Err(InstructionError::Accounts(e));
    }
    if let Err(e) = accounts.check(&args, program_id, profile_state) {
        return Err(InstructionError::Accounts(e));
    }
    if let Err(e) = Create::validate(&args) {
        return Err(InstructionError::Program(e));
    }
    let fits = match &args.details_uri {
        Some(uri) => profile_fits(args.name.as_str(), uri.as_str(), profile.delegates.len(), PROFILE_SPACE),
        None => {
            let empty = String::new();
            profile_fits(args.name.as_str(), empty.as_str(), profile.delegates.len(), PROFILE_SPACE)
        },
    };
    if !fits {
        return Err(InstructionError::Storage(StorageError::AccountDidNotSerialize));
    }
    let profile_signer_seeds = with_bump(Create::profile_seeds(&args), args.bump);
    let create_profile_account = init_account(
        &accounts.owner,
        &accounts.profile,
        profile_state.lamports,
        profile_minimum_balance,
        Profile::max_space(),
        program_id,
    );
    profile.name = args.name;
    profile.bump = args.bump;
    profile.details_uri = match args.details_uri {
        Some(uri) => uri,
        None => String::new(),
    };
    profile.owner = accounts.owner;
    proof {
        if profile_state.lamports == 0 || profile_state.lamports < profile_minimum_balance {
            lemma_initialization_paid_by(
                create_profile_account@, accounts.owner, accounts.profile, profile_state.lamports,
                profile_minimum_balance, PROFILE_SPACE as u64, program_id@,
            );
        }
    }
    Ok(CreatePlan { profile_signer_seeds, create_profile_account })
}

/// At most one profile exists per name, whoever owns it, at the address of
/// its seeds. Once a creation for a name has been accepted, any later
/// creation for the same name by the same program is refused, whatever
/// account, bump, owner, details and signatures it names: the only address
/// its rule accepts is the first one, and that account now holds the
/// profile's space. Nothing here bounds the name's length.
pub proof fn lemma_one_profile_per_name(
    first: Create,
    first_name: Seq<char>,
    first_bump: u8,
    first_state: AccountState,
    second: Create,
    second_name: Seq<char>,
    second_details_uri: Option<Seq<char>>,
    second_bump: u8,
    second_state: AccountState,
    second_signers: Seq<Key>,
    second_delegate_count: nat,
    program_id: Key,
)
    requires
        init_accepted(first.profile, profile_seeds(first_name), first_bump, program_id, first_state),
        second_name == first_name,
        second.profile@ == first.profile@ ==> second_state.data_len == PROFILE_SPACE,
    ensures
        canonical_program_address(profile_seeds(first_name), program_id@) == Some((first.profile@, first_bump)),
        !init_accepted(second.profile, profile_seeds(second_name), second_bump, program_id, second_state),
        create_refusal(
            second, second_name, second_details_uri, second_bump, program_id, second_state,
            second_signers, second_delegate_count,
        ) is Some,
{
}

/// A creation is refused, and so changes no profile and plans nothing,
/// whenever the owner did not sign, or the profile's account is not at the
/// canonical address of the name's seeds with the bump named, or is not
/// free: a profile only ever sits at the address of its name.
pub proof fn lemma_refused_creations(
    accounts: Create,
    name: Seq<char>,
    details_uri: Option<Seq<char>>,
    bump: u8,
    program_id: Key,
    profile_state: AccountState,
    signers: Seq<Key>,
    delegate_count: nat,
)
    ensures
        !signed_by(signers, accounts.owner)
            ==> create_refusal(accounts, name, details_uri, bump, program_id, profile_state, signers, delegate_count) is Some,
        canonical_program_address(profile_seeds(name), program_id@) != Some((accounts.profile@, bump))
            ==> create_refusal(accounts, name, details_uri, bump, program_id, profile_state, signers, delegate_count) is Some,
        !is_free(profile_state)
            ==> create_refusal(accounts, name, details_uri, bump, program_id, profile_state, signers, delegate_count) is Some,
{
}

/// Why `add_delegate` would refuse, if it would: the owner's missing
/// signature first, then a profile that names another owner, then the
/// delegate's missing signature, then a profile that would no longer fit its
/// account's `profile_data_len` bytes with one more delegate.
pub open spec fn delegate_refusal(accounts: AddDelegate, profile: Profile, signers: Seq<Key>, profile_data_len: usize) -> Option<CreationError> {
    if !signed_by(signers, accounts.owner) {
        Some(CreationError::Accounts(ConstraintError::MissingSigner))
    } else if profile.owner@ != accounts.owner@ {
        Some(CreationError::Accounts(ConstraintError::HasOne))
    } else if !signed_by(signers, accounts.delegate) {
        Some(CreationError::Accounts(ConstraintError::Signer))
    } else if profile_stored_len(profile.name@, profile.details_uri@, profile.delegates@.len() + 1) > profile_data_len {
        Some(CreationError::Storage(StorageError::AccountDidNotSerialize))
    } else {
        None
    }
}

/// Adds the delegate of the accounts to the end of the profile's delegates,
/// and changes nothing else. It is refused, with the profile left as it was,
/// when the owner did not sign, then when the profile names another owner
/// (see `AddDelegate::check`), then when the delegate did not sign, then when
/// the grown profile would not fit its account.
///
/// `signers` are the accounts that signed the transaction and
/// `profile_data_len` the length of the profile account's data.
pub fn add_delegate(accounts: &AddDelegate, profile: &mut Profile, signers: &Vec<Key>, profile_data_len: usize) -> (r: Result<(), CreationError>)
    ensures
        r is Ok <==> delegate_refusal(*accounts, *old(profile), signers@, profile_data_len) is None,
        r matches Err(e) ==> {
            &&& delegate_refusal(*accounts, *old(profile), signers@, profile_data_len) == Some(e)
            &&& *final(profile) == *old(profile)
        },
        r is Ok ==> {
            &&& final(profile).delegates@ == old(profile).delegates@.push(accounts.delegate)
            &&& final(profile).owner == old(profile).owner
            &&& final(profile).bump == old(profile).bump
            &&& final(profile).name == old(profile).name
            &&& final(profile).details_uri == old(profile).details_uri
        },
{
    if !has_signed(signers, &accounts.owner) {
        return Err(CreationError::Accounts(ConstraintError::MissingSigner));
    }
    if let Err(e) = accounts.check(profile) {
        return Err(CreationError::Accounts(e));
    }
    if !has_signed(signers, &accounts.delegate) {
        return Err(CreationError::Accounts(ConstraintError::Signer));
    }
    let count = profile.delegates.len();
    if count == usize::MAX
        || !profile_fits(profile.name.as_str(), profile.details_uri.as_str(), count + 1, profile_data_len) {
        return Err(CreationError::Storage(StorageError::AccountDidNotSerialize));
    }
    profile.delegates.push(accounts.delegate);
    Ok(())
}

} // verus!
