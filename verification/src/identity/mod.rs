pub mod error;
pub mod state;

use vstd::prelude::*;
use vstd::utf8::encode_utf8;
use crate::account_util::{
    char_count_exceeds, check_init, has_signed, init_accepted, init_account, init_refusal,
    initializes_account, lemma_initialization_paid_by, signed_by, AccountState, ConstraintError, InstructionError, MaxSpace,
    StorageError,
    MAX_PROFILE_NAME_LENGTH, MAX_URI_LENGTH,
};
use crate::key::Key;
use crate::seeds::{lemma_seed_views, profile_tag, profile_tag_bytes, with_bump};
use crate::system::{canonical_program_address, le_bytes, system_program_address, variant_tag, Invocation};
use self::error::IdentityError;
use self::state::{profile_stored_len, Profile, PROFILE_FIXED_LEN, PROFILE_SPACE};

verus! {

/// The accounts of `create_profile`.
#[derive(Clone, Copy)]
pub struct CreateProfile {
    /// The new profile, at the address that `profile` and the owner give.
    pub profile: Key,
    pub owner: Key,
    /// Pays for the new profile.
    pub payer: Key,
    pub system_program: Key,
}

/// The arguments of `create_profile`.
pub struct CreateProfileArgs {
    pub name: String,
    pub bump: u8,
    pub details_uri: Option<String>,
}

/// The view of an optional string.
pub open spec fn opt_view(s: Option<String>) -> Option<Seq<char>> {
    match s {
        Some(t) => Some(t@),
        None => None,
    }
}

/// What validation answers for a name and an optional details URI: the name
/// is checked first, against the longest profile name, then the URI, when
/// there is one, against the longest URI.
pub open spec fn validation(name: Seq<char>, details_uri: Option<Seq<char>>) -> Result<(), IdentityError> {
    if name.len() > MAX_PROFILE_NAME_LENGTH {
        Err(IdentityError::ProfileNameCharLengthExceeded)
    } else if details_uri is Some && details_uri->0.len() > MAX_URI_LENGTH {
        Err(IdentityError::URICharLengthExceeded)
    } else {
        Ok(())
    }
}

/// Validation measures in characters, not bytes: a name of at most 30
/// characters, whatever its length in bytes, with no URI or a URI of at most
/// 200 characters, is accepted; a longer name is refused for its length
/// first, and otherwise a longer URI for its.
pub proof fn lemma_validation_counts_characters(name: Seq<char>, details_uri: Option<Seq<char>>)
    ensures
        validation(name, details_uri) is Ok <==> name.len() <= 30 && (details_uri matches Some(u) ==> u.len() <= 200),
        name.len() > 30 ==> validation(name, details_uri) == Err::<(), IdentityError>(IdentityError::ProfileNameCharLengthExceeded),
        (details_uri matches Some(u) && u.len() > 200) && name.len() <= 30
            ==> validation(name, details_uri) == Err::<(), IdentityError>(IdentityError::URICharLengthExceeded),
{
}

/// The seeds of a profile's address: `profile` and its owner.
pub open spec fn profile_seeds(owner: Key) -> Seq<Seq<u8>> {
    seq![profile_tag(), owner@]
}

/// The URI that a profile stores for an optional one: empty for none.
pub open spec fn stored_uri(details_uri: Option<Seq<char>>) -> Seq<char> {
    match details_uri {
        Some(u) => u,
        None => Seq::empty(),
    }
}

/// The bytes of an optional URI.
fn uri_byte_len(details_uri: &Option<String>) -> (n: usize)
    ensures
        n == encode_utf8(stored_uri(opt_view(*details_uri))).len(),
{
    match details_uri {
        Some(u) => u.as_str().as_bytes().len(),
        None => {
            assert(encode_utf8(Seq::<char>::empty()) =~= Seq::<u8>::empty()) by {
                reveal_with_fuel(encode_utf8, 1);
            }
            0
        },
    }
}

impl CreateProfile {
    /// The signatures that the accounts need: the owner's and the payer's.
    pub open spec fn signatures(self, signers: Seq<Key>) -> bool {
        signed_by(signers, self.owner) && signed_by(signers, self.payer)
    }

    /// Checks that the owner and the payer signed.
    pub fn check_signers(&self, signers: &Vec<Key>) -> (r: Result<(), ConstraintError>)
        ensures
            r is Ok <==> self.signatures(signers@),
            r is Err ==> r == Err::<(), ConstraintError>(ConstraintError::MissingSigner),
    {
        if has_signed(signers, &self.owner) && has_signed(signers, &self.payer) {
            Ok(())
        } else {
            Err(ConstraintError::MissingSigner)
        }
    }

    /// Refuses a name of more than `MAX_PROFILE_NAME_LENGTH` characters, then
    /// a details URI of more than `MAX_URI_LENGTH` characters.
    pub fn validate(args: &CreateProfileArgs) -> (r: Result<(), IdentityError>)
        ensures
            r == validation(args.name@, opt_view(args.details_uri)),
            r is Ok <==> args.name@.len() <= 30 && (args.details_uri matches Some(u) ==> u@.len() <= 200),
            args.name@.len() > 30 ==> r == Err::<(), IdentityError>(IdentityError::ProfileNameCharLengthExceeded),
    {
        if char_count_exceeds(args.name.as_str(), MAX_PROFILE_NAME_LENGTH) {
            return Err(IdentityError::ProfileNameCharLengthExceeded);
        }
        if let Some(uri) = &args.details_uri {
            if char_count_exceeds(uri.as_str(), MAX_URI_LENGTH) {
                return Err(IdentityError::URICharLengthExceeded);
            }
        }
        Ok(())
    }

    /// The seeds of the profile's address.
    pub fn profile_seeds(&self) -> (seeds: Vec<Vec<u8>>)
        ensures
            seeds.deep_view() == profile_seeds(self.owner),
    {
        let mut seeds: Vec<Vec<u8>> = Vec::new();
        seeds.push(profile_tag_bytes());
        seeds.push(self.owner.to_vec());
        proof {
            lemma_seed_views(&seeds);
        }
        assert(seeds.deep_view() =~= profile_seeds(self.owner));
        seeds
    }

    /// The rule of the accounts for the new profile: it must sit at the
    /// canonical address of its seeds for this program, with the bump that
    /// the arguments name, and it must be free.
    pub fn check(&self, args: &CreateProfileArgs, program_id: &Key, profile_state: &AccountState) -> (r: Result<(), ConstraintError>)
        ensures
            r is Ok <==> init_accepted(self.profile, profile_seeds(self.owner), args.bump, *program_id, *profile_state),
            r is Err ==> r == Err::<(), ConstraintError>(
                init_refusal(self.profile, profile_seeds(self.owner), args.bump, *program_id, *profile_state),
            ),
    {
        let seeds = self.profile_seeds();
        proof {
            lemma_seed_views(&seeds);
        }
        check_init(&self.profile, &seeds, args.bump, program_id, profile_state)
    }
}

/// What `create_profile` asks of the system program: the calls that create
/// the profile's account, signed with `profile_signer_seeds`.
pub struct CreateProfilePlan {
    pub profile_signer_seeds: Vec<Vec<u8>>,
    pub create_profile_account: Vec<Invocation>,
}

/// Why `create_profile` would refuse, if it would: a missing signature
/// first, then the rule of the profile's account, then the validation of the
/// arguments, then a record too long for the profile's space.
pub open spec fn profile_refusal(
    accounts: CreateProfile,
    name: Seq<char>,
    details_uri: Option<Seq<char>>,
    bump: u8,
    program_id: Key,
    profile_state: AccountState,
    signers: Seq<Key>,
) -> Option<InstructionError<IdentityError>> {
    if !accounts.signatures(signers) {
        Some(InstructionError::Accounts(ConstraintError::MissingSigner))
    } else if !init_accepted(accounts.profile, profile_seeds(accounts.owner), bump, program_id, profile_state) {
        Some(InstructionError::Accounts(init_refusal(accounts.profile, profile_seeds(accounts.owner), bump, program_id, profile_state)))
    } else {
        match validation(name, details_uri) {
            Err(e) => Some(InstructionError::Program(e)),
            Ok(()) => if profile_stored_len(name, stored_uri(details_uri)) > PROFILE_SPACE {
                Some(InstructionError::Storage(StorageError::AccountDidNotSerialize))
            } else {
                None
            },
        }
    }
}

/// The profile as `create_profile` fills it in from `old`.
pub open spec fn records_profile(old: Profile, new: Profile, accounts: CreateProfile, args: CreateProfileArgs) -> bool {
    &&& new.name@ == args.name@
    &&& new.bump == args.bump
    &&& new.details_uri@ == (match args.details_uri {
        Some(uri) => uri@,
        None => Seq::<char>::empty(),
    })
    &&& new.owner == accounts.owner
    &&& new.name@.len() <= MAX_PROFILE_NAME_LENGTH
    &&& new.details_uri@.len() <= MAX_URI_LENGTH
    &&& new.achievements_created == old.achievements_created
}

/// What an accepted creation stores, field by field: the name, the bump
/// and the details URI of the arguments (an empty URI when none is given),
/// the owner of the accounts, a name of at most 30 characters and a URI of at
/// most 200, and the rest of the record as it was.
pub proof fn lemma_created_profile(old: Profile, new: Profile, accounts: CreateProfile, args: CreateProfileArgs)
    requires
        records_profile(old, new, accounts, args),
    ensures
        new.name@ == args.name@,
        new.bump == args.bump,
        new.owner == accounts.owner,
        args.details_uri matches Some(u) ==> new.details_uri@ == u@,
        args.details_uri is None ==> new.details_uri@.len() == 0,
        new.name@.len() <= 30,
        new.details_uri@.len() <= 200,
        new.achievements_created == old.achievements_created,
{
}

/// Creates a profile. It is refused when the owner or the payer did not
/// sign, then when the profile's account breaks its rule (see
/// `CreateProfile::check`), then when the arguments fail validation, then
/// when the profile would not fit its space; a refused profile is left as it
/// was. Otherwise it plans the creation of the
/// profile's account (the space of a profile, owned by this program, paid by
/// the payer) and fills in the profile: the name, the bump and the details
/// URI (empty when none is given) from the arguments, the owner from the
/// accounts.
///
/// `signers` are the accounts that signed the transaction, `profile_state`
/// what the profile's account holds now and
/// `profile_minimum_balance` the rent-exempt minimum of its space.
pub fn create_profile(
    accounts: &CreateProfile,
    profile: &mut Profile,
    args: CreateProfileArgs,
    program_id: &Key,
    profile_state: &AccountState,
    profile_minimum_balance: u64,
    signers: &Vec<Key>,
) -> (r: Result<CreateProfilePlan, InstructionError<IdentityError>>)
    ensures
        r is Ok <==> profile_refusal(*accounts, args.name@, opt_view(args.details_uri), args.bump, *program_id, *profile_state, signers@) is None,
        r matches Err(e) ==> {
            &&& profile_refusal(*accounts, args.name@, opt_view(args.details_uri), args.bump, *program_id, *profile_state, signers@) == Some(e)
            &&& *final(profile) == *old(profile)
        },
        r matches Ok(plan) ==> {
            &&& plan.profile_signer_seeds.deep_view() == profile_seeds(accounts.owner).push(seq![args.bump])
            &&& initializes_account(
                plan.create_profile_account@,
                accounts.payer,
                accounts.profile,
                profile_state.lamports,
                profile_minimum_balance,
                PROFILE_SPACE as u64,
                program_id@,
            )
            &&& records_profile(*old(profile), *final(profile), *accounts, args)
        },
        r is Ok ==> {
            &&& final(profile).name@ == args.name@
            &&& final(profile).bump == args.bump
            &&& final(profile).owner == accounts.owner
            &&& final(profile).details_uri@ == (if args.details_uri is Some { args.details_uri->0@ } else { Seq::<char>::empty() })
        },
        r matches Ok(plan) ==> (profile_state.lamports == 0 || profile_state.lamports < profile_minimum_balance) ==> {
            &&& plan.create_profile_account@.len() >= 1
            &&& plan.create_profile_account@[0].instruction.program_id@ == system_program_address()
            &&& plan.create_profile_account@[0].instruction.accounts@[0].key@ == accounts.payer@
            &&& plan.create_profile_account@[0].instruction.accounts@[0].is_signer
            &&& plan.create_profile_account@[0].instruction.accounts@[1].key@ == accounts.profile@
        },
        r matches Ok(plan) ==> profile_state.lamports == 0 ==> {
            &&& plan.create_profile_account@.len() == 1
            &&& plan.create_profile_account@[0].signed
            &&& plan.create_profile_account@[0].instruction.data@
                == variant_tag(0) + le_bytes(profile_minimum_balance) + le_bytes(271) + program_id@
        },
{
    if let Err(e) = accounts.check_signers(signers) {
        return Err(InstructionError::Accounts(e));
    }
    if let Err(e) = accounts.check(&args, program_id, profile_state) {
        return Err(InstructionError::Accounts(e));
    }
    if let Err(e) = CreateProfile::validate(&args) {
        return Err(InstructionError::Program(e));
    }
    let name_len = args.name.as_str().as_bytes().len();
    let uri_len = uri_byte_len(&args.details_uri);
    if name_len > PROFILE_SPACE - PROFILE_FIXED_LEN || uri_len > PROFILE_SPACE - PROFILE_FIXED_LEN - name_len {
        return Err(InstructionError::Storage(StorageError::AccountDidNotSerialize));
    }
    let profile_signer_seeds = with_bump(accounts.profile_seeds(), args.bump);
    let create_profile_account = init_account(
        &accounts.payer,
        &accounts.profile,
        profile_state.lamports,
        profile_minimum_balance,
        Profile::max_space(),
        program_id,
    );
    profile.name = args.name;
    profile.bump = args.bump;
    profile.details_uri = match args.details_uri {
        Some(uri) => uri,
        None => String::new(),
    };
    profile.owner = accounts.owner;
    proof {
        if profile_state.lamports == 0 || profile_state.lamports < profile_minimum_balance {
            lemma_initialization_paid_by(
                create_profile_account@, accounts.payer, accounts.profile, profile_state.lamports,
                profile_minimum_balance, PROFILE_SPACE as u64, program_id@,
            );
        }
    }
    Ok(CreateProfilePlan { profile_signer_seeds, create_profile_account })
}

/// At most one profile exists per owner, at the address of its seeds. Once a
/// creation for an owner has been accepted, any later creation for the same
/// owner by the same program is refused, whatever account, bump and
/// arguments it names: the only address its rule accepts is the first one,
/// and that account now holds the profile's space.
pub proof fn lemma_one_profile_per_owner(
    first: CreateProfile,
    first_bump: u8,
    first_state: AccountState,
    second: CreateProfile,
    second_name: Seq<char>,
    second_details_uri: Option<Seq<char>>,
    second_bump: u8,
    second_state: AccountState,
    second_signers: Seq<Key>,
    program_id: Key,
)
    requires
        init_accepted(first.profile, profile_seeds(first.owner), first_bump, program_id, first_state),
        second.owner@ == first.owner@,
        second.profile@ == first.profile@ ==> second_state.data_len == PROFILE_SPACE,
    ensures
        canonical_program_address(profile_seeds(first.owner), program_id@) == Some((first.profile@, first_bump)),
        profile_refusal(second, second_name, second_details_uri, second_bump, program_id, second_state, second_signers) is Some,
{
    assert(profile_seeds(second.owner) =~= profile_seeds(first.owner));
}

} // verus!
