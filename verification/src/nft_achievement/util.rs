use vstd::prelude::*;
use crate::account_util::{creates_account, plan_account_creation, spec_required_lamports, AccountCreation};
use crate::seeds::seed_list;
use crate::key::Key;

verus! {

/// The calls that create `new_account` as an account of `owner` with `size`
/// bytes, paid by `payer`: top it up to the rent-exempt minimum if it lacks
/// lamports, then allocate and assign it, signed with `signer_seeds` when
/// there are any, which the plan carries. `minimum_balance` is the rent-exempt minimum for `size`
/// bytes and `current_lamports` what the account holds now.
pub fn create_account(
    owner: &Key,
    new_account: &Key,
    payer: &Key,
    minimum_balance: u64,
    current_lamports: u64,
    size: usize,
    signer_seeds: Option<&[&[u8]]>,
) -> (plan: AccountCreation)
    ensures
        creates_account(
            plan.invocations@,
            owner@,
            *new_account,
            *payer,
            spec_required_lamports(minimum_balance, current_lamports),
            size as u64,
            signer_seeds is Some,
        ),
        match signer_seeds {
            Some(seeds) => plan.signer_seeds matches Some(carried) && carried.deep_view() == seeds.deep_view(),
            None => plan.signer_seeds is None,
        },
{
    let signed = signer_seeds.is_some();
    let invocations = plan_account_creation(owner, new_account, payer, minimum_balance, current_lamports, size, signed);
    let carried = match signer_seeds {
        Some(seeds) => Some(seed_list(seeds)),
        None => None,
    };
    AccountCreation { invocations, signer_seeds: carried }
}

} // verus!
