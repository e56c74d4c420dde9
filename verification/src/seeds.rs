use vstd::prelude::*;

verus! {

/// The ASCII bytes of `achievement`.
pub open spec fn achievement_tag() -> Seq<u8> {
    seq![97u8, 99u8, 104u8, 105u8, 101u8, 118u8, 101u8, 109u8, 101u8, 110u8, 116u8]
}

/// The ASCII bytes of `achievement_token_holding`.
pub open spec fn token_holding_tag() -> Seq<u8> {
    achievement_tag() + seq![95u8, 116u8, 111u8, 107u8, 101u8, 110u8, 95u8, 104u8, 111u8, 108u8, 100u8, 105u8, 110u8, 103u8]
}

/// The ASCII bytes of `profile`.
pub open spec fn profile_tag() -> Seq<u8> {
    seq![112u8, 114u8, 111u8, 102u8, 105u8, 108u8, 101u8]
}

/// Each seed of a list is, by its view, the matching entry of the list's deep view.
pub proof fn lemma_seed_views(seeds: &Vec<Vec<u8>>)
    ensures
        seeds.deep_view().len() == seeds@.len(),
        forall|i: int| 0 <= i < seeds@.len() ==> #[trigger] seeds@[i]@ == seeds.deep_view()[i],
{
    assert forall|i: int| 0 <= i < seeds@.len() implies #[trigger] seeds@[i]@ == seeds.deep_view()[i] by {
        assert(seeds@[i]@ =~= seeds@[i].deep_view());
    }
}

/// An owned copy of a seed list.
pub fn seed_list(seeds: &[&[u8]]) -> (v: Vec<Vec<u8>>)
    ensures
        v.deep_view() == seeds.deep_view(),
{
    let mut v: Vec<Vec<u8>> = Vec::new();
    let mut i: usize = 0;
    while i < seeds.len()
        invariant
            0 <= i <= seeds@.len(),
            v@.len() == i,
            forall|j: int| 0 <= j < i ==> #[trigger] v@[j]@ == seeds@[j]@,
        decreases seeds@.len() - i,
    {
        v.push(vstd::slice::slice_to_vec(seeds[i]));
        i = i + 1;
    }
    proof {
        lemma_seed_views(&v);
        assert forall|j: int| 0 <= j < seeds@.len() implies #[trigger] seeds@[j].deep_view() == seeds@[j]@ by {
            assert(seeds@[j].deep_view() =~= seeds@[j]@);
        }
    }
    assert(v.deep_view() =~= seeds.deep_view());
    v
}

/// A seed list followed by a bump: the seeds with which a program signs for
/// the address they give.
pub fn with_bump(seeds: Vec<Vec<u8>>, bump: u8) -> (signer: Vec<Vec<u8>>)
    ensures
        signer.deep_view() == seeds.deep_view().push(seq![bump]),
{
    let mut signer = seeds;
    let b: Vec<u8> = vec![bump];
    assert(b@ =~= seq![bump]);
    proof {
        lemma_seed_views(&signer);
    }
    let ghost before = signer.deep_view();
    signer.push(b);
    proof {
        lemma_seed_views(&signer);
    }
    assert(signer.deep_view() =~= before.push(seq![bump]));
    signer
}

/// `b"achievement"`.
pub fn achievement_tag_bytes() -> (v: Vec<u8>)
    ensures
        v@ == achievement_tag(),
{
    let v: Vec<u8> = vec![97u8, 99u8, 104u8, 105u8, 101u8, 118u8, 101u8, 109u8, 101u8, 110u8, 116u8];
    assert(v@ =~= achievement_tag());
    v
}

/// `b"achievement_token_holding"`.
pub fn token_holding_tag_bytes() -> (v: Vec<u8>)
    ensures
        v@ == token_holding_tag(),
{
    let v: Vec<u8> = vec![
        97u8, 99u8, 104u8, 105u8, 101u8, 118u8, 101u8, 109u8, 101u8, 110u8, 116u8, 95u8, 116u8,
        111u8, 107u8, 101u8, 110u8, 95u8, 104u8, 111u8, 108u8, 100u8, 105u8, 110u8, 103u8,
    ];
    assert(v@ =~= token_holding_tag());
    v
}

/// `b"profile"`.
pub fn profile_tag_bytes() -> (v: Vec<u8>)
    ensures
        v@ == profile_tag(),
{
    let v: Vec<u8> = vec![112u8, 114u8, 111u8, 102u8, 105u8, 108u8, 101u8];
    assert(v@ =~= profile_tag());
    v
}

} // verus!
