use vstd::prelude::*;
use crate::pubkey::Pubkey;

verus! {

/// The 32-byte sha256 digest of a byte sequence, as the host's hasher
/// computes it. It depends on the bytes alone.
pub uninterp spec fn sha256_of(bytes: Seq<u8>) -> Seq<u8>;

/// The derived address and bump that a seed list yields, searching bumps
/// from the highest down. It depends on the seeds and program id alone.
pub uninterp spec fn find_pda_of(seeds: Seq<Seq<u8>>, program_id: Seq<u8>) -> Option<(Seq<u8>, u8)>;

/// The derived address that a full seed list (bump included) yields, or
/// nothing when the seeds are out of shape or land on the curve. It depends
/// on the seeds and program id alone.
pub uninterp spec fn create_pda_of(seeds: Seq<Seq<u8>>, program_id: Seq<u8>) -> Option<Seq<u8>>;

/// The pair an optional derived (address, bump) stands for.
pub open spec fn pda_pair_view(r: Option<([u8; 32], u8)>) -> Option<(Seq<u8>, u8)> {
    match r {
        Some(p) => Some((p.0@, p.1)),
        None => None,
    }
}

/// The address an optional derived address stands for.
pub open spec fn pda_key_view(r: Option<[u8; 32]>) -> Option<Seq<u8>> {
    match r {
        Some(k) => Some(k@),
        None => None,
    }
}

/// Relies on solana_program's sha256 `hash::hash`: a 32-byte digest of the
/// input bytes alone.
#[verifier::external_body]
pub fn sha256(bytes: &Vec<u8>) -> (r: [u8; 32])
    ensures
        r@ == sha256_of(bytes@),
{
    anchor_lang::solana_program::hash::hash(bytes.as_slice()).to_bytes()
}

/// Relies on `Pubkey::try_find_program_address`: searches bump seeds from
/// the highest down and returns the first off-curve derived address with its
/// bump; the returned address equals the one derived from the same seeds
/// with that bump appended.
#[verifier::external_body]
pub fn try_find_pda(seeds: &Vec<Vec<u8>>, program_id: &Pubkey) -> (r: Option<([u8; 32], u8)>)
    ensures
        pda_pair_view(r) == find_pda_of(seeds.deep_view(), program_id@),
        r matches Some(p) ==> create_pda_of(
            seeds.deep_view().push(seq![p.1]),
            program_id@,
        ) == Some(p.0@),
{
    let seed_slices: Vec<&[u8]> = seeds.iter().map(|s| s.as_slice()).collect();
    let pid = anchor_lang::solana_program::pubkey::Pubkey::new_from_array(program_id.bytes);
    anchor_lang::solana_program::pubkey::Pubkey::try_find_program_address(&seed_slices, &pid)
        .map(|(key, bump)| (key.to_bytes(), bump))
}

/// Relies on `Pubkey::create_program_address`: derives the address a full
/// seed list yields, or fails when a seed is out of shape or the result
/// lands on the curve.
#[verifier::external_body]
pub fn create_pda(seeds: &Vec<Vec<u8>>, program_id: &Pubkey) -> (r: Option<[u8; 32]>)
    ensures
        pda_key_view(r) == create_pda_of(seeds.deep_view(), program_id@),
{
    let seed_slices: Vec<&[u8]> = seeds.iter().map(|s| s.as_slice()).collect();
    let pid = anchor_lang::solana_program::pubkey::Pubkey::new_from_array(program_id.bytes);
    anchor_lang::solana_program::pubkey::Pubkey::create_program_address(&seed_slices, &pid)
        .ok()
        .map(|key| key.to_bytes())
}

/// Domain prefix seed: the bytes of "super_txn".
pub open spec fn spec_seed_prefix() -> Seq<u8> {
    seq![115u8, 117u8, 112u8, 101u8, 114u8, 95u8, 116u8, 120u8, 110u8]
}

/// Ephemeral-signer tag seed: the bytes of "ephemeral_signer".
pub open spec fn spec_seed_ephemeral_signer() -> Seq<u8> {
    seq![
        101u8, 112u8, 104u8, 101u8, 109u8, 101u8, 114u8, 97u8, 108u8, 95u8, 115u8, 105u8,
        103u8, 110u8, 101u8, 114u8,
    ]
}

pub fn seed_prefix() -> (r: Vec<u8>)
    ensures
        r@ == spec_seed_prefix(),
{
    let v: Vec<u8> = vec![115u8, 117u8, 112u8, 101u8, 114u8, 95u8, 116u8, 120u8, 110u8];
    proof {
        assert(v@ =~= spec_seed_prefix());
    }
    v
}

pub fn seed_ephemeral_signer() -> (r: Vec<u8>)
    ensures
        r@ == spec_seed_ephemeral_signer(),
{
    let v: Vec<u8> = vec![
        101u8, 112u8, 104u8, 101u8, 109u8, 101u8, 114u8, 97u8, 108u8, 95u8, 115u8, 105u8,
        103u8, 110u8, 101u8, 114u8,
    ];
    proof {
        assert(v@ =~= spec_seed_ephemeral_signer());
    }
    v
}

/// The seed tuple that scopes one ephemeral signer to one transaction slot:
/// (domain prefix, transaction address, ephemeral tag, signer index).
pub open spec fn eph_signer_seeds(transaction_key: Seq<u8>, index: u8) -> Seq<Seq<u8>> {
    seq![spec_seed_prefix(), transaction_key, spec_seed_ephemeral_signer(), seq![index]]
}

/// What searching a bump for ephemeral signer `index` of the transaction at
/// `transaction_key` yields.
pub open spec fn eph_find(transaction_key: Seq<u8>, program_id: Seq<u8>, index: u8) -> Option<
    (Seq<u8>, u8),
> {
    find_pda_of(eph_signer_seeds(transaction_key, index), program_id)
}

/// What re-deriving the ephemeral signer `index` from a stored bump yields.
pub open spec fn eph_create(
    transaction_key: Seq<u8>,
    program_id: Seq<u8>,
    index: u8,
    bump: u8,
) -> Option<Seq<u8>> {
    create_pda_of(eph_signer_seeds(transaction_key, index).push(seq![bump]), program_id)
}

/// Builds the executable seed tuple for ephemeral signer `index`.
fn build_eph_seeds(transaction_key: &Pubkey, index: u8) -> (r: Vec<Vec<u8>>)
    ensures
        r.deep_view() == eph_signer_seeds(transaction_key@, index),
{
    let mut seeds: Vec<Vec<u8>> = Vec::new();
    seeds.push(seed_prefix());
    let mut key_bytes: Vec<u8> = Vec::new();
    let mut i: usize = 0;
    while i < 32
        invariant
            i <= 32,
            key_bytes@.len() == i,
            forall|j: int| 0 <= j < i ==> key_bytes@[j] == transaction_key.bytes@[j],
        decreases 32 - i,
    {
        key_bytes.push(transaction_key.bytes[i]);
        i += 1;
    }
    proof {
        assert(key_bytes@ =~= transaction_key@);
    }
    seeds.push(key_bytes);
    seeds.push(seed_ephemeral_signer());
    let mut index_bytes: Vec<u8> = Vec::new();
    index_bytes.push(index);
    proof {
        assert(index_bytes@ =~= seq![index]);
    }
    seeds.push(index_bytes);
    proof {
        assert(seeds.deep_view() =~~= eph_signer_seeds(transaction_key@, index));
    }
    seeds
}

/// Searches the derivation bump of each of the `count` ephemeral signers of
/// the transaction at `transaction_key`. Yields the bump list exactly when
/// every derivation succeeds.
pub fn derive_ephemeral_signer_bumps(
    transaction_key: &Pubkey,
    program_id: &Pubkey,
    count: u8,
) -> (r: Option<Vec<u8>>)
    ensures
        r is Some <==> (forall|i: u8|
            i < count ==> eph_find(transaction_key@, program_id@, i) is Some),
        r matches Some(bumps) ==> {
            &&& bumps@.len() == count as int
            &&& forall|i: u8|
                i < count ==> eph_find(transaction_key@, program_id@, i) == Some(
                    (eph_key_of(transaction_key@, program_id@, i), bumps@[i as int]),
                )
        },
{
    let mut bumps: Vec<u8> = Vec::new();
    let mut i: u8 = 0;
    while i < count
        invariant
            i <= count,
            bumps@.len() == i as int,
            forall|j: u8|
                j < i ==> eph_find(transaction_key@, program_id@, j) == Some(
                    (eph_key_of(transaction_key@, program_id@, j), bumps@[j as int]),
                ),
        decreases count - i,
    {
        let seeds = build_eph_seeds(transaction_key, i);
        match try_find_pda(&seeds, program_id) {
            Some((_key, bump)) => {
                bumps.push(bump);
            },
            None => {
                proof {
                    assert(eph_find(transaction_key@, program_id@, i) is None);
                }
                return None;
            },
        }
        i += 1;
    }
    Some(bumps)
}

/// The address component of a successful ephemeral-signer search.
pub open spec fn eph_key_of(transaction_key: Seq<u8>, program_id: Seq<u8>, index: u8) -> Seq<u8> {
    eph_find(transaction_key, program_id, index)->Some_0.0
}

/// What re-deriving the ephemeral signer at position `i` of a stored bump
/// list yields.
pub open spec fn eph_create_at(
    transaction_key: Seq<u8>,
    program_id: Seq<u8>,
    bumps: Seq<u8>,
    i: int,
) -> Option<Seq<u8>> {
    eph_create(transaction_key, program_id, i as u8, bumps[i])
}

/// The full seed tuple (bump included) of the ephemeral signer at position
/// `i` of a stored bump list.
pub open spec fn eph_full_seeds(transaction_key: Seq<u8>, bumps: Seq<u8>, i: int) -> Seq<Seq<u8>> {
    eph_signer_seeds(transaction_key, i as u8).push(seq![bumps[i]])
}

/// Re-derives the ephemeral signer identities of a transaction from its
/// stored bump list, together with the full seed tuples that prove control
/// over them. Yields the identities exactly when every stored bump
/// reproduces a valid derivation.
pub fn derive_ephemeral_signers(
    transaction_key: &Pubkey,
    ephemeral_signer_bumps: &Vec<u8>,
    program_id: &Pubkey,
) -> (r: Option<(Vec<Pubkey>, Vec<Vec<Vec<u8>>>)>)
    requires
        ephemeral_signer_bumps@.len() <= 255,
    ensures
        r is Some <==> (forall|i: int|
            0 <= i < ephemeral_signer_bumps@.len() ==> eph_create_at(
                transaction_key@,
                program_id@,
                ephemeral_signer_bumps@,
                i,
            ) is Some),
        r matches Some(derived) ==> {
            &&& derived.0@.len() == ephemeral_signer_bumps@.len()
            &&& derived.1@.len() == ephemeral_signer_bumps@.len()
            &&& forall|i: int|
                0 <= i < ephemeral_signer_bumps@.len() ==> eph_create_at(
                    transaction_key@,
                    program_id@,
                    ephemeral_signer_bumps@,
                    i,
                ) == Some(derived.0@[i]@)
            &&& forall|i: int|
                0 <= i < ephemeral_signer_bumps@.len() ==> derived.1@[i].deep_view()
                    == eph_full_seeds(transaction_key@, ephemeral_signer_bumps@, i)
        },
{
    let mut keys: Vec<Pubkey> = Vec::new();
    let mut all_seeds: Vec<Vec<Vec<u8>>> = Vec::new();
    let mut i: usize = 0;
    while i < ephemeral_signer_bumps.len()
        invariant
            i <= ephemeral_signer_bumps@.len(),
            ephemeral_signer_bumps@.len() <= 255,
            keys@.len() == i as int,
            all_seeds@.len() == i as int,
            forall|j: int|
                0 <= j < i as int ==> eph_create_at(
                    transaction_key@,
                    program_id@,
                    ephemeral_signer_bumps@,
                    j,
                ) == Some(keys@[j]@),
            forall|j: int|
                0 <= j < i as int ==> all_seeds@[j].deep_view() == eph_full_seeds(
                    transaction_key@,
                    ephemeral_signer_bumps@,
                    j,
                ),
        decreases ephemeral_signer_bumps@.len() - i,
    {
        let bump = ephemeral_signer_bumps[i];
        let mut seeds = build_eph_seeds(transaction_key, i as u8);
        let mut bump_bytes: Vec<u8> = Vec::new();
        bump_bytes.push(bump);
        proof {
            assert(bump_bytes@ =~= seq![bump]);
        }
        seeds.push(bump_bytes);
        proof {
            assert(seeds.deep_view() =~~= eph_signer_seeds(transaction_key@, i as u8).push(
                seq![bump],
            ));
            assert(seeds.deep_view() == eph_full_seeds(
                transaction_key@,
                ephemeral_signer_bumps@,
                i as int,
            ));
        }
        match create_pda(&seeds, program_id) {
            Some(key) => {
                keys.push(Pubkey { bytes: key });
                all_seeds.push(seeds);
            },
            None => {
                proof {
                    assert(eph_create_at(
                        transaction_key@,
                        program_id@,
                        ephemeral_signer_bumps@,
                        i as int,
                    ) is None);
                }
                return None;
            },
        }
        i += 1;
    }
    Some((keys, all_seeds))
}

} // verus!
