//! Account addresses and the program-derived addresses of the escrow slot and
//! of the redemption record.
use anchor_lang::prelude::Pubkey;
use vstd::prelude::*;

verus! {

/// A 32-byte account address.
#[derive(Clone, Copy, Debug, PartialEq, Eq)]
pub struct Address {
    pub bytes: [u8; 32],
}

impl View for Address {
    type V = Seq<u8>;

    open spec fn view(&self) -> Seq<u8> {
        self.bytes@
    }
}

impl Address {
    pub fn new(bytes: [u8; 32]) -> (r: Address)
        ensures
            r@ == bytes@,
    {
        Address { bytes }
    }

    /// Byte-wise comparison of two addresses.
    pub fn same_as(&self, other: &Address) -> (r: bool)
        ensures
            r == (self@ == other@),
    {
        let mut i: usize = 0;
        while i < 32
            invariant
                0 <= i <= 32,
                self@.len() == 32,
                other@.len() == 32,
                forall|j: int| 0 <= j < i ==> self@[j] == other@[j],
            decreases 32 - i,
        {
            if self.bytes[i] != other.bytes[i] {
                return false;
            }
            i = i + 1;
        }
        assert(self@ =~= other@);
        true
    }

    /// The address as a seed.
    pub fn to_seed(&self) -> (r: Vec<u8>)
        ensures
            r@ == self@,
    {
        let mut r: Vec<u8> = Vec::new();
        let mut i: usize = 0;
        while i < 32
            invariant
                0 <= i <= 32,
                self@.len() == 32,
                r@ == self@.subrange(0, i as int),
            decreases 32 - i,
        {
            r.push(self.bytes[i]);
            i = i + 1;
            assert(r@ =~= self@.subrange(0, i as int));
        }
        assert(self@.subrange(0, 32) =~= self@);
        r
    }
}

/// The address that `Pubkey::create_program_address` computes from a list of
/// seeds and a program id, or `None` where it fails (a seed list or seed that is
/// too long, or a digest that lies on the curve).
pub uninterp spec fn program_address(seeds: Seq<Seq<u8>>, program_id: Seq<u8>) -> Option<Seq<u8>>;

/// The seeds list with a one-byte bump seed appended.
pub open spec fn with_bump(seeds: Seq<Seq<u8>>, bump: u8) -> Seq<Seq<u8>> {
    seeds.push(seq![bump])
}

/// The first bump, counting down from `b` to 1, for which the seeds give a
/// program address.
pub open spec fn bump_from(seeds: Seq<Seq<u8>>, program_id: Seq<u8>, b: int) -> Option<u8>
    decreases b,
{
    if b < 1 || b > 255 {
        None
    } else if program_address(with_bump(seeds, b as u8), program_id) is Some {
        Some(b as u8)
    } else {
        bump_from(seeds, program_id, b - 1)
    }
}

/// The canonical bump of a seed list: the largest one in 1..=255 that yields a
/// program address.
pub open spec fn canonical_bump(seeds: Seq<Seq<u8>>, program_id: Seq<u8>) -> Option<u8> {
    bump_from(seeds, program_id, 255)
}

/// The canonical program-derived address of a seed list, with its bump.
pub open spec fn derived_address(seeds: Seq<Seq<u8>>, program_id: Seq<u8>) -> Option<(Seq<u8>, u8)> {
    match canonical_bump(seeds, program_id) {
        Some(b) => Some((program_address(with_bump(seeds, b), program_id).unwrap(), b)),
        None => None,
    }
}

/// Whether `key` is the program address of the seeds under the given bump.
pub open spec fn is_program_address(key: Seq<u8>, seeds: Seq<Seq<u8>>, bump: u8, program_id: Seq<u8>) -> bool {
    program_address(with_bump(seeds, bump), program_id) == Some(key)
}

/// The fixed label that separates the redemption record from the escrow slot:
/// the ASCII bytes of "redemption".
pub open spec fn redemption_label() -> Seq<u8> {
    seq![114u8, 101, 100, 101, 109, 112, 116, 105, 111, 110]
}

/// Seeds of the escrow slot: the token's mint alone.
pub open spec fn escrow_seeds(mint: Seq<u8>) -> Seq<Seq<u8>> {
    seq![mint]
}

/// Seeds of the redemption record: the token's mint and the fixed label.
pub open spec fn record_seeds(mint: Seq<u8>) -> Seq<Seq<u8>> {
    seq![mint, redemption_label()]
}

/// Relies on `Pubkey::create_program_address`: the derived address of the
/// seeds, or an error.
#[verifier::external_body]
fn create_program_address(seeds: &Vec<Vec<u8>>, program_id: &Address) -> (r: Option<Address>)
    ensures
        match r {
            Some(a) => program_address(seeds.deep_view(), program_id@) == Some(a@),
            None => program_address(seeds.deep_view(), program_id@) is None,
        },
{
    let slices: Vec<&[u8]> = seeds.iter().map(|s| s.as_slice()).collect();
    Pubkey::create_program_address(&slices, &Pubkey::new_from_array(program_id.bytes))
        .ok()
        .map(|k| Address { bytes: k.to_bytes() })
}

/// Relies on `Pubkey::try_find_program_address`: it tries the bump seeds from
/// 255 down to 1 through `create_program_address` and returns the first address
/// found, with its bump.
#[verifier::external_body]
fn try_find_program_address(seeds: &Vec<Vec<u8>>, program_id: &Address) -> (r: Option<(Address, u8)>)
    ensures
        match r {
            Some((a, b)) => derived_address(seeds.deep_view(), program_id@) == Some((a@, b)),
            None => derived_address(seeds.deep_view(), program_id@) is None,
        },
{
    let slices: Vec<&[u8]> = seeds.iter().map(|s| s.as_slice()).collect();
    Pubkey::try_find_program_address(&slices, &Pubkey::new_from_array(program_id.bytes))
        .map(|(k, b)| (Address { bytes: k.to_bytes() }, b))
}

fn label_seed() -> (r: Vec<u8>)
    ensures
        r@ == redemption_label(),
{
    let r: Vec<u8> = vec![114u8, 101, 100, 101, 109, 112, 116, 105, 111, 110];
    assert(r@ =~= redemption_label());
    r
}

proof fn lemma_bytes_deep_view(v: &Vec<u8>)
    ensures
        v.deep_view() == v@,
{
    assert(v.deep_view() =~= v@);
}

/// Appends a seed to a seed list.
fn push_seed(seeds: &mut Vec<Vec<u8>>, seed: Vec<u8>)
    ensures
        final(seeds).deep_view() == old(seeds).deep_view().push(seed@),
{
    proof {
        lemma_bytes_deep_view(&seed);
    }
    let ghost prev = seeds.deep_view();
    seeds.push(seed);
    assert(seeds.deep_view() =~= prev.push(seed@));
}

fn escrow_seed_list(mint: &Address) -> (r: Vec<Vec<u8>>)
    ensures
        r.deep_view() =~= escrow_seeds(mint@),
{
    let mut r: Vec<Vec<u8>> = Vec::new();
    assert(r.deep_view() =~= Seq::<Seq<u8>>::empty());
    push_seed(&mut r, mint.to_seed());
    r
}

fn record_seed_list(mint: &Address) -> (r: Vec<Vec<u8>>)
    ensures
        r.deep_view() =~= record_seeds(mint@),
{
    let mut r: Vec<Vec<u8>> = Vec::new();
    assert(r.deep_view() =~= Seq::<Seq<u8>>::empty());
    push_seed(&mut r, mint.to_seed());
    push_seed(&mut r, label_seed());
    r
}

fn bump_seed(bump: u8) -> (r: Vec<u8>)
    ensures
        r@ == seq![bump],
{
    let r: Vec<u8> = vec![bump];
    assert(r@ =~= seq![bump]);
    r
}

/// The canonical address and bump of the escrow slot of `mint`.
pub fn find_escrow_address(mint: &Address, program_id: &Address) -> (r: Option<(Address, u8)>)
    ensures
        match r {
            Some((a, b)) => derived_address(escrow_seeds(mint@), program_id@) == Some((a@, b)),
            None => derived_address(escrow_seeds(mint@), program_id@) is None,
        },
{
    let seeds = escrow_seed_list(mint);
    try_find_program_address(&seeds, program_id)
}

/// The canonical address and bump of the redemption record of `mint`.
pub fn find_record_address(mint: &Address, program_id: &Address) -> (r: Option<(Address, u8)>)
    ensures
        match r {
            Some((a, b)) => derived_address(record_seeds(mint@), program_id@) == Some((a@, b)),
            None => derived_address(record_seeds(mint@), program_id@) is None,
        },
{
    let seeds = record_seed_list(mint);
    try_find_program_address(&seeds, program_id)
}

/// Whether `key` is the escrow slot of `mint` under the stored bump.
pub fn is_escrow_address(key: &Address, mint: &Address, bump: u8, program_id: &Address) -> (r: bool)
    ensures
        r == is_program_address(key@, escrow_seeds(mint@), bump, program_id@),
{
    let mut seeds = escrow_seed_list(mint);
    push_seed(&mut seeds, bump_seed(bump));
    assert(seeds.deep_view() =~= with_bump(escrow_seeds(mint@), bump));
    match create_program_address(&seeds, program_id) {
        Some(a) => a.same_as(key),
        None => false,
    }
}

/// Whether `key` is the redemption record of `mint` under the stored bump.
pub fn is_record_address(key: &Address, mint: &Address, bump: u8, program_id: &Address) -> (r: bool)
    ensures
        r == is_program_address(key@, record_seeds(mint@), bump, program_id@),
{
    let mut seeds = record_seed_list(mint);
    push_seed(&mut seeds, bump_seed(bump));
    assert(seeds.deep_view() =~= with_bump(record_seeds(mint@), bump));
    match create_program_address(&seeds, program_id) {
        Some(a) => a.same_as(key),
        None => false,
    }
}

} // verus!
