use vstd::prelude::*;
use crate::address::Address;

verus! {

/// Address found by the host's program-address search for `seeds` under `program`,
/// with the bump byte that the search settled on.
pub uninterp spec fn program_address_search(seeds: Seq<Seq<u8>>, program: Seq<u8>) -> Option<(Seq<u8>, u8)>;

/// Program address that `seeds` (bump included) give under `program`, if they give one.
pub uninterp spec fn program_address_of(seeds: Seq<Seq<u8>>, program: Seq<u8>) -> Option<Seq<u8>>;

/// Seed prefix of the extra-account list address.
pub open spec fn extra_account_metas_tag() -> Seq<u8> {
    seq![101u8, 120, 116, 114, 97, 45, 97, 99, 99, 111, 117, 110, 116, 45, 109, 101, 116, 97, 115]
}

/// Seed of the mint authority address.
pub open spec fn mint_authority_tag() -> Seq<u8> {
    seq![109u8, 105, 110, 116, 45, 97, 117, 116, 104, 111, 114, 105, 116, 121]
}

/// Seeds of the extra-account list that belongs to a governed mint.
pub open spec fn extra_account_metas_seeds(mint: Seq<u8>) -> Seq<Seq<u8>> {
    seq![extra_account_metas_tag(), mint]
}

/// Seeds of the counter mint's authority.
pub open spec fn mint_authority_seeds() -> Seq<Seq<u8>> {
    seq![mint_authority_tag()]
}

/// The seeds followed by the one-byte bump seed.
pub open spec fn with_bump(seeds: Seq<Seq<u8>>, bump: u8) -> Seq<Seq<u8>> {
    seeds.push(seq![bump])
}

pub open spec fn address_view(a: Option<Address>) -> Option<Seq<u8>> {
    match a {
        Some(x) => Some(x@),
        None => None,
    }
}

pub open spec fn found_view(a: Option<(Address, u8)>) -> Option<(Seq<u8>, u8)> {
    match a {
        Some((x, b)) => Some((x@, b)),
        None => None,
    }
}

/// Relies on Pubkey::try_find_program_address: it tries the bump seeds from 255 down and
/// returns the first address that Pubkey::create_program_address gives for the seeds
/// followed by that bump, or None.
#[verifier::external_body]
fn find_program_address(seeds: &Vec<Vec<u8>>, program: &Address) -> (r: Option<(Address, u8)>)
    ensures
        found_view(r) == program_address_search(seeds.deep_view(), program@),
        r matches Some((a, b)) ==> program_address_of(with_bump(seeds.deep_view(), b), program@)
            == Some(a@),
{
    let refs: Vec<&[u8]> = seeds.iter().map(|s| s.as_slice()).collect();
    let program_key = anchor_lang::prelude::Pubkey::new_from_array(program.bytes);
    anchor_lang::prelude::Pubkey::try_find_program_address(&refs, &program_key).map(
        |(key, bump)| (Address { bytes: key.to_bytes() }, bump),
    )
}

/// Relies on Pubkey::create_program_address: the address of the seeds under the program,
/// or an error (too many or too long seeds, or a hash that lies on the curve).
#[verifier::external_body]
fn create_program_address(seeds: &Vec<Vec<u8>>, program: &Address) -> (r: Option<Address>)
    ensures
        address_view(r) == program_address_of(seeds.deep_view(), program@),
{
    let refs: Vec<&[u8]> = seeds.iter().map(|s| s.as_slice()).collect();
    let program_key = anchor_lang::prelude::Pubkey::new_from_array(program.bytes);
    match anchor_lang::prelude::Pubkey::create_program_address(&refs, &program_key) {
        Ok(key) => Some(Address { bytes: key.to_bytes() }),
        Err(_) => None,
    }
}

proof fn lemma_bytes_deep_view(v: Vec<u8>)
    ensures
        v.deep_view() == v@,
{
    assert(v.deep_view() =~= v@);
}

fn extra_account_metas_tag_bytes() -> (r: Vec<u8>)
    ensures
        r@ == extra_account_metas_tag(),
{
    let r = vec![101u8, 120, 116, 114, 97, 45, 97, 99, 99, 111, 117, 110, 116, 45, 109, 101, 116, 97, 115];
    assert(r@ =~= extra_account_metas_tag());
    r
}

pub fn mint_authority_tag_bytes() -> (r: Vec<u8>)
    ensures
        r@ == mint_authority_tag(),
{
    let r = vec![109u8, 105, 110, 116, 45, 97, 117, 116, 104, 111, 114, 105, 116, 121];
    assert(r@ =~= mint_authority_tag());
    r
}

fn address_bytes(a: &Address) -> (r: Vec<u8>)
    ensures
        r@ == a@,
{
    let mut r: Vec<u8> = Vec::new();
    let mut i: usize = 0;
    while i < 32
        invariant
            i <= 32,
            a@.len() == 32,
            r@ == a@.subrange(0, i as int),
        decreases 32 - i,
    {
        r.push(a.bytes[i]);
        i = i + 1;
        assert(r@ =~= a@.subrange(0, i as int));
    }
    assert(a@.subrange(0, 32) =~= a@);
    r
}

/// Seeds of the extra-account list of `mint`, as the host takes them.
pub fn extra_account_metas_seed_list(mint: &Address) -> (r: Vec<Vec<u8>>)
    ensures
        r.deep_view() == extra_account_metas_seeds(mint@),
{
    let mut r: Vec<Vec<u8>> = Vec::new();
    let tag = extra_account_metas_tag_bytes();
    let key = address_bytes(mint);
    proof {
        lemma_bytes_deep_view(tag);
        lemma_bytes_deep_view(key);
    }
    r.push(tag);
    r.push(key);
    assert(r.deep_view()[0] == tag.deep_view());
    assert(r.deep_view()[1] == key.deep_view());
    assert(r.deep_view() =~= extra_account_metas_seeds(mint@));
    r
}

/// Seeds of the mint authority, as the host takes them.
pub fn mint_authority_seed_list() -> (r: Vec<Vec<u8>>)
    ensures
        r.deep_view() == mint_authority_seeds(),
{
    let mut r: Vec<Vec<u8>> = Vec::new();
    let tag = mint_authority_tag_bytes();
    proof {
        lemma_bytes_deep_view(tag);
    }
    r.push(tag);
    assert(r.deep_view()[0] == tag.deep_view());
    assert(r.deep_view() =~= mint_authority_seeds());
    r
}

/// Distinct mints give distinct seeds for their extra-account lists, so the list's
/// address depends on the mint through seeds that never coincide.
pub proof fn lemma_extra_account_metas_seeds_injective(mint1: Seq<u8>, mint2: Seq<u8>)
    requires
        mint1 != mint2,
    ensures
        extra_account_metas_seeds(mint1) != extra_account_metas_seeds(mint2),
{
    assert(extra_account_metas_seeds(mint1)[1] == mint1);
    assert(extra_account_metas_seeds(mint2)[1] == mint2);
}

/// Deriving the extra-account list address is deterministic: two derivations for the same
/// mint and program find the same address and bump.
pub proof fn lemma_extra_account_metas_deterministic(
    mint1: Address,
    mint2: Address,
    program1: Address,
    program2: Address,
    r1: Option<(Address, u8)>,
    r2: Option<(Address, u8)>,
)
    requires
        mint1@ == mint2@,
        program1@ == program2@,
        found_view(r1) == program_address_search(extra_account_metas_seeds(mint1@), program1@),
        found_view(r2) == program_address_search(extra_account_metas_seeds(mint2@), program2@),
    ensures
        found_view(r1) == found_view(r2),
{
}

/// Address and bump of the extra-account list of `mint` under `program`.
pub fn extra_account_metas_address(mint: &Address, program: &Address) -> (r: Option<(Address, u8)>)
    ensures
        found_view(r) == program_address_search(extra_account_metas_seeds(mint@), program@),
        r matches Some((a, b)) ==> program_address_of(
            with_bump(extra_account_metas_seeds(mint@), b),
            program@,
        ) == Some(a@),
{
    let seeds = extra_account_metas_seed_list(mint);
    find_program_address(&seeds, program)
}

/// Address and bump of the counter mint's authority under `program`.
pub fn mint_authority_address(program: &Address) -> (r: Option<(Address, u8)>)
    ensures
        found_view(r) == program_address_search(mint_authority_seeds(), program@),
        r matches Some((a, b)) ==> program_address_of(with_bump(mint_authority_seeds(), b), program@)
            == Some(a@),
{
    let seeds = mint_authority_seed_list();
    find_program_address(&seeds, program)
}

/// The seeds followed by the one-byte bump seed, as the host takes them.
pub fn seeds_with_bump(seeds: Vec<Vec<u8>>, bump: u8) -> (r: Vec<Vec<u8>>)
    ensures
        r.deep_view() == with_bump(seeds.deep_view(), bump),
{
    let mut full = seeds;
    let bump_seed = vec![bump];
    proof {
        lemma_bytes_deep_view(bump_seed);
        assert(bump_seed@ =~= seq![bump]);
    }
    full.push(bump_seed);
    assert(full.deep_view() =~= with_bump(seeds.deep_view(), bump)) by {
        assert forall|i: int| 0 <= i < seeds.len() implies full.deep_view()[i] == seeds.deep_view()[i] by {
            assert(full@[i] == seeds@[i]);
        }
        assert(full.deep_view()[seeds.len() as int] == bump_seed.deep_view());
    }
    full
}

/// Whether `address` is the program address of `seeds` followed by `bump` under `program`.
pub fn verify_program_address(address: &Address, seeds: Vec<Vec<u8>>, bump: u8, program: &Address) -> (r: bool)
    ensures
        r == (program_address_of(with_bump(seeds.deep_view(), bump), program@) == Some(address@)),
{
    let full = seeds_with_bump(seeds, bump);
    match create_program_address(&full, program) {
        Some(a) => a.same_as(address),
        None => false,
    }
}

} // verus!

verus! {

/// Capability to sign as a program address: it exists only for an address that was
/// checked to be the program address of its seeds and bump.
pub struct SignerProof {
    signer: Address,
    seeds: Ghost<Seq<Seq<u8>>>,
    bump: u8,
    program: Address,
}

impl SignerProof {
    #[verifier::type_invariant]
    spec fn derived(&self) -> bool {
        program_address_of(with_bump(self.seeds@, self.bump), self.program@) == Some(self.signer@)
    }

    pub closed spec fn signer(&self) -> Seq<u8> {
        self.signer@
    }

    pub closed spec fn seeds(&self) -> Seq<Seq<u8>> {
        self.seeds@
    }

    pub closed spec fn bump(&self) -> u8 {
        self.bump
    }

    pub closed spec fn program(&self) -> Seq<u8> {
        self.program@
    }

    /// Checks the derivation and hands out the capability when it holds.
    pub fn new(address: &Address, seeds: Vec<Vec<u8>>, bump: u8, program: &Address) -> (r: Option<
        SignerProof,
    >)
        ensures
            r is Some <==> program_address_of(with_bump(seeds.deep_view(), bump), program@) == Some(
                address@,
            ),
            r matches Some(p) ==> p.signer() == address@ && p.seeds() == seeds.deep_view()
                && p.bump() == bump && p.program() == program@,
    {
        let ghost s = seeds.deep_view();
        if verify_program_address(address, seeds, bump, program) {
            Some(SignerProof { signer: *address, seeds: Ghost(s), bump, program: *program })
        } else {
            None
        }
    }

    /// The address this capability signs for, which every capability has checked.
    pub fn signer_address(&self) -> (r: Address)
        ensures
            r@ == self.signer(),
            program_address_of(with_bump(self.seeds(), self.bump()), self.program()) == Some(
                self.signer(),
            ),
    {
        proof {
            use_type_invariant(self);
        }
        self.signer
    }
}

} // verus!
