//! Address derivation: from a program's identity and seeds to an address
//! that no key controls, and the proof that lets the program sign for it.

use crate::error::PlatformError;
use crate::identity::Identity;
use anchor_lang::prelude::Pubkey;
use vstd::prelude::*;

verus! {

/// The address that `program` gets from exactly these seeds, with no bump
/// sought: the hash of the seeds and the program's identity where that hash
/// is no valid signing key, and nothing where it is one or where the seeds
/// are too many or too long.
pub uninterp spec fn created_address(seeds: Seq<Seq<u8>>, program: Seq<u8>) -> Option<Seq<u8>>;

/// The seeds with the bump as one more seed of a single byte.
pub open spec fn with_bump(seeds: Seq<Seq<u8>>, bump: u8) -> Seq<Seq<u8>> {
    seeds.push(seq![bump])
}

/// `address` and `bump` are what `program` derives from `seeds`: the bump
/// gives the address, and no higher bump gives any.
pub open spec fn is_derivation(
    seeds: Seq<Seq<u8>>,
    program: Seq<u8>,
    address: Seq<u8>,
    bump: u8,
) -> bool {
    &&& created_address(with_bump(seeds, bump), program) == Some(address)
    &&& forall|higher: u8|
        bump < higher ==> #[trigger] created_address(with_bump(seeds, higher), program) is None
}

/// No bump gives `program` an address from `seeds`.
pub open spec fn is_exhausted(seeds: Seq<Seq<u8>>, program: Seq<u8>) -> bool {
    forall|bump: u8| #[trigger] created_address(with_bump(seeds, bump), program) is None
}

/// The address and the bump that `program` derives from `seeds`, if any bump
/// gives an address.
pub open spec fn derived_address(seeds: Seq<Seq<u8>>, program: Seq<u8>) -> Option<(Seq<u8>, u8)> {
    if exists|address: Seq<u8>, bump: u8| is_derivation(seeds, program, address, bump) {
        Some(choose|address: Seq<u8>, bump: u8| is_derivation(seeds, program, address, bump))
    } else {
        None
    }
}

/// There is at most one derivation: what is one is what is derived.
pub proof fn lemma_derivation_unique(
    seeds: Seq<Seq<u8>>,
    program: Seq<u8>,
    address: Seq<u8>,
    bump: u8,
)
    requires
        is_derivation(seeds, program, address, bump),
    ensures
        derived_address(seeds, program) == Some((address, bump)),
{
    let (a, b) = choose|a: Seq<u8>, b: u8| is_derivation(seeds, program, a, b);
    assert(is_derivation(seeds, program, a, b));
    if b < bump {
        assert(created_address(with_bump(seeds, bump), program) is None);
    } else if bump < b {
        assert(created_address(with_bump(seeds, b), program) is None);
    }
}

/// Where the bumps are exhausted, nothing is derived.
pub proof fn lemma_exhausted_derives_nothing(seeds: Seq<Seq<u8>>, program: Seq<u8>)
    requires
        is_exhausted(seeds, program),
    ensures
        derived_address(seeds, program) is None,
{
    if exists|address: Seq<u8>, bump: u8| is_derivation(seeds, program, address, bump) {
        let (a, b) = choose|a: Seq<u8>, b: u8| is_derivation(seeds, program, a, b);
        assert(created_address(with_bump(seeds, b), program) is None);
    }
}

/// `Pubkey::create_program_address`: hashes the seeds, the program's identity
/// and a fixed marker, and gives the hash as an address unless it is a point
/// of the curve. The contract names the outcome [`created_address`] and
/// claims only that it depends on the seeds and the program alone; any error
/// gives `None`.
#[verifier::external_body]
fn create_program_address(seeds: &Vec<Vec<u8>>, program: &Identity) -> (created: Option<Identity>)
    ensures
        match created {
            Some(address) => created_address(seeds.deep_view(), program@) == Some(address@),
            None => created_address(seeds.deep_view(), program@) is None,
        },
{
    let parts: Vec<&[u8]> = seeds.iter().map(|seed| seed.as_slice()).collect();
    match Pubkey::create_program_address(&parts, &Pubkey::new_from_array(program.bytes)) {
        Ok(address) => Some(Identity { bytes: address.to_bytes() }),
        Err(_) => None,
    }
}

/// `Pubkey::try_find_program_address`: tries the bumps from 255 down to 1,
/// each as one more seed handed to `create_program_address`, and gives the
/// first address that comes out, with its bump. The contract claims that the
/// bump that is returned gives the address that is returned, that every
/// higher bump gives none, and that, where nothing is returned, no bump from
/// 1 to 255 gives any. Bump 0 is never tried.
#[verifier::external_body]
fn find_program_address(seeds: &Vec<Vec<u8>>, program: &Identity) -> (found: Option<
    (Identity, u8),
>)
    ensures
        match found {
            Some((address, bump)) => bump >= 1 && is_derivation(
                seeds.deep_view(),
                program@,
                address@,
                bump,
            ),
            None => forall|bump: u8|
                bump >= 1 ==> #[trigger] created_address(
                    with_bump(seeds.deep_view(), bump),
                    program@,
                ) is None,
        },
{
    let parts: Vec<&[u8]> = seeds.iter().map(|seed| seed.as_slice()).collect();
    match Pubkey::try_find_program_address(&parts, &Pubkey::new_from_array(program.bytes)) {
        Some((address, bump)) => Some((Identity { bytes: address.to_bytes() }, bump)),
        None => None,
    }
}

/// A copy of `bytes`.
fn copy_bytes(bytes: &Vec<u8>) -> (copy: Vec<u8>)
    ensures
        copy@ == bytes@,
{
    let mut copy: Vec<u8> = Vec::new();
    let mut i: usize = 0;
    while i < bytes.len()
        invariant
            i <= bytes@.len(),
            copy@ == bytes@.subrange(0, i as int),
        decreases bytes@.len() - i,
    {
        copy.push(bytes[i]);
        assert(bytes@.subrange(0, i + 1) =~= bytes@.subrange(0, i as int).push(bytes@[i as int]));
        i += 1;
    }
    assert(bytes@.subrange(0, bytes@.len() as int) =~= bytes@);
    copy
}

/// A copy of `seeds`.
pub fn copy_seeds(seeds: &Vec<Vec<u8>>) -> (copy: Vec<Vec<u8>>)
    ensures
        copy.deep_view() == seeds.deep_view(),
{
    let mut copy: Vec<Vec<u8>> = Vec::new();
    let mut i: usize = 0;
    while i < seeds.len()
        invariant
            i <= seeds@.len(),
            copy@.len() == i,
            forall|j: int| 0 <= j < i ==> copy@[j]@ == seeds@[j]@,
        decreases seeds@.len() - i,
    {
        copy.push(copy_bytes(&seeds[i]));
        i += 1;
    }
    assert(copy.deep_view() =~= seeds.deep_view());
    copy
}

/// Adds the bump to `seeds` as one more seed.
fn push_bump(seeds: &mut Vec<Vec<u8>>, bump: u8)
    ensures
        final(seeds).deep_view() == with_bump(old(seeds).deep_view(), bump),
{
    let mut last: Vec<u8> = Vec::new();
    last.push(bump);
    seeds.push(last);
    assert(seeds.deep_view() =~~= with_bump(old(seeds).deep_view(), bump));
}

/// An address derived from seeds, with the bump that was found for it.
///
/// The address belongs to no key: only the program that it was derived for
/// can sign for it, by showing the seeds and the bump.
#[derive(Debug)]
pub struct DerivedAddress {
    /// The address.
    pub address: Identity,
    /// The bump: the highest byte that, added to the seeds, gives an address.
    pub bump: u8,
    /// The seeds, in order, without the bump.
    pub seeds: Vec<Vec<u8>>,
}

/// Proof of the right to sign for a derived address: the seeds, the bump and
/// the program that owns the address. It counts only while that program is
/// the one that is running.
#[derive(Debug)]
pub struct SigningProof {
    /// The seeds, in order, without the bump.
    pub seeds: Vec<Vec<u8>>,
    /// The bump.
    pub bump: u8,
    /// The program that owns the address.
    pub program: Identity,
}

/// A signing proof as a mathematical value.
pub struct SigningProofView {
    pub seeds: Seq<Seq<u8>>,
    pub bump: u8,
    pub program: Identity,
}

impl View for SigningProof {
    type V = SigningProofView;

    open spec fn view(&self) -> SigningProofView {
        SigningProofView { seeds: self.seeds.deep_view(), bump: self.bump, program: self.program }
    }
}

impl SigningProofView {
    /// The address that this proof lets `caller` sign for: the one that the
    /// seeds and the bump give the proof's program, as long as that program
    /// is the caller. Otherwise the proof is worth nothing.
    pub open spec fn signs_for(self, caller: Identity) -> Option<Seq<u8>> {
        if self.program == caller {
            created_address(with_bump(self.seeds, self.bump), caller@)
        } else {
            None
        }
    }
}

impl DerivedAddress {
    /// This is what `program` derives from the seeds held here.
    pub open spec fn derived_for(&self, program: Identity) -> bool {
        is_derivation(self.seeds.deep_view(), program@, self.address@, self.bump)
    }

    /// The proof with which `program` signs for this address.
    pub fn into_proof(self, program: Identity) -> (signing: SigningProof)
        ensures
            signing@ == (SigningProofView {
                seeds: self.seeds.deep_view(),
                bump: self.bump,
                program,
            }),
    {
        SigningProof { seeds: self.seeds, bump: self.bump, program }
    }
}

impl SigningProof {
    /// The address that this proof lets `caller` sign for, if it lets it sign
    /// for any.
    pub fn signer(&self, caller: &Identity) -> (address: Option<Identity>)
        ensures
            match address {
                Some(id) => self@.signs_for(*caller) == Some(id@),
                None => self@.signs_for(*caller) is None,
            },
    {
        if self.program != *caller {
            return None;
        }
        let mut seeds = copy_seeds(&self.seeds);
        push_bump(&mut seeds, self.bump);
        create_program_address(&seeds, caller)
    }
}

/// The seeds of the vault's address: `"vault"`.
pub open spec fn spec_vault_seeds() -> Seq<Seq<u8>> {
    seq![seq![118u8, 97u8, 117u8, 108u8, 116u8]]
}

/// The seeds of the address of an owner's wallet record: `"wallet_account"`,
/// then the owner.
pub open spec fn spec_wallet_account_seeds(owner: Identity) -> Seq<Seq<u8>> {
    seq![
        seq![
            119u8,
            97u8,
            108u8,
            108u8,
            101u8,
            116u8,
            95u8,
            97u8,
            99u8,
            99u8,
            111u8,
            117u8,
            110u8,
            116u8,
        ],
        owner@,
    ]
}

/// The seeds of the address from which an owner's wallet spends: `"wallet"`,
/// then the owner.
pub open spec fn spec_wallet_seeds(owner: Identity) -> Seq<Seq<u8>> {
    seq![seq![119u8, 97u8, 108u8, 108u8, 101u8, 116u8], owner@]
}

/// The seeds of the vault's address: `"vault"`.
pub fn vault_seeds() -> (seeds: Vec<Vec<u8>>)
    ensures
        seeds.deep_view() == spec_vault_seeds(),
{
    let seeds = vec![vec![118u8, 97u8, 117u8, 108u8, 116u8]];
    assert(seeds.deep_view() =~~= spec_vault_seeds());
    seeds
}

/// The seeds of the address of an owner's wallet record: `"wallet_account"`,
/// then the owner.
pub fn wallet_account_seeds(owner: &Identity) -> (seeds: Vec<Vec<u8>>)
    ensures
        seeds.deep_view() == spec_wallet_account_seeds(*owner),
{
    let seeds = vec![
        vec![
            119u8,
            97u8,
            108u8,
            108u8,
            101u8,
            116u8,
            95u8,
            97u8,
            99u8,
            99u8,
            111u8,
            117u8,
            110u8,
            116u8,
        ],
        owner.to_seed(),
    ];
    assert(seeds.deep_view() =~~= spec_wallet_account_seeds(*owner));
    seeds
}

/// The seeds of the address from which an owner's wallet spends: `"wallet"`,
/// then the owner.
pub fn wallet_seeds(owner: &Identity) -> (seeds: Vec<Vec<u8>>)
    ensures
        seeds.deep_view() == spec_wallet_seeds(*owner),
{
    let seeds = vec![vec![119u8, 97u8, 108u8, 108u8, 101u8, 116u8], owner.to_seed()];
    assert(seeds.deep_view() =~~= spec_wallet_seeds(*owner));
    seeds
}

/// What `derive` returns for these seeds and this program: the derived
/// address with its bump and the seeds, or `DerivationExhausted` where no bump
/// gives an address.
pub open spec fn is_derive_result(
    seeds: Seq<Seq<u8>>,
    program: Identity,
    res: Result<DerivedAddress, PlatformError>,
) -> bool {
    match res {
        Ok(derived) => {
            &&& derived.seeds.deep_view() == seeds
            &&& derived.derived_for(program)
            &&& derived_address(seeds, program@) == Some((derived.address@, derived.bump))
        },
        Err(e) => {
            &&& e == PlatformError::DerivationExhausted
            &&& is_exhausted(seeds, program@)
            &&& derived_address(seeds, program@) is None
        },
    }
}

/// Derives the address that `program` owns under `seeds`.
///
/// The bumps are tried from 255 downward. The address that comes back is the
/// one that the highest successful bump gives. `DerivationExhausted` comes
/// back exactly when no bump from 0 to 255 gives an address.
pub fn derive(seeds: Vec<Vec<u8>>, program: &Identity) -> (res: Result<
    DerivedAddress,
    PlatformError,
>)
    ensures
        is_derive_result(seeds.deep_view(), *program, res),
{
    let ghost given = seeds.deep_view();
    match find_program_address(&seeds, program) {
        Some((address, bump)) => {
            proof {
                lemma_derivation_unique(given, program@, address@, bump);
            }
            Ok(DerivedAddress { address, bump, seeds })
        },
        None => {
            let mut seeds = seeds;
            push_bump(&mut seeds, 0u8);
            let created = create_program_address(&seeds, program);
            let ghost tried = seeds;
            seeds.pop();
            assert(seeds.deep_view() =~~= given) by {
                assert(tried.deep_view().len() == given.len() + 1);
                assert forall|j: int| 0 <= j < given.len() implies seeds.deep_view()[j]
                    == given[j] by {
                    assert(seeds@[j] == tried@[j]);
                    assert(tried.deep_view()[j] == with_bump(given, 0u8)[j]);
                }
            }
            match created {
                Some(address) => {
                    proof {
                        lemma_derivation_unique(given, program@, address@, 0u8);
                    }
                    Ok(DerivedAddress { address, bump: 0, seeds })
                },
                None => {
                    proof {
                        lemma_exhausted_derives_nothing(given, program@);
                    }
                    Err(PlatformError::DerivationExhausted)
                },
            }
        },
    }
}

/// What comes of holding `address` against the address that `program`
/// derives from `seeds`: the bump where they agree, `DerivationExhausted`
/// where nothing is derived, `DerivationMismatch` where another address is.
pub open spec fn derivation_check(
    seeds: Seq<Seq<u8>>,
    program: Identity,
    address: Identity,
) -> Result<u8, PlatformError> {
    match derived_address(seeds, program@) {
        None => Err(PlatformError::DerivationExhausted),
        Some((derived, bump)) => if derived == address@ {
            Ok(bump)
        } else {
            Err(PlatformError::DerivationMismatch)
        },
    }
}

/// Derives the address that `program` owns under `seeds` and holds `address`
/// against it.
pub fn check_derived(seeds: Vec<Vec<u8>>, program: &Identity, address: &Identity) -> (res: Result<
    DerivedAddress,
    PlatformError,
>)
    ensures
        match res {
            Ok(derived) => {
                &&& derivation_check(seeds.deep_view(), *program, *address) == Ok::<
                    u8,
                    PlatformError,
                >(derived.bump)
                &&& derived.address == *address
                &&& derived.seeds.deep_view() == seeds.deep_view()
                &&& derived.derived_for(*program)
            },
            Err(e) => derivation_check(seeds.deep_view(), *program, *address) == Err::<
                u8,
                PlatformError,
            >(e),
        },
{
    match derive(seeds, program) {
        Ok(derived) => {
            proof {
                Identity::lemma_equal_by_bytes(derived.address, *address);
            }
            if derived.address == *address {
                Ok(derived)
            } else {
                Err(PlatformError::DerivationMismatch)
            }
        },
        Err(e) => Err(e),
    }
}

} // verus!
