//! Identities: the 32-byte names of accounts and programs.

use anchor_lang::prelude::Pubkey;
use std::str::FromStr;
use vstd::prelude::*;

verus! {

/// The name of an account or of a program: 32 bytes.
#[derive(Clone, Copy, Debug)]
pub struct Identity {
    pub bytes: [u8; 32],
}

impl View for Identity {
    type V = Seq<u8>;

    open spec fn view(&self) -> Seq<u8> {
        self.bytes@
    }
}

impl PartialEq for Identity {
    fn eq(&self, other: &Identity) -> (same: bool) {
        let mut i: usize = 0;
        while i < 32
            invariant
                i <= 32,
                forall|j: int| 0 <= j < i ==> self.bytes[j] == other.bytes[j],
            decreases 32 - i,
        {
            if self.bytes[i] != other.bytes[i] {
                return false;
            }
            i += 1;
        }
        assert(self.bytes =~= other.bytes);
        true
    }
}

impl Eq for Identity {

}

impl vstd::std_specs::cmp::PartialEqSpecImpl for Identity {
    open spec fn obeys_eq_spec() -> bool {
        true
    }

    open spec fn eq_spec(&self, other: &Identity) -> bool {
        *self == *other
    }
}

/// What base58 text decodes to: the 32 bytes it stands for, or nothing where
/// the text is no base58 rendering of 32 bytes.
pub uninterp spec fn base58_address(text: Seq<char>) -> Option<Seq<u8>>;

/// `Pubkey::from_str`: decodes base58 text into the 32 bytes of an address.
/// The contract names the outcome [`base58_address`] and claims only that it
/// depends on the text alone; any error gives `None`.
#[verifier::external_body]
fn decode_base58(text: &str) -> (decoded: Option<Identity>)
    ensures
        match decoded {
            Some(id) => base58_address(text@) == Some(id@),
            None => base58_address(text@) is None,
        },
{
    match Pubkey::from_str(text) {
        Ok(key) => Some(Identity { bytes: key.to_bytes() }),
        Err(_) => None,
    }
}

impl Identity {
    /// The identity of the platform's native program, which owns plain
    /// balances and carries out native transfers: 32 zero bytes.
    pub open spec fn system_program() -> Identity {
        Identity { bytes: vstd::array::spec_array_fill_for_copy_type::<u8, 32>(0u8) }
    }

    /// The identity with the given bytes.
    pub open spec fn of_bytes(bytes: Seq<u8>) -> Identity {
        choose|id: Identity| id@ == bytes
    }

    /// An identity is the one with its bytes.
    pub proof fn lemma_of_bytes(id: Identity)
        ensures
            Identity::of_bytes(id@) == id,
    {
        Identity::lemma_equal_by_bytes(Identity::of_bytes(id@), id);
    }

    /// Two identities are the same exactly when their bytes are.
    pub proof fn lemma_equal_by_bytes(a: Identity, b: Identity)
        ensures
            a == b <==> a@ == b@,
    {
        if a@ == b@ {
            assert(a.bytes =~= b.bytes);
        }
    }

    /// The identity with the given bytes.
    pub fn new(bytes: [u8; 32]) -> (id: Identity)
        ensures
            id.bytes == bytes,
    {
        Identity { bytes }
    }

    /// The bytes of this identity.
    pub fn to_bytes(&self) -> (bytes: [u8; 32])
        ensures
            bytes == self.bytes,
    {
        self.bytes
    }

    /// The bytes of this identity as a seed for address derivation.
    pub fn to_seed(&self) -> (seed: Vec<u8>)
        ensures
            seed@ == self@,
    {
        let mut seed: Vec<u8> = Vec::new();
        let mut i: usize = 0;
        while i < 32
            invariant
                i <= 32,
                seed@ == self@.subrange(0, i as int),
            decreases 32 - i,
        {
            seed.push(self.bytes[i]);
            assert(self@.subrange(0, i + 1) =~= self@.subrange(0, i as int).push(self@[i as int]));
            i += 1;
        }
        assert(self@.subrange(0, 32) =~= self@);
        seed
    }

    /// The identity whose bytes are the 32 bytes of `data` from `start` on.
    pub fn from_slice(data: &Vec<u8>, start: usize) -> (id: Identity)
        requires
            start + 32 <= data@.len(),
        ensures
            id@ == data@.subrange(start as int, start + 32),
            id == Identity::of_bytes(data@.subrange(start as int, start + 32)),
    {
        let mut bytes = [0u8; 32];
        let mut i: usize = 0;
        while i < 32
            invariant
                i <= 32,
                start + 32 <= data.len(),
                forall|j: int| 0 <= j < i ==> bytes@[j] == data@[start + j],
            decreases 32 - i,
        {
            bytes[i] = data[start + i];
            i += 1;
        }
        let id = Identity { bytes };
        proof {
            assert(id@ =~= data@.subrange(start as int, start + 32));
            Identity::lemma_of_bytes(id);
        }
        id
    }

    /// The native program's identity.
    pub fn system() -> (id: Identity)
        ensures
            id == Identity::system_program(),
    {
        Identity { bytes: [0u8; 32] }
    }

    /// Decodes the base58 text of an identity.
    ///
    /// Returns the identity that the text stands for, and `None` exactly when
    /// the text stands for none.
    pub fn from_base58(text: &str) -> (decoded: Option<Identity>)
        ensures
            match decoded {
                Some(id) => base58_address(text@) == Some(id@),
                None => base58_address(text@) is None,
            },
    {
        decode_base58(text)
    }
}

} // verus!
