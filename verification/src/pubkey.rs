//! The 32-byte identity that names signers, currencies and records.

use vstd::prelude::*;

verus! {

/// A 32-byte identity: a signer, a currency, or the address of a record.
#[derive(Clone, Copy, Debug, Eq, Hash)]
pub struct Pubkey(pub [u8; 32]);

impl View for Pubkey {
    type V = Seq<u8>;

    open spec fn view(&self) -> Seq<u8> {
        self.0@
    }
}

impl PartialEq for Pubkey {
    fn eq(&self, other: &Pubkey) -> (same: bool) {
        let mut i: usize = 0;
        while i < 32
            invariant
                i <= 32,
                forall|j: int| 0 <= j < i ==> self.0[j] == other.0[j],
            decreases 32 - i,
        {
            if self.0[i] != other.0[i] {
                return false;
            }
            i += 1;
        }
        assert(self.0 =~= other.0);
        true
    }
}

impl vstd::std_specs::cmp::PartialEqSpecImpl for Pubkey {
    open spec fn obeys_eq_spec() -> bool {
        true
    }

    open spec fn eq_spec(&self, other: &Pubkey) -> bool {
        *self == *other
    }
}

impl Default for Pubkey {
    /// The identity of all zero bytes, which a blank record holds.
    fn default() -> (key: Pubkey)
        ensures
            key == Pubkey::zeroed(),
    {
        let key = Pubkey([0u8; 32]);
        proof {
            lemma_pubkey_is_its_bytes(key, Pubkey::zeroed());
            assert(key@ =~= Seq::new(32, |i: int| 0u8));
        }
        key
    }
}

impl Pubkey {
    /// The identity of all zero bytes.
    pub open spec fn zeroed() -> Pubkey {
        choose|key: Pubkey| key@ == Seq::new(32, |i: int| 0u8)
    }

    /// The identity made of the given bytes.
    pub fn new_from_array(bytes: [u8; 32]) -> (key: Pubkey)
        ensures
            key == Pubkey(bytes),
    {
        Pubkey(bytes)
    }

    /// The bytes of the identity.
    pub fn to_bytes(&self) -> (bytes: [u8; 32])
        ensures
            bytes == self.0,
    {
        self.0
    }

    /// The bytes of the identity, as a vector.
    pub fn to_vec(&self) -> (bytes: Vec<u8>)
        ensures
            bytes@ == self@,
    {
        let mut bytes: Vec<u8> = Vec::new();
        let mut i: usize = 0;
        while i < 32
            invariant
                i <= 32,
                bytes@ == self@.take(i as int),
            decreases 32 - i,
        {
            bytes.push(self.0[i]);
            i += 1;
        }
        bytes
    }
}

/// Two identities with the same bytes are the same identity.
pub proof fn lemma_pubkey_is_its_bytes(a: Pubkey, b: Pubkey)
    ensures
        a == b <==> a@ == b@,
{
    if a@ == b@ {
        assert(a.0 =~= b.0);
    }
}

} // verus!
