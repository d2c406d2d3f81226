//! Identities and the addresses derived from them.
use vstd::prelude::*;

verus! {

/// A 32-byte identity: a signer's key or the address of an account.
#[derive(Clone, Copy, Debug, Eq)]
pub struct Pubkey {
    pub bytes: [u8; 32],
}

impl View for Pubkey {
    type V = Seq<u8>;

    open spec fn view(&self) -> Seq<u8> {
        self.bytes@
    }
}

impl PartialEq for Pubkey {
    fn eq(&self, other: &Pubkey) -> (r: bool) {
        let mut i: usize = 0;
        while i < 32
            invariant
                i <= 32,
                forall|j: int| 0 <= j < i ==> self.bytes[j] == other.bytes[j],
            decreases 32 - i,
        {
            if self.bytes[i] != other.bytes[i] {
                return false;
            }
            i += 1;
        }
        assert(self.bytes =~= other.bytes);
        true
    }
}

impl vstd::std_specs::cmp::PartialEqSpecImpl for Pubkey {
    open spec fn obeys_eq_spec() -> bool {
        true
    }

    open spec fn eq_spec(&self, other: &Pubkey) -> bool {
        *self == *other
    }
}

impl Default for Pubkey {
    /// The empty identity, which marks a slot nobody has claimed.
    fn default() -> (r: Pubkey)
        ensures
            r.unset(),
    {
        let r = Pubkey { bytes: [0u8; 32] };
        assert(r@ =~= Seq::new(32, |i: int| 0u8));
        r
    }
}

impl Pubkey {
    /// Whether this is the empty identity, whose bytes are all zero.
    pub open spec fn unset(&self) -> bool {
        self@ == Seq::new(32, |i: int| 0u8)
    }

    /// The identity with the given bytes.
    pub fn new_from_array(bytes: [u8; 32]) -> (r: Pubkey)
        ensures
            r.bytes == bytes,
    {
        Pubkey { bytes }
    }

    /// The bytes of this identity.
    pub fn to_bytes(&self) -> (r: [u8; 32])
        ensures
            r == self.bytes,
    {
        self.bytes
    }

    /// Whether this is the empty identity.
    pub fn is_unset(&self) -> (r: bool)
        ensures
            r == self.unset(),
    {
        let zero = Pubkey::default();
        proof {
            Pubkey::lemma_eq_by_bytes(*self, zero);
        }
        *self == zero
    }

    /// Two identities are the same exactly when their bytes are.
    pub proof fn lemma_eq_by_bytes(a: Pubkey, b: Pubkey)
        ensures
            (a == b) <==> (a@ == b@),
    {
        if a@ == b@ {
            assert(a.bytes =~= b.bytes);
        }
    }

    /// The bytes of this identity, as a seed for a derived address.
    pub fn to_vec(&self) -> (r: Vec<u8>)
        ensures
            r@ == self@,
    {
        let mut r: Vec<u8> = Vec::new();
        let mut i: usize = 0;
        while i < 32
            invariant
                i <= 32,
                r@ == self@.take(i as int),
            decreases 32 - i,
        {
            r.push(self.bytes[i]);
            assert(self@.take(i + 1) =~= self@.take(i as int).push(self@[i as int]));
            i += 1;
        }
        assert(self@.take(32) =~= self@);
        r
    }
}

/// The address derived from `seeds` for the program `program_id`, with the
/// bump that completes the seeds; `None` where the seeds derive none.
pub uninterp spec fn program_address(seeds: Seq<Seq<u8>>, program_id: Seq<u8>) -> Option<
    (Seq<u8>, u8),
>;

/// The seeds as byte sequences.
pub open spec fn seeds_view(seeds: Seq<Vec<u8>>) -> Seq<Seq<u8>> {
    Seq::new(seeds.len(), |i: int| seeds[i]@)
}

/// An address and its bump, as bytes.
pub open spec fn address_view(derived: Option<(Pubkey, u8)>) -> Option<(Seq<u8>, u8)> {
    match derived {
        Some((key, bump)) => Some((key@, bump)),
        None => None,
    }
}

/// Calls `Pubkey::try_find_program_address` of `anchor_lang`. Trusted, not
/// proved: the result depends on the seeds and the program alone, so it is
/// the one `program_address` names; and a seed longer than 32 bytes derives
/// no address.
#[verifier::external_body]
pub(crate) fn try_find_program_address(seeds: &Vec<Vec<u8>>, program_id: &Pubkey) -> (r: Option<
    (Pubkey, u8),
>)
    ensures
        address_view(r) == program_address(seeds_view(seeds@), program_id@),
        (exists|i: int| 0 <= i < seeds.len() && seeds[i].len() > 32) ==> r is None,
{
    let parts: Vec<&[u8]> = seeds.iter().map(|seed| seed.as_slice()).collect();
    let program = anchor_lang::prelude::Pubkey::new_from_array(program_id.bytes);
    match anchor_lang::prelude::Pubkey::try_find_program_address(&parts, &program) {
        Some((key, bump)) => Some((Pubkey { bytes: key.to_bytes() }, bump)),
        None => None,
    }
}

/// Whether `key` is the address that was derived.
pub fn derived_at(derived: &Option<(Pubkey, u8)>, key: &Pubkey) -> (r: bool)
    ensures
        r == match *derived {
            Some((address, _)) => address == *key,
            None => false,
        },
{
    match derived {
        Some((address, _)) => *address == *key,
        None => false,
    }
}

} // verus!
