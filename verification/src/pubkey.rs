//! Account addresses.
use vstd::prelude::*;

verus! {

broadcast use vstd::array::group_array_axioms;

/// A 32-byte account address.
#[derive(Clone, Copy, Debug)]
pub struct Pubkey {
    pub bytes: [u8; 32],
}

impl Pubkey {
    /// The all-zero address (`Pubkey::default()` in Solana).
    pub fn default() -> (r: Pubkey)
        ensures
            r.bytes@ == Seq::new(32, |i: int| 0u8),
    {
        Pubkey { bytes: [0u8; 32] }
    }

    /// The address with the given bytes.
    pub fn new_from_array(bytes: [u8; 32]) -> (r: Pubkey)
        ensures
            r.bytes == bytes,
    {
        Pubkey { bytes }
    }

    /// The address bytes.
    pub fn to_bytes(&self) -> (r: [u8; 32])
        ensures
            r == self.bytes,
    {
        self.bytes
    }
}

impl Pubkey {
    /// All 32 bytes are zero.
    pub open spec fn is_zero(self) -> bool {
        self.bytes@ == Seq::new(32, |i: int| 0u8)
    }
}

/// Two all-zero addresses are the same address.
pub proof fn lemma_zero_unique(a: Pubkey, b: Pubkey)
    requires
        a.is_zero(),
        b.is_zero(),
    ensures
        a == b,
{
    assert(a.bytes@ =~= b.bytes@);
    assert(a.bytes =~= b.bytes);
}

/// Whether `key` occurs in the array, checking every slot.
pub fn array_contains(keys: &[Pubkey; 256], key: &Pubkey) -> (r: bool)
    ensures
        r == keys@.contains(*key),
{
    let mut i: usize = 0;
    while i < 256
        invariant
            0 <= i <= 256,
            forall|j: int| 0 <= j < i ==> keys@[j] != *key,
        decreases 256 - i,
    {
        if keys[i] == *key {
            assert(keys@[i as int] == *key);
            return true;
        }
        i += 1;
    }
    false
}

impl PartialEq for Pubkey {
    fn eq(&self, other: &Pubkey) -> (r: bool) {
        let mut i: usize = 0;
        while i < 32
            invariant
                0 <= i <= 32,
                forall|j: int| 0 <= j < i ==> self.bytes[j] == other.bytes[j],
            decreases 32 - i,
        {
            if self.bytes[i] != other.bytes[i] {
                return false;
            }
            i += 1;
        }
        assert(self.bytes =~= other.bytes);
        true
    }
}

impl Eq for Pubkey {}

impl vstd::std_specs::cmp::PartialEqSpecImpl for Pubkey {
    open spec fn obeys_eq_spec() -> bool {
        true
    }

    open spec fn eq_spec(&self, other: &Pubkey) -> bool {
        *self == *other
    }
}

/// The 32 bytes that a base58 address text decodes to, or `None` for a text that is not a
/// base58 encoding of exactly 32 bytes.
pub uninterp spec fn spec_parse_pubkey(text: Seq<char>) -> Option<Seq<u8>>;

/// Parses a base58 address with `solana_program::pubkey::Pubkey::from_str`. Trusted: the result
/// is the named decoding of the text, `None` where the crate reports an error.
#[verifier::external_body]
pub(crate) fn parse_pubkey(text: &str) -> (r: Option<Pubkey>)
    ensures
        match r {
            Some(key) => spec_parse_pubkey(text@) == Some(key.bytes@),
            None => spec_parse_pubkey(text@) is None,
        },
{
    match <solana_program::pubkey::Pubkey as std::str::FromStr>::from_str(text) {
        Ok(key) => Some(Pubkey { bytes: key.to_bytes() }),
        Err(_) => None,
    }
}

} // verus!
