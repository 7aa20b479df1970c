use vstd::prelude::*;

verus! {

/// A 32-byte account address (a public key).
#[derive(Clone, Copy, Debug)]
pub struct Address {
    pub bytes: [u8; 32],
}

impl View for Address {
    type V = Seq<u8>;

    open spec fn view(&self) -> Seq<u8> {
        self.bytes@
    }
}

impl Address {
    /// The address whose bytes are all zero.
    pub fn zero() -> (r: Address)
        ensures
            r@ == Seq::new(32, |i: int| 0u8),
    {
        let r = Address { bytes: [0u8; 32] };
        assert(r@ =~= Seq::new(32, |i: int| 0u8));
        r
    }

    /// Whether two addresses hold the same bytes.
    pub fn same_as(&self, other: &Address) -> (r: bool)
        ensures
            r == (self@ == other@),
    {
        let mut i: usize = 0;
        while i < 32
            invariant
                i <= 32,
                self@.len() == 32,
                other@.len() == 32,
                forall|j: int| 0 <= j < i ==> self@[j] == other@[j],
            decreases 32 - i,
        {
            if self.bytes[i] != other.bytes[i] {
                return false;
            }
            i = i + 1;
        }
        assert(self@ =~= other@);
        true
    }

    /// The address's bytes as a vector, as used for address-derivation seeds.
    pub fn to_vec(&self) -> (r: Vec<u8>)
        ensures
            r@ == self@,
    {
        let mut v: Vec<u8> = Vec::new();
        let mut i: usize = 0;
        while i < 32
            invariant
                i <= 32,
                self@.len() == 32,
                v@ == self@.subrange(0, i as int),
            decreases 32 - i,
        {
            v.push(self.bytes[i]);
            i = i + 1;
        }
        assert(v@ =~= self@);
        v
    }
}

/// The bytes that `solana_program`'s `Pubkey::from_str` decodes from a
/// base58 text, or `None` where it refuses the text.
pub uninterp spec fn spec_parse_pubkey(text: Seq<char>) -> Option<Seq<u8>>;

/// Calls `solana_program::pubkey::Pubkey::from_str` (base58 decoding of a
/// 32-byte key). Claimed: the result is the named decoding of the text, with
/// `None` where the outside function returns an error; and no other text
/// decodes to the same key. The decoding (`bs58`'s `decode_into`) gives one
/// zero byte per leading '1' followed by the bytes of the rest read as a
/// base-58 number, without leading zero bytes, so each key has one text.
#[verifier::external_body]
pub(crate) fn parse_pubkey(text: &str) -> (r: Option<Address>)
    ensures
        match r {
            Some(a) => spec_parse_pubkey(text@) == Some(a@),
            None => spec_parse_pubkey(text@) is None,
        },
        r matches Some(a) ==> forall|other: Seq<char>| #[trigger] spec_parse_pubkey(other) == Some(a@) ==> other == text@,
{
    match <solana_program::pubkey::Pubkey as std::str::FromStr>::from_str(text) {
        Ok(key) => Some(Address { bytes: key.to_bytes() }),
        Err(_) => None,
    }
}

} // verus!
