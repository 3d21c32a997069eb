use vstd::prelude::*;

verus! {

/// The number of bytes in an account hash.
pub const ACCOUNT_HASH_LENGTH: usize = 32;

/// A 32-byte account hash, the identity of a caller, owner, spender or minter.
#[derive(Clone, Copy, Debug)]
pub struct Account {
    pub bytes: [u8; 32],
}

/// The character of a nibble (0..=15) in lower-case hexadecimal.
pub open spec fn hex_digit(nibble: int) -> char {
    if nibble < 10 {
        (48 + nibble) as char
    } else {
        (87 + nibble) as char
    }
}

/// Lower-case hexadecimal text of a byte string, two characters per byte,
/// high nibble first.
pub open spec fn hex_lower(bytes: Seq<u8>) -> Seq<char>
    decreases bytes.len(),
{
    if bytes.len() == 0 {
        Seq::empty()
    } else {
        seq![hex_digit(bytes[0] as int / 16), hex_digit(bytes[0] as int % 16)] + hex_lower(
            bytes.drop_first(),
        )
    }
}

/// Whether a character is one of the lower-case hexadecimal digits.
pub open spec fn is_hex_char(c: char) -> bool {
    (48 <= c as int <= 57) || (97 <= c as int <= 102)
}

/// Hexadecimal text has two characters per byte, all of them hexadecimal digits.
pub proof fn lemma_hex_lower_shape(bytes: Seq<u8>)
    ensures
        hex_lower(bytes).len() == 2 * bytes.len(),
        forall|i: int| 0 <= i < hex_lower(bytes).len() ==> is_hex_char(#[trigger] hex_lower(bytes)[i]),
    decreases bytes.len(),
{
    if bytes.len() > 0 {
        lemma_hex_lower_shape(bytes.drop_first());
        let head = seq![hex_digit(bytes[0] as int / 16), hex_digit(bytes[0] as int % 16)];
        assert forall|i: int| 0 <= i < hex_lower(bytes).len() implies is_hex_char(
            #[trigger] hex_lower(bytes)[i],
        ) by {
            if i >= 2 {
                assert(hex_lower(bytes)[i] == hex_lower(bytes.drop_first())[i - 2]);
            }
        }
    }
}

/// Byte strings of one length with the same hexadecimal text are equal.
pub proof fn lemma_hex_lower_injective(a: Seq<u8>, b: Seq<u8>)
    requires
        a.len() == b.len(),
        hex_lower(a) == hex_lower(b),
    ensures
        a == b,
    decreases a.len(),
{
    if a.len() > 0 {
        let ha = hex_lower(a);
        let hb = hex_lower(b);
        assert(ha[0] == hex_digit(a[0] as int / 16));
        assert(hb[0] == hex_digit(b[0] as int / 16));
        assert(ha[1] == hex_digit(a[0] as int % 16));
        assert(hb[1] == hex_digit(b[0] as int % 16));
        assert(a[0] == b[0]);
        assert(hex_lower(a.drop_first()) =~= ha.subrange(2, ha.len() as int));
        assert(hex_lower(b.drop_first()) =~= hb.subrange(2, hb.len() as int));
        lemma_hex_lower_injective(a.drop_first(), b.drop_first());
        assert(a =~= b) by {
            assert forall|i: int| 0 <= i < a.len() implies a[i] == b[i] by {
                if i > 0 {
                    assert(a[i] == a.drop_first()[i - 1]);
                    assert(b[i] == b.drop_first()[i - 1]);
                }
            }
        }
    }
}

/// Formats an account hash with the `Display` implementation of
/// `casper_types::account::AccountHash`, which writes `base16::encode_lower` of
/// its 32 bytes: two lower-case hexadecimal digits per byte, high nibble first.
#[verifier::external_body]
pub(crate) fn account_hash_text(account: &Account) -> (text: String)
    ensures
        text@ == hex_lower(account.bytes@),
{
    casper_types::account::AccountHash::new(account.bytes).to_string()
}

impl Account {
    /// The hexadecimal text of an account hash determines the account.
    pub proof fn lemma_text_injective(self, other: Account)
        requires
            hex_lower(self.bytes@) == hex_lower(other.bytes@),
        ensures
            self == other,
    {
        lemma_hex_lower_injective(self.bytes@, other.bytes@);
        assert forall|i: int| 0 <= i < 32 implies self.bytes[i] == other.bytes[i] by {
            assert(self.bytes@[i] == other.bytes@[i]);
        }
        assert(self.bytes =~= other.bytes);
    }

    /// The all-zero account hash, which is what a missing account record reads as.
    pub open spec fn zero_spec() -> Account {
        Account { bytes: vstd::array::spec_array_fill_for_copy_type::<u8, 32>(0u8) }
    }

    pub fn zero() -> (account: Account)
        ensures
            account == Account::zero_spec(),
    {
        Account { bytes: [0u8; 32] }
    }

    pub fn new(bytes: [u8; 32]) -> (account: Account)
        ensures
            account.bytes == bytes,
    {
        Account { bytes }
    }

    /// Byte-wise equality of two account hashes.
    pub fn same_as(&self, other: &Account) -> (same: bool)
        ensures
            same == (*self == *other),
    {
        let mut i: usize = 0;
        while i < ACCOUNT_HASH_LENGTH
            invariant
                i <= 32,
                forall|j: int| 0 <= j < i ==> self.bytes[j] == other.bytes[j],
            decreases 32 - i,
        {
            if self.bytes[i] != other.bytes[i] {
                return false;
            }
            i = i + 1;
        }
        assert(self.bytes =~= other.bytes);
        true
    }
}

} // verus!
