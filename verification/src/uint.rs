use vstd::prelude::*;

verus! {

/// 2^64, the radix of one limb.
pub open spec fn limb_radix() -> int {
    0x1_0000_0000_0000_0000int
}

/// 2^256 - 1, the largest value a `U256` holds.
pub open spec fn u256_max() -> int {
    0xffff_ffff_ffff_ffff_ffff_ffff_ffff_ffff_ffff_ffff_ffff_ffff_ffff_ffff_ffff_ffffint
}

/// An unsigned 256-bit integer held as four 64-bit limbs, least significant first
/// (the layout of the token ids, balances and supply of the contract).
#[derive(Clone, Copy, Debug)]
pub struct U256 {
    pub limbs: [u64; 4],
}

/// The number whose limbs, least significant first, are `l0..l3`.
pub open spec fn limbs_value(l0: int, l1: int, l2: int, l3: int) -> int {
    l0 + limb_radix() * (l1 + limb_radix() * (l2 + limb_radix() * l3))
}

impl U256 {
    /// The number this value stands for.
    pub open spec fn value(self) -> nat {
        limbs_value(
            self.limbs[0] as int,
            self.limbs[1] as int,
            self.limbs[2] as int,
            self.limbs[3] as int,
        ) as nat
    }

    /// Zero, in spec code.
    pub open spec fn zero_spec() -> U256 {
        U256 { limbs: [0u64, 0u64, 0u64, 0u64] }
    }

    pub fn from_limbs(limbs: [u64; 4]) -> (n: U256)
        ensures
            n.limbs == limbs,
    {
        U256 { limbs }
    }

    pub fn zero() -> (n: U256)
        ensures
            n.value() == 0,
    {
        U256 { limbs: [0u64, 0u64, 0u64, 0u64] }
    }

    pub fn from_u64(v: u64) -> (n: U256)
        ensures
            n.value() == v,
    {
        U256 { limbs: [v, 0u64, 0u64, 0u64] }
    }

    /// Every value lies in 0..=2^256-1.
    pub proof fn lemma_value_bounds(self)
        ensures
            0 <= self.value() <= u256_max(),
    {
        lemma_limbs_value_bounds(
            self.limbs[0] as int,
            self.limbs[1] as int,
            self.limbs[2] as int,
            self.limbs[3] as int,
        );
    }

    /// Two values with the same number have the same limbs.
    pub proof fn lemma_value_injective(self, other: U256)
        requires
            self.value() == other.value(),
        ensures
            self == other,
    {
        let a = self.limbs;
        let b = other.limbs;
        lemma_limbs_value_bounds(a[1] as int, a[2] as int, a[3] as int, 0);
        lemma_limbs_value_bounds(b[1] as int, b[2] as int, b[3] as int, 0);
        lemma_split_limb(
            a[0] as int,
            a[1] + limb_radix() * (a[2] + limb_radix() * a[3]),
            b[0] as int,
            b[1] + limb_radix() * (b[2] + limb_radix() * b[3]),
        );
        lemma_split_limb(
            a[1] as int,
            a[2] + limb_radix() * a[3],
            b[1] as int,
            b[2] + limb_radix() * b[3],
        );
        lemma_split_limb(a[2] as int, a[3] as int, b[2] as int, b[3] as int);
        assert(self.limbs =~= other.limbs);
    }

    /// Limb-wise equality, which is equality of the numbers.
    pub fn same_as(&self, other: &U256) -> (same: bool)
        ensures
            same == (*self == *other),
            same == (self.value() == other.value()),
    {
        proof {
            if self.value() == other.value() {
                self.lemma_value_injective(*other);
            }
        }
        let same = self.limbs[0] == other.limbs[0] && self.limbs[1] == other.limbs[1]
            && self.limbs[2] == other.limbs[2] && self.limbs[3] == other.limbs[3];
        proof {
            if same {
                assert(self.limbs =~= other.limbs);
            }
        }
        same
    }

    /// Whether the value is 2^256 - 1, so that adding one would overflow.
    pub fn is_max(&self) -> (max: bool)
        ensures
            max == (self.value() == u256_max()),
    {
        proof {
            self.lemma_value_bounds();
        }
        let max = self.limbs[0] == u64::MAX && self.limbs[1] == u64::MAX && self.limbs[2]
            == u64::MAX && self.limbs[3] == u64::MAX;
        proof {
            if !max {
                lemma_below_max(
                    self.limbs[0] as int,
                    self.limbs[1] as int,
                    self.limbs[2] as int,
                    self.limbs[3] as int,
                );
            }
        }
        max
    }

    /// Whether the value is zero, so that subtracting one would underflow.
    pub fn is_zero(&self) -> (zero: bool)
        ensures
            zero == (self.value() == 0),
    {
        self.limbs[0] == 0 && self.limbs[1] == 0 && self.limbs[2] == 0 && self.limbs[3] == 0
    }

    /// The value plus one, carrying across limbs.
    pub fn increment(&self) -> (n: U256)
        requires
            self.value() < u256_max(),
        ensures
            n.value() == self.value() + 1,
    {
        let l = self.limbs;
        if l[0] < u64::MAX {
            U256 { limbs: [l[0] + 1, l[1], l[2], l[3]] }
        } else if l[1] < u64::MAX {
            U256 { limbs: [0u64, l[1] + 1, l[2], l[3]] }
        } else if l[2] < u64::MAX {
            U256 { limbs: [0u64, 0u64, l[2] + 1, l[3]] }
        } else {
            assert(l[3] < u64::MAX) by {
                if l[3] == u64::MAX {
                    assert(self.value() == u256_max());
                }
            }
            U256 { limbs: [0u64, 0u64, 0u64, l[3] + 1] }
        }
    }

    /// The value minus one, borrowing across limbs.
    pub fn decrement(&self) -> (n: U256)
        requires
            self.value() > 0,
        ensures
            n.value() + 1 == self.value(),
    {
        let l = self.limbs;
        if l[0] > 0 {
            U256 { limbs: [l[0] - 1, l[1], l[2], l[3]] }
        } else if l[1] > 0 {
            U256 { limbs: [u64::MAX, l[1] - 1, l[2], l[3]] }
        } else if l[2] > 0 {
            U256 { limbs: [u64::MAX, u64::MAX, l[2] - 1, l[3]] }
        } else {
            U256 { limbs: [u64::MAX, u64::MAX, u64::MAX, l[3] - 1] }
        }
    }
}

/// The character of a decimal digit 0..=9.
pub open spec fn decimal_digit(d: int) -> char {
    (48 + d) as char
}

/// Whether a character is one of '0'..='9'.
pub open spec fn is_decimal_char(c: char) -> bool {
    48 <= c as int <= 57
}

/// The decimal text of a number: its digits, most significant first, with no
/// leading zeros (zero itself is "0").
pub open spec fn decimal_text(n: nat) -> Seq<char>
    decreases n,
{
    if n < 10 {
        seq![decimal_digit(n as int)]
    } else {
        decimal_text(n / 10).push(decimal_digit((n % 10) as int))
    }
}

/// The decimal text is non-empty, is one character exactly for one-digit
/// numbers, and holds only the characters '0'..='9'.
pub proof fn lemma_decimal_text_shape(n: nat)
    ensures
        decimal_text(n).len() >= 1,
        decimal_text(n).len() == 1 <==> n < 10,
        forall|i: int| 0 <= i < decimal_text(n).len() ==> is_decimal_char(#[trigger] decimal_text(n)[i]),
    decreases n,
{
    if n >= 10 {
        lemma_decimal_text_shape(n / 10);
    }
}

/// Distinct numbers have distinct decimal texts.
pub proof fn lemma_decimal_text_injective(n: nat, m: nat)
    requires
        decimal_text(n) == decimal_text(m),
    ensures
        n == m,
    decreases n,
{
    lemma_decimal_text_shape(n);
    lemma_decimal_text_shape(m);
    if n >= 10 {
        let dn = decimal_text(n);
        assert(dn.drop_last() =~= decimal_text(n / 10));
        assert(dn.drop_last() =~= decimal_text(m / 10));
        assert(dn.last() == decimal_digit((n % 10) as int));
        assert(dn.last() == decimal_digit((m % 10) as int));
        lemma_decimal_text_injective(n / 10, m / 10);
    } else {
        assert(decimal_text(n)[0] == decimal_digit(n as int));
        assert(decimal_text(m)[0] == decimal_digit(m as int));
    }
}

/// The number a text of decimal digits denotes, most significant first.
pub open spec fn decimal_value(text: Seq<char>) -> nat
    decreases text.len(),
{
    if text.len() == 0 {
        0
    } else {
        decimal_value(text.drop_last()) * 10 + ((text.last() as int - 48) as nat)
    }
}

/// Reading the decimal text of a number gives the number back, and the text
/// has no leading zero.
pub proof fn lemma_decimal_text_round_trip(n: nat)
    ensures
        decimal_value(decimal_text(n)) == n,
        decimal_text(n).len() == 1 || decimal_text(n)[0] != '0',
    decreases n,
{
    lemma_decimal_text_shape(n);
    let t = decimal_text(n);
    assert(decimal_value(t) == decimal_value(t.drop_last()) * 10 + ((t.last() as int - 48) as nat));
    if n < 10 {
        assert(t.drop_last() =~= Seq::<char>::empty());
        assert(decimal_value(t.drop_last()) == 0);
        assert(t.last() as int == 48 + n);
    } else {
        lemma_decimal_text_round_trip(n / 10);
        lemma_decimal_text_shape(n / 10);
        assert(t.drop_last() =~= decimal_text(n / 10));
        assert(t.last() as int == 48 + n % 10);
        assert(t[0] == decimal_text(n / 10)[0]);
        if decimal_text(n / 10).len() == 1 {
            assert(decimal_text(n / 10)[0] as int == 48 + n / 10);
        }
    }
}

/// Formats a number with the `Display` implementation of `casper_types::U256`
/// (the `construct_uint!` implementation of the `uint` crate), which writes the
/// decimal digits of the number with no sign, padding or leading zeros.
#[verifier::external_body]
pub(crate) fn u256_text(n: &U256) -> (text: String)
    ensures
        text@ == decimal_text(n.value()),
{
    casper_types::U256(n.limbs).to_string()
}

proof fn lemma_limbs_value_bounds(l0: int, l1: int, l2: int, l3: int)
    requires
        0 <= l0 < limb_radix(),
        0 <= l1 < limb_radix(),
        0 <= l2 < limb_radix(),
        0 <= l3 < limb_radix(),
    ensures
        0 <= limbs_value(l0, l1, l2, l3) <= u256_max(),
{
}

proof fn lemma_below_max(l0: int, l1: int, l2: int, l3: int)
    requires
        0 <= l0 < limb_radix(),
        0 <= l1 < limb_radix(),
        0 <= l2 < limb_radix(),
        0 <= l3 < limb_radix(),
        !(l0 == limb_radix() - 1 && l1 == limb_radix() - 1 && l2 == limb_radix() - 1 && l3
            == limb_radix() - 1),
    ensures
        limbs_value(l0, l1, l2, l3) < u256_max(),
{
}

proof fn lemma_split_limb(x: int, y: int, x2: int, y2: int)
    requires
        0 <= x < limb_radix(),
        0 <= x2 < limb_radix(),
        x + limb_radix() * y == x2 + limb_radix() * y2,
    ensures
        x == x2,
        y == y2,
{
}

} // verus!
