//! Amounts of the native currency.
//!
//! An amount is held as a whole number of bones, the smallest unit. One
//! whole unit is 100,000,000 bones, so the text of an amount has at most
//! eight decimals: text with more is refused, never rounded.

use crate::result::{ValidationError, WalletError};
use crate::text::{
    all_digits, chars_of, decimal, digits_value, find_char, first_index, fixed_decimal,
    is_digit, lemma_decimal, lemma_digits_concat, lemma_digits_prefix, lemma_first_index,
    lemma_fixed_decimal, pow10, push_decimal, push_fixed_decimal, read_digits, string_of,
};
use vstd::prelude::*;

verus! {

/// Number of decimals of an amount.
pub const HNT_DECIMALS: usize = 8;

/// Number of bones in one whole unit.
pub const BONES_PER_HNT: u64 = 100_000_000;

/// An amount, in bones.
#[derive(Clone, Copy, Debug, PartialEq, Eq, Structural)]
pub struct Hnt {
    pub bones: u64,
}

/// A run of `n` zeros.
pub open spec fn zeros(n: nat) -> Seq<char> {
    Seq::new(n, |i: int| '0')
}

/// The digits before the decimal point of an amount.
pub open spec fn whole_part(text: Seq<char>) -> Seq<char> {
    text.take(first_index(text, '.'))
}

/// The digits after the decimal point of an amount; none where it has no
/// decimal point.
pub open spec fn decimal_part(text: Seq<char>) -> Seq<char> {
    if first_index(text, '.') < text.len() {
        text.skip(first_index(text, '.') + 1)
    } else {
        Seq::empty()
    }
}

/// The text is an amount: one or more digits, and then nothing more or a
/// point and one to eight digits.
pub open spec fn is_amount(text: Seq<char>) -> bool {
    &&& whole_part(text).len() >= 1
    &&& all_digits(whole_part(text))
    &&& all_digits(decimal_part(text))
    &&& decimal_part(text).len() <= HNT_DECIMALS
    &&& first_index(text, '.') < text.len() ==> decimal_part(text).len() >= 1
}

/// The digits of an amount in bones: those before the point, those after
/// it, and zeros up to eight decimals.
pub open spec fn bones_digits(text: Seq<char>) -> Seq<char> {
    whole_part(text) + decimal_part(text) + zeros((HNT_DECIMALS - decimal_part(text).len()) as nat)
}

/// The bones that the text of an amount stands for, where it is one and
/// the bones fit 64 bits.
pub open spec fn amount_bones(text: Seq<char>) -> Option<u64> {
    if is_amount(text) && digits_value(bones_digits(text)) <= u64::MAX {
        Some(digits_value(bones_digits(text)) as u64)
    } else {
        None
    }
}

/// The text of an amount of bones: the whole units, a point, and eight
/// decimals.
pub open spec fn amount_text(bones: u64) -> Seq<char> {
    decimal((bones / BONES_PER_HNT) as nat) + seq!['.'] + fixed_decimal(
        (bones % BONES_PER_HNT) as nat,
        HNT_DECIMALS as nat,
    )
}

/// Every amount of bones is read back from its text without loss.
pub proof fn lemma_amount_round_trip(bones: u64)
    ensures
        amount_bones(amount_text(bones)) == Some(bones),
{
    let q = (bones / BONES_PER_HNT) as nat;
    let r = (bones % BONES_PER_HNT) as nat;
    let whole = decimal(q);
    let frac = fixed_decimal(r, 8);
    let text = amount_text(bones);
    lemma_decimal(q);
    lemma_fixed_decimal(r, 8);
    reveal_with_fuel(pow10, 9);
    assert(pow10(8) == 100_000_000);
    assert forall|j: int| 0 <= j < whole.len() implies text[j] != '.' by {
        assert(text[j] == whole[j]);
        assert(is_digit(whole[j]));
    }
    assert(text[whole.len() as int] == '.');
    lemma_first_index(text, '.', whole.len() as int);
    assert(whole_part(text) =~= whole);
    assert(decimal_part(text) =~= frac);
    assert(bones_digits(text) =~= whole + frac);
    lemma_digits_concat(whole, frac);
    assert(q * 100_000_000 + r == bones);
}

impl Hnt {
    /// The amount of the given number of bones.
    pub fn from_bones(bones: u64) -> (r: Hnt)
        ensures
            r.bones == bones,
    {
        Hnt { bones }
    }

    /// The amount in bones.
    pub fn to_bones(&self) -> (r: u64)
        ensures
            r == self.bones,
    {
        self.bones
    }

    /// The amount that the text stands for, or a validation error where
    /// the text is not an amount, has more than eight decimals, or stands
    /// for more bones than fit 64 bits.
    pub fn from_text(text: &str) -> (r: Result<Hnt, WalletError>)
        ensures
            match r {
                Ok(amount) => amount_bones(text@) == Some(amount.bones),
                Err(err) => amount_bones(text@) is None && err == WalletError::Validation(
                    ValidationError::Amount,
                ),
            },
    {
        let chars = chars_of(text);
        Hnt::from_chars(chars.as_slice())
    }

    /// The amount that the characters stand for, as `from_text`.
    pub fn from_chars(chars: &[char]) -> (r: Result<Hnt, WalletError>)
        ensures
            match r {
                Ok(amount) => amount_bones(chars@) == Some(amount.bones),
                Err(err) => amount_bones(chars@) is None && err == WalletError::Validation(
                    ValidationError::Amount,
                ),
            },
    {
        let refused = Err(WalletError::Validation(ValidationError::Amount));
        let n = chars.len();
        let dot = find_char(chars, '.');
        let ghost whole = whole_part(chars@);
        let ghost frac = decimal_part(chars@);
        let ghost total = bones_digits(chars@);
        assert(whole =~= chars@.subrange(0, dot as int));
        if dot == 0 {
            return refused;
        }
        let from: usize = if dot < n {
            dot + 1
        } else {
            n
        };
        assert(frac =~= chars@.subrange(from as int, n as int));
        if dot < n && from == n {
            return refused;
        }
        if n - from > HNT_DECIMALS {
            return refused;
        }
        let pad: usize = HNT_DECIMALS - (n - from);
        let mut padding: Vec<char> = Vec::new();
        while padding.len() < pad
            invariant
                padding@.len() <= pad,
                padding@ == zeros(padding@.len()),
            decreases pad - padding@.len(),
        {
            padding.push('0');
            assert(padding@ =~= zeros(padding@.len()));
        }
        assert(padding@.subrange(0, pad as int) =~= zeros(pad as nat));
        proof {
            lemma_digits_concat(whole, frac);
            lemma_digits_concat(whole + frac, zeros(pad as nat));
            assert(total.take(whole.len() as int) =~= whole);
            assert(total.take((whole.len() + frac.len()) as int) =~= whole + frac);
            lemma_digits_prefix(total, whole.len() as int);
            lemma_digits_prefix(total, (whole.len() + frac.len()) as int);
            assert(0 * pow10(whole.len()) == 0) by (nonlinear_arith);
        }
        let v1 = match read_digits(chars, 0, dot, 0) {
            Some(v) => v,
            None => {
                return refused;
            },
        };
        let v2 = match read_digits(chars, from, n, v1) {
            Some(v) => v,
            None => {
                return refused;
            },
        };
        match read_digits(padding.as_slice(), 0, pad, v2) {
            Some(bones) => Ok(Hnt { bones }),
            None => {
                assert(all_digits(zeros(pad as nat)));
                refused
            },
        }
    }

    /// The text of the amount: the whole units, a point, and eight
    /// decimals. Reading the text gives the amount again.
    pub fn to_text(&self) -> (r: String)
        ensures
            r@ == amount_text(self.bones),
            amount_bones(r@) == Some(self.bones),
    {
        let mut chars: Vec<char> = Vec::new();
        push_decimal(&mut chars, self.bones / BONES_PER_HNT);
        chars.push('.');
        push_fixed_decimal(&mut chars, self.bones % BONES_PER_HNT, HNT_DECIMALS);
        proof {
            lemma_amount_round_trip(self.bones);
            assert(chars@ =~= amount_text(self.bones));
            assert(chars@.subrange(0, chars@.len() as int) =~= chars@);
        }
        string_of(chars.as_slice(), 0, chars.len())
    }
}

} // verus!
