//! Unsigned decimal numbers as ASCII text: the feed's timestamp strings and
//! the checkpoint record are both written this way.

use vstd::prelude::*;

verus! {

/// Why a byte string is not an unsigned decimal number.
#[derive(Debug, Clone, Copy, PartialEq, Eq, Structural)]
pub enum DecimalError {
    /// The text is empty.
    Empty,
    /// A byte other than an ASCII digit (after an optional leading `+`), or
    /// no digit at all.
    InvalidDigit,
    /// The number does not fit in 64 bits.
    Overflow,
}

pub open spec fn is_digit(b: u8) -> bool {
    48 <= b <= 57
}

pub open spec fn all_digits(s: Seq<u8>) -> bool {
    forall|i: int| 0 <= i < s.len() ==> is_digit(#[trigger] s[i])
}

/// The number that a string of ASCII digits denotes, most significant first.
pub open spec fn digits_value(s: Seq<u8>) -> nat
    decreases s.len(),
{
    if s.len() == 0 {
        0
    } else {
        digits_value(s.drop_last()) * 10 + (s.last() - 48) as nat
    }
}

/// The text without its optional leading `+`.
pub open spec fn unsigned_part(s: Seq<u8>) -> Seq<u8> {
    if s.len() > 0 && s[0] == 43 {
        s.drop_first()
    } else {
        s
    }
}

/// What parsing `s` as an unsigned 64-bit decimal gives.
pub open spec fn decimal_result(s: Seq<u8>) -> Result<u64, DecimalError> {
    let d = unsigned_part(s);
    if s.len() == 0 {
        Err(DecimalError::Empty)
    } else if d.len() == 0 || !all_digits(d) {
        Err(DecimalError::InvalidDigit)
    } else if digits_value(d) > u64::MAX {
        Err(DecimalError::Overflow)
    } else {
        Ok(digits_value(d) as u64)
    }
}

/// The shortest decimal text of `n`.
pub open spec fn decimal_digits(n: nat) -> Seq<u8>
    decreases n,
{
    if n < 10 {
        seq![(n + 48) as u8]
    } else {
        decimal_digits(n / 10).push((n % 10 + 48) as u8)
    }
}

proof fn lemma_prefix_value_le(s: Seq<u8>, k: int)
    requires
        0 <= k <= s.len(),
        all_digits(s),
    ensures
        digits_value(s.subrange(0, k)) <= digits_value(s),
    decreases s.len(),
{
    if k < s.len() {
        let t = s.drop_last();
        assert(t.subrange(0, k) =~= s.subrange(0, k));
        lemma_prefix_value_le(t, k);
    } else {
        assert(s.subrange(0, k) =~= s);
    }
}

proof fn lemma_decimal_digits(n: nat)
    ensures
        decimal_digits(n).len() > 0,
        all_digits(decimal_digits(n)),
        digits_value(decimal_digits(n)) == n,
        decimal_digits(n)[0] != 43,
    decreases n,
{
    let s = decimal_digits(n);
    if n < 10 {
        assert(s.drop_last() =~= Seq::<u8>::empty());
        assert(s.last() == n + 48);
        assert(digits_value(s) == digits_value(s.drop_last()) * 10 + n);
    } else {
        lemma_decimal_digits(n / 10);
        assert(s.drop_last() =~= decimal_digits(n / 10));
        assert(s.last() == n % 10 + 48);
        assert(s[0] == decimal_digits(n / 10)[0]);
        assert(digits_value(s) == digits_value(decimal_digits(n / 10)) * 10 + n % 10);
        assert((n / 10) * 10 + n % 10 == n);
    }
}

/// Parses an unsigned 64-bit decimal: an optional `+` followed by one or more
/// ASCII digits, with no other byte.
pub fn parse_decimal(s: &[u8]) -> (r: Result<u64, DecimalError>)
    ensures
        r == decimal_result(s@),
{
    if s.len() == 0 {
        return Err(DecimalError::Empty);
    }
    let start: usize = if s[0] == 43u8 { 1 } else { 0 };
    let ghost d = unsigned_part(s@);
    assert(d =~= s@.subrange(start as int, s@.len() as int));
    if start == s.len() {
        return Err(DecimalError::InvalidDigit);
    }
    let mut i: usize = start;
    while i < s.len()
        invariant
            start <= i <= s.len(),
            d == unsigned_part(s@),
            s@.len() > 0,
            d =~= s@.subrange(start as int, s@.len() as int),
            forall|j: int| start <= j < i ==> is_digit(#[trigger] s@[j]),
        decreases s.len() - i,
    {
        if s[i] < 48u8 || s[i] > 57u8 {
            assert(d[i - start] == s@[i as int]);
            assert(!is_digit(d[i - start]));
            assert(!all_digits(d));
            return Err(DecimalError::InvalidDigit);
        }
        i = i + 1;
    }
    assert(all_digits(d)) by {
        assert forall|j: int| 0 <= j < d.len() implies is_digit(#[trigger] d[j]) by {
            assert(d[j] == s@[start + j]);
        }
    }
    let mut acc: u64 = 0;
    i = start;
    assert(s@.subrange(start as int, i as int) =~= Seq::<u8>::empty());
    while i < s.len()
        invariant
            start <= i <= s.len(),
            d == unsigned_part(s@),
            s@.len() > 0,
            d =~= s@.subrange(start as int, s@.len() as int),
            all_digits(d),
            acc == digits_value(s@.subrange(start as int, i as int)),
        decreases s.len() - i,
    {
        let ghost p = s@.subrange(start as int, i as int + 1);
        assert(p.drop_last() =~= s@.subrange(start as int, i as int));
        assert(is_digit(d[i - start]));
        let digit: u64 = (s[i] - 48u8) as u64;
        assert(digits_value(p) == acc * 10 + digit);
        if acc > (u64::MAX - digit) / 10 {
            assert(acc * 10 + digit > u64::MAX) by (nonlinear_arith)
                requires
                    acc > (u64::MAX - digit) / 10,
                    digit <= 9,
            ;
            assert(p =~= d.subrange(0, i - start + 1));
            proof {
                lemma_prefix_value_le(d, i - start + 1);
            }
            assert(digits_value(d) > u64::MAX);
            return Err(DecimalError::Overflow);
        }
        assert(acc * 10 + digit <= u64::MAX) by (nonlinear_arith)
            requires
                acc <= (u64::MAX - digit) / 10,
                digit <= 9,
        ;
        acc = acc * 10 + digit;
        i = i + 1;
    }
    assert(s@.subrange(start as int, i as int) =~= d);
    Ok(acc)
}

/// Appends the shortest decimal text of `n` to `out`.
pub fn write_decimal(n: u64, out: &mut Vec<u8>)
    ensures
        final(out)@ == old(out)@ + decimal_digits(n as nat),
    decreases n,
{
    if n >= 10 {
        write_decimal(n / 10, out);
    }
    out.push(((n % 10) as u8) + 48u8);
    proof {
        if n >= 10 {
            assert(final(out)@ =~= old(out)@ + decimal_digits(n as nat));
        } else {
            assert(final(out)@ =~= old(out)@ + decimal_digits(n as nat));
        }
    }
}

/// Parsing the decimal text of a number gives the number back.
pub proof fn lemma_decimal_round_trip(n: u64)
    ensures
        decimal_result(decimal_digits(n as nat)) == Ok::<u64, DecimalError>(n),
{
    lemma_decimal_digits(n as nat);
    assert(unsigned_part(decimal_digits(n as nat)) == decimal_digits(n as nat));
}

} // verus!
