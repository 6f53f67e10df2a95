use vstd::prelude::*;

verus! {

/// Largest value of a `u64`, as a mathematical integer.
pub open spec fn u64_max() -> nat {
    0xffff_ffff_ffff_ffffnat
}

pub open spec fn is_digit(c: char) -> bool {
    '0' <= c && c <= '9'
}

pub open spec fn digit_value(c: char) -> nat {
    (c as nat - '0' as nat) as nat
}

/// The number that a run of decimal digits denotes.
pub open spec fn digits_value(d: Seq<char>) -> nat
    decreases d.len(),
{
    if d.len() == 0 {
        0
    } else {
        digits_value(d.drop_last()) * 10 + digit_value(d.last())
    }
}

/// The text after an optional leading `+`.
pub open spec fn unsigned_part(s: Seq<char>) -> Seq<char> {
    if s.len() > 0 && s[0] == '+' {
        s.drop_first()
    } else {
        s
    }
}

/// How many digits `d` starts with.
pub open spec fn leading_digits(d: Seq<char>) -> nat
    decreases d.len(),
{
    if d.len() == 0 || !is_digit(d[0]) {
        0
    } else {
        1 + leading_digits(d.drop_first())
    }
}

/// Why a text is not an unsigned 64-bit decimal number.
#[derive(Clone, Copy, Debug, PartialEq, Eq)]
pub enum NumberError {
    /// The text is empty.
    Empty,
    /// A character that is not a digit comes before the value grows too large.
    InvalidDigit,
    /// The digits denote a number above `u64::MAX`.
    TooLarge,
}

impl NumberError {
    /// The message that describes this error.
    pub fn message(&self) -> (r: &'static str) {
        match self {
            NumberError::Empty => "cannot parse integer from empty string",
            NumberError::InvalidDigit => "invalid digit found in string",
            NumberError::TooLarge => "number too large to fit in target type",
        }
    }
}

/// The outcome of reading `s` as an unsigned decimal number: an optional `+`,
/// then digits. Digits are read left to right, so a value that grows too
/// large is reported before a later stray character.
pub open spec fn decimal_spec(s: Seq<char>) -> Result<u64, NumberError> {
    let d = unsigned_part(s);
    let k = leading_digits(d);
    if s.len() == 0 {
        Err(NumberError::Empty)
    } else if digits_value(d.take(k as int)) > u64_max() {
        Err(NumberError::TooLarge)
    } else if d.len() == 0 || k < d.len() {
        Err(NumberError::InvalidDigit)
    } else {
        Ok(digits_value(d) as u64)
    }
}

proof fn lemma_leading_digits(d: Seq<char>, i: int)
    requires
        0 <= i <= d.len(),
        forall|j: int| 0 <= j < i ==> is_digit(#[trigger] d[j]),
        i == d.len() || !is_digit(d[i]),
    ensures
        leading_digits(d) == i,
    decreases d.len(),
{
    if d.len() > 0 && i > 0 {
        assert forall|j: int| 0 <= j < i - 1 implies is_digit(#[trigger] d.drop_first()[j]) by {
            assert(is_digit(d[j + 1]));
        }
        lemma_leading_digits(d.drop_first(), i - 1);
    }
}

proof fn lemma_prefix_grows(d: Seq<char>, j: int, k: int)
    requires
        0 <= j <= k <= d.len(),
    ensures
        digits_value(d.take(j)) <= digits_value(d.take(k)),
    decreases k - j,
{
    if j < k {
        lemma_prefix_grows(d, j, k - 1);
        assert(d.take(k).drop_last() =~= d.take(k - 1));
    }
}

/// Reads `s` as an unsigned 64-bit decimal number.
pub fn parse_decimal_u64(s: &str) -> (r: Result<u64, NumberError>)
    ensures
        r == decimal_spec(s@),
{
    let n = s.unicode_len();
    if n == 0 {
        return Err(NumberError::Empty);
    }
    let start: usize = if s.get_char(0) == '+' { 1 } else { 0 };
    let ghost d = unsigned_part(s@);
    assert(d =~= s@.subrange(start as int, n as int));
    let mut acc: u64 = 0;
    let mut i: usize = start;
    while i < n
        invariant
            start <= i <= n,
            n == s@.len(),
            d =~= s@.subrange(start as int, n as int),
            d == unsigned_part(s@),
            forall|j: int| 0 <= j < i - start ==> is_digit(#[trigger] d[j]),
            acc == digits_value(d.take(i - start)),
        decreases n - i,
    {
        let c = s.get_char(i);
        assert(c == d[i - start]);
        if !('0' <= c && c <= '9') {
            proof {
                lemma_leading_digits(d, i - start);
                assert(acc <= u64::MAX);
                assert(digits_value(d.take(leading_digits(d) as int)) <= u64_max());
            }
            return Err(NumberError::InvalidDigit);
        }
        let v = (c as u32 - '0' as u32) as u64;
        proof {
            assert(d.take(i - start + 1).drop_last() =~= d.take(i - start));
            assert(d.take(i - start + 1).last() == c);
        }
        if acc > (u64::MAX - v) / 10 {
            proof {
                assert(acc * 10 + v > u64::MAX) by (nonlinear_arith)
                    requires
                        acc > (u64::MAX - v) / 10,
                        v <= 9,
                ;
                assert(digits_value(d.take(i - start + 1)) > u64_max());
                assert forall|j: int| 0 <= j < i - start + 1 implies is_digit(#[trigger] d[j]) by {}
                let k = leading_digits(d) as int;
                lemma_leading_stops(d);
                if k < i - start + 1 {
                    assert(!is_digit(d[k])) by {
                        lemma_leading_stops(d);
                    }
                }
                lemma_leading_at_least(d, i - start + 1);
                lemma_prefix_grows(d, i - start + 1, k);
            }
            return Err(NumberError::TooLarge);
        }
        acc = acc * 10 + v;
        i = i + 1;
    }
    proof {
        lemma_leading_digits(d, n - start);
        assert(d.take(n - start) =~= d);
    }
    if i == start {
        return Err(NumberError::InvalidDigit);
    }
    Ok(acc)
}

proof fn lemma_leading_stops(d: Seq<char>)
    ensures
        leading_digits(d) <= d.len(),
        leading_digits(d) < d.len() ==> !is_digit(d[leading_digits(d) as int]),
        forall|j: int| 0 <= j < leading_digits(d) ==> is_digit(#[trigger] d[j]),
    decreases d.len(),
{
    if d.len() > 0 && is_digit(d[0]) {
        lemma_leading_stops(d.drop_first());
        assert forall|j: int| 0 <= j < leading_digits(d) implies is_digit(#[trigger] d[j]) by {
            if j > 0 {
                assert(d[j] == d.drop_first()[j - 1]);
            }
        }
    }
}

proof fn lemma_leading_at_least(d: Seq<char>, m: int)
    requires
        0 <= m <= d.len(),
        forall|j: int| 0 <= j < m ==> is_digit(#[trigger] d[j]),
    ensures
        m <= leading_digits(d),
    decreases m,
{
    if m > 0 {
        assert forall|j: int| 0 <= j < m - 1 implies is_digit(#[trigger] d.drop_first()[j]) by {
            assert(is_digit(d[j + 1]));
        }
        lemma_leading_at_least(d.drop_first(), m - 1);
    }
}

/// The digit character for a value below ten.
pub open spec fn digit_char(v: nat) -> char {
    ((v + '0' as nat) as u32) as char
}

/// The canonical decimal text of a number: no sign, no leading zeros.
pub open spec fn decimal_text(n: nat) -> Seq<char>
    decreases n,
{
    if n < 10 {
        seq![digit_char(n)]
    } else {
        decimal_text(n / 10).push(digit_char(n % 10))
    }
}

proof fn lemma_decimal_text(n: nat)
    ensures
        decimal_text(n).len() > 0,
        forall|j: int| 0 <= j < decimal_text(n).len() ==> is_digit(#[trigger] decimal_text(n)[j]),
        digits_value(decimal_text(n)) == n,
    decreases n,
{
    let t = decimal_text(n);
    if n >= 10 {
        lemma_decimal_text(n / 10);
        assert(t.drop_last() =~= decimal_text(n / 10));
        assert(digit_value(digit_char(n % 10)) == n % 10);
        assert(n == (n / 10) * 10 + n % 10);
        assert(t.last() == digit_char(n % 10));
        assert(digits_value(t) == digits_value(t.drop_last()) * 10 + digit_value(t.last()));
        assert forall|j: int| 0 <= j < t.len() implies is_digit(#[trigger] t[j]) by {
            if j < t.len() - 1 {
                assert(t[j] == decimal_text(n / 10)[j]);
            }
        }
    } else {
        assert(t.drop_last() =~= Seq::<char>::empty());
        assert(digit_value(digit_char(n)) == n);
        assert(t.last() == digit_char(n));
        assert(digits_value(t) == digits_value(t.drop_last()) * 10 + digit_value(t.last()));
    }
}

/// Every `u64` written in canonical decimal reads back as itself.
pub proof fn decimal_round_trip(v: u64)
    ensures
        decimal_spec(decimal_text(v as nat)) == Ok::<u64, NumberError>(v),
{
    let t = decimal_text(v as nat);
    lemma_decimal_text(v as nat);
    assert(unsigned_part(t) == t);
    lemma_leading_digits(t, t.len() as int);
    assert(t.take(t.len() as int) =~= t);
}

} // verus!
