//! Remote-service identifiers arrive as decimal text; a text that is not a
//! valid unsigned 64-bit decimal collapses to the zero identifier.
use vstd::prelude::*;

verus! {

/// Whether `c` is an ASCII decimal digit.
pub open spec fn is_digit(c: char) -> bool {
    '0' <= c && c <= '9'
}

/// The value of the decimal digit `c`.
pub open spec fn digit_value(c: char) -> nat {
    ((c as int) - ('0' as int)) as nat
}

/// Whether every character of `s` is a decimal digit.
pub open spec fn all_digits(s: Seq<char>) -> bool {
    forall|i: int| 0 <= i < s.len() ==> is_digit(#[trigger] s[i])
}

/// The number that the digits `s` spell in base ten.
pub open spec fn decimal_value(s: Seq<char>) -> nat
    decreases s.len(),
{
    if s.len() == 0 {
        0
    } else {
        decimal_value(s.drop_last()) * 10 + digit_value(s.last())
    }
}

/// The digits of an identifier text: a single leading `+` is allowed.
pub open spec fn id_digits(s: Seq<char>) -> Seq<char> {
    if s.len() > 0 && s[0] == '+' {
        s.drop_first()
    } else {
        s
    }
}

/// Whether `s` is the decimal text of an unsigned 64-bit integer.
pub open spec fn is_id_text(s: Seq<char>) -> bool {
    let d = id_digits(s);
    d.len() > 0 && all_digits(d) && decimal_value(d) <= u64::MAX
}

/// The identifier that the text `s` stands for: its value when it is a
/// valid decimal, and the zero identifier otherwise.
pub open spec fn id_of_text(s: Seq<char>) -> u64 {
    if is_id_text(s) {
        decimal_value(id_digits(s)) as u64
    } else {
        0
    }
}

proof fn lemma_prefix_value_le(d: Seq<char>, i: int)
    requires
        0 <= i <= d.len(),
    ensures
        decimal_value(d.take(i)) <= decimal_value(d),
    decreases d.len(),
{
    if i < d.len() {
        lemma_prefix_value_le(d.drop_last(), i);
        assert(d.drop_last().take(i) =~= d.take(i));
    } else {
        assert(d.take(i) =~= d);
    }
}

/// Reads an identifier from its decimal text; anything that is not a valid
/// unsigned 64-bit decimal (empty, a stray character, too large) gives `0`.
pub fn parse_id(text: &str) -> (r: u64)
    ensures
        r == id_of_text(text@),
{
    let n = text.unicode_len();
    let mut start: usize = 0;
    if n > 0 && text.get_char(0) == '+' {
        start = 1;
    }
    let ghost d = id_digits(text@);
    assert(d =~= text@.subrange(start as int, n as int));
    if start == n {
        return 0;
    }
    let mut acc: u64 = 0;
    let mut i: usize = start;
    while i < n
        invariant
            start <= i <= n,
            n == text@.len(),
            d =~= text@.subrange(start as int, n as int),
            d == id_digits(text@),
            d.len() > 0,
            all_digits(d.take(i - start)),
            acc == decimal_value(d.take(i - start)),
        decreases n - i,
    {
        let c = text.get_char(i);
        let ghost k = (i - start) as int;
        assert(d.take(k + 1).drop_last() =~= d.take(k));
        assert(d[k] == c);
        if !('0' <= c && c <= '9') {
            assert(!is_digit(d[k]));
            assert(!all_digits(d));
            assert(!is_id_text(text@));
            return 0;
        }
        let digit: u64 = (c as u64) - ('0' as u64);
        proof {
            lemma_prefix_value_le(d, k + 1);
            assert(d.take(k + 1).last() == c);
            assert(decimal_value(d.take(k + 1)) == acc * 10 + digit);
        }
        if acc > (u64::MAX - digit) / 10 {
            assert(decimal_value(d.take(k + 1)) > u64::MAX) by (nonlinear_arith)
                requires
                    acc > (u64::MAX - digit) / 10,
                    decimal_value(d.take(k + 1)) == acc * 10 + digit,
                    digit <= 9,
            ;
            assert(!is_id_text(text@));
            return 0;
        }
        assert(acc * 10 + digit <= u64::MAX) by (nonlinear_arith)
            requires
                acc <= (u64::MAX - digit) / 10,
                digit <= 9,
        ;
        acc = acc * 10 + digit;
        i = i + 1;
        assert(all_digits(d.take(i - start))) by {
            assert forall|j: int| 0 <= j < (i - start) implies is_digit(
                #[trigger] d.take(i - start)[j],
            ) by {
                if j < k {
                    assert(d.take(i - start)[j] == d.take(k)[j]);
                }
            }
        }
    }
    assert(d.take(n - start) =~= d);
    acc
}

} // verus!
