use vstd::prelude::*;

verus! {

/// A decimal digit.
pub open spec fn is_digit(c: char) -> bool {
    '0' <= c && c <= '9'
}

/// The numeric value of a decimal digit.
pub open spec fn digit_value(c: char) -> nat {
    (c as nat - '0' as nat) as nat
}

/// The value of a sequence of decimal digits, most significant first.
pub open spec fn digits_value(s: Seq<char>) -> nat
    decreases s.len(),
{
    if s.len() == 0 {
        0
    } else {
        digits_value(s.drop_last()) * 10 + digit_value(s.last())
    }
}

/// The digits of an unsigned decimal literal: an optional leading `+` is dropped.
pub open spec fn unsigned_digits(s: Seq<char>) -> Seq<char> {
    if s.len() > 0 && s[0] == '+' {
        s.subrange(1, s.len() as int)
    } else {
        s
    }
}

/// Every character of `s` is a decimal digit.
pub open spec fn all_digits(s: Seq<char>) -> bool {
    forall|i: int| 0 <= i < s.len() ==> is_digit(#[trigger] s[i])
}

/// `s` is a base-10 literal of an unsigned 128-bit integer with nothing around it.
pub open spec fn is_set_id(s: Seq<char>) -> bool {
    &&& unsigned_digits(s).len() > 0
    &&& all_digits(unsigned_digits(s))
    &&& digits_value(unsigned_digits(s)) <= u128::MAX
}

proof fn lemma_digits_value_monotone(s: Seq<char>, i: int, j: int)
    requires
        0 <= i <= j <= s.len(),
    ensures
        digits_value(s.subrange(0, i)) <= digits_value(s.subrange(0, j)),
    decreases j - i,
{
    if i < j {
        lemma_digits_value_monotone(s, i, j - 1);
        assert(s.subrange(0, j).drop_last() =~= s.subrange(0, j - 1));
    }
}

/// Whether `set_id` names a set of the storage generation that this gateway
/// serves: those are identified by an unsigned integer.
pub fn valid_set_id(set_id: &str) -> (r: bool)
    ensures
        r == is_set_id(set_id@),
{
    let n = set_id.unicode_len();
    let mut start: usize = 0;
    if n > 0 && set_id.get_char(0) == '+' {
        start = 1;
    }
    let ghost d = unsigned_digits(set_id@);
    assert(d =~= set_id@.subrange(start as int, n as int));
    if start >= n {
        return false;
    }
    let mut value: u128 = 0;
    let mut i: usize = start;
    while i < n
        invariant
            start <= i <= n,
            n == set_id@.len(),
            d == set_id@.subrange(start as int, n as int),
            d == unsigned_digits(set_id@),
            forall|k: int| 0 <= k < i - start ==> is_digit(#[trigger] d[k]),
            value as nat == digits_value(d.subrange(0, i - start)),
        decreases n - i,
    {
        let c = set_id.get_char(i);
        assert(c == d[i - start]);
        assert(d.subrange(0, i - start + 1).drop_last() =~= d.subrange(0, i - start));
        if !('0' <= c && c <= '9') {
            assert(!is_digit(d[i - start]));
            return false;
        }
        let dv = (c as u32 - '0' as u32) as u128;
        match value.checked_mul(10) {
            None => {
                proof {
                    assert(digits_value(d.subrange(0, i - start + 1)) >= value * 10);
                    if all_digits(d) {
                        lemma_digits_value_monotone(d, i - start + 1, d.len() as int);
                        assert(d.subrange(0, d.len() as int) =~= d);
                    }
                }
                return false;
            },
            Some(m) => match m.checked_add(dv) {
                None => {
                    proof {
                        if all_digits(d) {
                            lemma_digits_value_monotone(d, i - start + 1, d.len() as int);
                            assert(d.subrange(0, d.len() as int) =~= d);
                        }
                    }
                    return false;
                },
                Some(v) => {
                    value = v;
                },
            },
        }
        i = i + 1;
    }
    assert(d.subrange(0, (n - start) as int) =~= d);
    true
}

} // verus!
