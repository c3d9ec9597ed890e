use vstd::prelude::*;

verus! {

/// Whether a byte is an ASCII decimal digit.
pub open spec fn is_digit(c: u8) -> bool {
    48 <= c <= 57
}

/// The numeric value of an ASCII decimal digit.
pub open spec fn digit_val(c: u8) -> int {
    c - 48
}

/// Whether every byte of the sequence is an ASCII decimal digit.
pub open spec fn all_digits(s: Seq<u8>) -> bool {
    forall|i: int| 0 <= i < s.len() ==> is_digit(#[trigger] s[i])
}

/// The value of a sequence of decimal digits, most significant first.
pub open spec fn digits_value(s: Seq<u8>) -> int
    decreases s.len(),
{
    if s.len() == 0 {
        0
    } else {
        digits_value(s.drop_last()) * 10 + digit_val(s.last())
    }
}

/// The digits of a numeral: the text with one optional leading plus sign
/// (byte 43) stripped.
pub open spec fn numeral_body(s: Seq<u8>) -> Seq<u8> {
    if s.len() >= 1 && s[0] == 43 {
        s.subrange(1, s.len() as int)
    } else {
        s
    }
}

/// Whether the text is a valid unsigned 64-bit numeral: after the optional
/// plus sign, at least one digit, nothing but digits, and a value that fits.
pub open spec fn is_valid_u64_numeral(s: Seq<u8>) -> bool {
    let b = numeral_body(s);
    b.len() >= 1 && all_digits(b) && digits_value(b) <= u64::MAX
}

/// A sequence of digits has a non-negative value.
pub proof fn lemma_digits_value_nonneg(s: Seq<u8>)
    requires
        all_digits(s),
    ensures
        digits_value(s) >= 0,
    decreases s.len(),
{
    if s.len() > 0 {
        assert(all_digits(s.drop_last())) by {
            assert(forall|i: int|
                0 <= i < s.len() - 1 ==> #[trigger] s.drop_last()[i] == s[i]);
        }
        lemma_digits_value_nonneg(s.drop_last());
    }
}

/// Appending one digit multiplies the value by ten and adds the digit.
pub proof fn lemma_digits_value_push(s: Seq<u8>, c: u8)
    ensures
        digits_value(s.push(c)) == digits_value(s) * 10 + digit_val(c),
{
    assert(s.push(c).drop_last() =~= s);
    assert(s.push(c).last() == c);
}

/// Over digits, the value of a prefix never exceeds the value of the whole.
pub proof fn lemma_digits_value_prefix_le(s: Seq<u8>, i: int)
    requires
        all_digits(s),
        0 <= i <= s.len(),
    ensures
        digits_value(s.subrange(0, i)) <= digits_value(s),
    decreases s.len() - i,
{
    if i == s.len() {
        assert(s.subrange(0, i) =~= s);
    } else {
        assert(s.subrange(0, i + 1) =~= s.subrange(0, i).push(s[i]));
        lemma_digits_value_push(s.subrange(0, i), s[i]);
        assert(all_digits(s.subrange(0, i))) by {
            assert(forall|j: int|
                0 <= j < i ==> #[trigger] s.subrange(0, i)[j] == s[j]);
        }
        lemma_digits_value_nonneg(s.subrange(0, i));
        lemma_digits_value_prefix_le(s, i + 1);
    }
}

/// Reads an unsigned 64-bit number from decimal text, as the configuration
/// flags are given: an optional leading plus sign, then one or more digits.
/// Returns the value exactly when the text is a valid numeral whose value
/// fits, and nothing otherwise.
pub fn parse_u64(s: &[u8]) -> (r: Option<u64>)
    ensures
        r is Some <==> is_valid_u64_numeral(s@),
        r is Some ==> r.unwrap() == digits_value(numeral_body(s@)),
{
    let n = s.len();
    let start: usize = if n >= 1 && s[0] == 43u8 {
        1
    } else {
        0
    };
    proof {
        assert(numeral_body(s@) =~= s@.subrange(start as int, n as int));
    }
    if start >= n {
        return None;
    }
    let mut acc: u64 = 0;
    let mut i = start;
    while i < n
        invariant
            start <= i <= n,
            n == s.len(),
            start <= 1,
            numeral_body(s@) =~= s@.subrange(start as int, n as int),
            all_digits(s@.subrange(start as int, i as int)),
            acc == digits_value(s@.subrange(start as int, i as int)),
        decreases n - i,
    {
        let c = s[i];
        proof {
            assert(s@.subrange(start as int, i + 1) =~= s@.subrange(
                start as int,
                i as int,
            ).push(s@[i as int]));
            lemma_digits_value_push(s@.subrange(start as int, i as int), s@[i as int]);
        }
        if !(48 <= c && c <= 57) {
            proof {
                assert(numeral_body(s@)[i - start] == s@[i as int]);
            }
            return None;
        }
        let d = (c - 48) as u64;
        let scaled = match acc.checked_mul(10) {
            Some(m) => m.checked_add(d),
            None => None,
        };
        match scaled {
            Some(v) => {
                acc = v;
            },
            None => {
                proof {
                    if is_valid_u64_numeral(s@) {
                        lemma_digits_value_prefix_le(numeral_body(s@), i + 1 - start);
                        assert(numeral_body(s@).subrange(0, i + 1 - start) =~= s@.subrange(
                            start as int,
                            i + 1,
                        ));
                    }
                }
                return None;
            },
        }
        i = i + 1;
    }
    proof {
        assert(s@.subrange(start as int, i as int) =~= numeral_body(s@));
    }
    Some(acc)
}

} // verus!
