//! The answer parser: a line of input as a signed decimal integer.

use vstd::prelude::*;

verus! {

/// An ASCII decimal digit.
pub open spec fn is_digit_char(c: char) -> bool {
    48 <= c as int <= 57
}

/// The numeric value of an ASCII digit character.
pub open spec fn digit_val(c: char) -> int {
    c as int - 48
}

/// Every character of the sequence is a decimal digit.
pub open spec fn all_digits(s: Seq<char>) -> bool {
    forall|i: int| 0 <= i < s.len() ==> is_digit_char(#[trigger] s[i])
}

/// The value of a digit sequence read in base ten, most significant
/// digit first.
pub open spec fn digits_val(s: Seq<char>) -> int
    decreases s.len(),
{
    if s.len() == 0 {
        0
    } else {
        digits_val(s.drop_last()) * 10 + digit_val(s.last())
    }
}

/// The shape `-?[0-9]+`: one or more digits, with an optional single
/// leading minus sign.
pub open spec fn is_int_literal(s: Seq<char>) -> bool {
    if s.len() == 0 {
        false
    } else if s[0] == '-' {
        s.len() >= 2 && all_digits(s.subrange(1, s.len() as int))
    } else {
        all_digits(s)
    }
}

/// The signed value of an integer literal.
pub open spec fn literal_val(s: Seq<char>) -> int {
    if s.len() > 0 && s[0] == '-' {
        -digits_val(s.subrange(1, s.len() as int))
    } else {
        digits_val(s)
    }
}

/// A digit sequence has a nonnegative value.
proof fn lemma_digits_val_nonneg(s: Seq<char>)
    requires
        all_digits(s),
    ensures
        digits_val(s) >= 0,
    decreases s.len(),
{
    if s.len() > 0 {
        assert(all_digits(s.drop_last()));
        lemma_digits_val_nonneg(s.drop_last());
    }
}

/// Appending a digit multiplies the value by ten and adds the digit.
proof fn lemma_digits_val_push(s: Seq<char>, c: char)
    ensures
        digits_val(s.push(c)) == digits_val(s) * 10 + digit_val(c),
{
    assert(s.push(c).drop_last() =~= s);
    assert(s.push(c).last() == c);
}

/// Parses a line as a signed decimal integer. Exactly the strings of
/// the shape `-?[0-9]+` whose value fits an `i32` are accepted; no
/// surrounding whitespace is allowed.
pub fn parse_answer(s: &str) -> (r: Option<i32>)
    ensures
        r is Some <==> is_int_literal(s@) && i32::MIN <= literal_val(s@) <= i32::MAX,
        r is Some ==> r->0 == literal_val(s@),
{
    let len = s.unicode_len();
    if len == 0 {
        return None;
    }
    let first = s.get_char(0);
    let neg = first == '-';
    let start: usize = if neg { 1 } else { 0 };
    if start == len {
        // a lone minus sign has no digits
        return None;
    }
    let ghost digits: Seq<char> = s@.subrange(start as int, len as int);
    let mut i: usize = start;
    let mut acc: u64 = 0;
    let mut over = false;
    while i < len
        invariant
            start <= i <= len,
            start < len,
            len == s@.len(),
            neg == (s@[0] == '-'),
            start == (if neg { 1int } else { 0int }),
            digits == s@.subrange(start as int, len as int),
            all_digits(s@.subrange(start as int, i as int)),
            !over ==> acc == digits_val(s@.subrange(start as int, i as int)),
            !over ==> acc <= 2_147_483_648,
            over ==> digits_val(s@.subrange(start as int, i as int)) > 2_147_483_648,
        decreases len - i,
    {
        let c = s.get_char(i);
        let code = c as u32;
        if code < 48 || code > 57 {
            // a non-digit character: the line is no integer literal
            proof {
                assert(!is_digit_char(s@[i as int]));
                if neg {
                    assert(s@.subrange(1, len as int)[i - 1] == s@[i as int]);
                    assert(!all_digits(s@.subrange(1, len as int)));
                } else {
                    assert(!all_digits(s@));
                }
                assert(!is_int_literal(s@));
            }
            return None;
        }
        let d = code - 48;
        proof {
            assert(s@.subrange(start as int, i + 1) =~= s@.subrange(
                start as int,
                i as int,
            ).push(s@[i as int]));
            lemma_digits_val_push(s@.subrange(start as int, i as int), s@[i as int]);
            if over {
                assert(digits_val(s@.subrange(start as int, i + 1)) > 2_147_483_648);
            }
        }
        if !over {
            acc = acc * 10 + d as u64;
            if acc > 2_147_483_648 {
                over = true;
            }
        }
        i += 1;
    }
    proof {
        assert(s@.subrange(start as int, len as int) == digits);
        assert(all_digits(digits));
        lemma_digits_val_nonneg(digits);
        if neg {
            assert(s@.subrange(1, len as int) == digits);
            assert(is_int_literal(s@));
            assert(literal_val(s@) == -digits_val(digits));
        } else {
            assert(digits =~= s@);
            assert(is_int_literal(s@));
            assert(literal_val(s@) == digits_val(digits));
        }
    }
    if over {
        // the magnitude exceeds every value an i32 can hold
        return None;
    }
    if neg {
        if acc > 2_147_483_648 {
            return None;
        }
        Some((-(acc as i64)) as i32)
    } else {
        if acc > 2_147_483_647 {
            return None;
        }
        Some(acc as i32)
    }
}

} // verus!
