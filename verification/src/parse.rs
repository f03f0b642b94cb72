//! The response parser: extracts the first contiguous run of decimal digits
//! from free text as an `i32` score, or nothing when no digit is present or
//! the run does not fit in an `i32`.

use vstd::prelude::*;

verus! {

/// `c` is a decimal digit.
pub open spec fn is_digit(c: char) -> bool {
    48 <= c as u32 && c as u32 <= 57
}

/// The numeric value of a digit character.
pub open spec fn digit_val(c: char) -> int {
    c as u32 - 48
}

/// The value of a digit sequence read left to right.
pub open spec fn digits_value(s: Seq<char>) -> int
    decreases s.len(),
{
    if s.len() == 0 {
        0
    } else {
        digits_value(s.drop_last()) * 10 + digit_val(s.last())
    }
}

/// The longest all-digit prefix of `s`.
pub open spec fn leading_digits(s: Seq<char>) -> Seq<char>
    decreases s.len(),
{
    if s.len() > 0 && is_digit(s[0]) {
        seq![s[0]] + leading_digits(s.drop_first())
    } else {
        Seq::<char>::empty()
    }
}

/// The first run of decimal digits in `s` as an `i32`: `None` when `s` holds
/// no digit, or when the run's value exceeds `i32::MAX`.
pub open spec fn spec_first_number(s: Seq<char>) -> Option<i32>
    decreases s.len(),
{
    if s.len() == 0 {
        None
    } else if is_digit(s[0]) {
        let v = digits_value(leading_digits(s));
        if v <= i32::MAX {
            Some(v as i32)
        } else {
            None
        }
    } else {
        spec_first_number(s.drop_first())
    }
}

/// Skipping a digit-free prefix does not change the first number.
proof fn lemma_skip_prefix(s: Seq<char>, i: int)
    requires
        0 <= i <= s.len(),
        forall|j: int| 0 <= j < i ==> !is_digit(s[j]),
    ensures
        spec_first_number(s) == spec_first_number(s.subrange(i, s.len() as int)),
    decreases i,
{
    if i == 0 {
        assert(s.subrange(0, s.len() as int) =~= s);
    } else {
        lemma_skip_prefix(s.drop_first(), i - 1);
        assert(s.drop_first().subrange(i - 1, s.drop_first().len() as int) =~= s.subrange(
            i,
            s.len() as int,
        ));
    }
}

/// The longest all-digit prefix is the subrange up to the first non-digit.
proof fn lemma_leading_digits(t: Seq<char>, k: int)
    requires
        0 <= k <= t.len(),
        forall|m: int| 0 <= m < k ==> is_digit(t[m]),
        k == t.len() || !is_digit(t[k]),
    ensures
        leading_digits(t) =~= t.subrange(0, k),
    decreases t.len(),
{
    if t.len() > 0 && is_digit(t[0]) {
        lemma_leading_digits(t.drop_first(), k - 1);
        assert(t.drop_first().subrange(0, k - 1) =~= t.subrange(0, k).drop_first());
        assert(leading_digits(t) =~= seq![t[0]] + t.subrange(0, k).drop_first());
        assert(leading_digits(t) =~= t.subrange(0, k));
    } else {
        assert(t.subrange(0, 0) =~= Seq::<char>::empty());
    }
}

/// An all-digit sequence has a non-negative value.
proof fn lemma_digits_value_nonneg(s: Seq<char>)
    requires
        forall|m: int| 0 <= m < s.len() ==> is_digit(s[m]),
    ensures
        digits_value(s) >= 0,
    decreases s.len(),
{
    if s.len() > 0 {
        lemma_digits_value_nonneg(s.drop_last());
    }
}

/// Extending an all-digit sequence never lowers its value.
proof fn lemma_digits_value_extend_ge(s: Seq<char>, m: int)
    requires
        forall|j: int| 0 <= j < s.len() ==> is_digit(s[j]),
        0 <= m <= s.len(),
    ensures
        digits_value(s) >= digits_value(s.subrange(0, m)),
    decreases s.len() - m,
{
    if m == s.len() {
        assert(s.subrange(0, m) =~= s);
    } else {
        assert(s.subrange(0, m + 1).drop_last() =~= s.subrange(0, m));
        assert(s.subrange(0, m + 1).last() == s[m]);
        lemma_digits_value_nonneg(s.subrange(0, m));
        assert(digits_value(s.subrange(0, m + 1)) >= digits_value(s.subrange(0, m)));
        lemma_digits_value_extend_ge(s, m + 1);
    }
}

/// `c` is a decimal digit.
pub fn is_digit_char(c: char) -> (r: bool)
    ensures
        r == is_digit(c),
{
    let cu = c as u32;
    48 <= cu && cu <= 57
}

/// Return the first contiguous run of decimal digits in `text` interpreted
/// as an integer, or `None` when no digit is present or the run overflows
/// an `i32`.
pub fn find_first_number(text: &str) -> (r: Option<i32>)
    ensures
        r == spec_first_number(text@),
{
    let len = text.unicode_len();
    let mut i: usize = 0;
    while i < len && !is_digit_char(text.get_char(i))
        invariant
            i <= len,
            len == text@.len(),
            forall|j: int| 0 <= j < i ==> !is_digit(text@[j]),
        decreases len - i,
    {
        i = i + 1;
    }
    if i == len {
        proof {
            lemma_skip_prefix(text@, len as int);
            assert(text@.subrange(len as int, len as int) =~= Seq::<char>::empty());
        }
        return None;
    }
    // The run of digits spans the indices i..k.
    let mut k: usize = i;
    while k < len && is_digit_char(text.get_char(k))
        invariant
            i <= k <= len,
            len == text@.len(),
            forall|m: int| i <= m < k ==> is_digit(text@[m]),
        decreases len - k,
    {
        k = k + 1;
    }
    let ghost tail = text@.subrange(i as int, len as int);
    proof {
        lemma_skip_prefix(text@, i as int);
        lemma_leading_digits(tail, k - i);
        assert(tail.subrange(0, k - i) =~= text@.subrange(i as int, k as int));
        assert(is_digit(tail[0]));
    }
    let ghost run = text@.subrange(i as int, k as int);
    let mut acc: u64 = 0;
    let mut m: usize = i;
    while m < k
        invariant
            i <= m <= k <= len,
            len == text@.len(),
            run == text@.subrange(i as int, k as int),
            tail == text@.subrange(i as int, len as int),
            leading_digits(tail) == run,
            spec_first_number(text@) == spec_first_number(tail),
            is_digit(tail[0]),
            forall|j: int| i <= j < k ==> is_digit(text@[j]),
            acc == digits_value(run.subrange(0, m - i)),
            acc <= i32::MAX,
        decreases k - m,
    {
        let c = text.get_char(m);
        let d = (c as u32 - 48) as u64;
        let next: u64 = acc * 10 + d;
        proof {
            assert(run.subrange(0, m + 1 - i).drop_last() =~= run.subrange(0, m - i));
            assert(run.subrange(0, m + 1 - i).last() == text@[m as int]);
            assert(digits_value(run.subrange(0, m + 1 - i)) == acc * 10 + digit_val(
                text@[m as int],
            ));
        }
        if next > 2147483647u64 {
            proof {
                lemma_digits_value_extend_ge(run, m + 1 - i);
                assert(digits_value(run) > i32::MAX);
                assert(digits_value(leading_digits(tail)) > i32::MAX);
            }
            return None;
        }
        acc = next;
        m = m + 1;
    }
    proof {
        assert(run.subrange(0, k - i) =~= run);
        assert(digits_value(leading_digits(tail)) == acc);
    }
    Some(acc as i32)
}

} // verus!
