use vstd::prelude::*;

verus! {

/// An ASCII decimal digit.
pub open spec fn is_digit(c: char) -> bool {
    '0' <= c && c <= '9'
}

pub open spec fn digit_value(c: char) -> nat {
    (c as u32 - '0' as u32) as nat
}

/// The number spelled by the digits of `s`, read in order, every other
/// character ignored ("Results: 1,234 items" spells 1234; no digit spells 0).
pub open spec fn number_in(s: Seq<char>) -> nat
    decreases s.len(),
{
    if s.len() == 0 {
        0
    } else if is_digit(s.last()) {
        number_in(s.drop_last()) * 10 + digit_value(s.last())
    } else {
        number_in(s.drop_last())
    }
}

pub open spec fn has_digit(s: Seq<char>) -> bool {
    exists|i: int| 0 <= i < s.len() && is_digit(#[trigger] s[i])
}

/// Reading more characters never makes the number smaller.
pub proof fn lemma_number_in_prefix(s: Seq<char>, i: int)
    requires
        0 <= i <= s.len(),
    ensures
        number_in(s.subrange(0, i)) <= number_in(s),
    decreases s.len(),
{
    if i < s.len() {
        assert(s.drop_last() =~= s.subrange(0, s.len() - 1));
        assert(s.drop_last().subrange(0, i) =~= s.subrange(0, i));
        lemma_number_in_prefix(s.drop_last(), i);
    } else {
        assert(s.subrange(0, i) =~= s);
    }
}

/// Without a digit the number is 0.
pub proof fn lemma_no_digit_is_zero(s: Seq<char>)
    requires
        !has_digit(s),
    ensures
        number_in(s) == 0,
    decreases s.len(),
{
    if s.len() > 0 {
        assert(!is_digit(s[s.len() - 1]));
        assert forall|i: int| 0 <= i < s.drop_last().len() implies !is_digit(
            #[trigger] s.drop_last()[i],
        ) by {
            assert(s.drop_last()[i] == s[i]);
        }
        lemma_no_digit_is_zero(s.drop_last());
    }
}

/// Reads the digits of `text`, ignoring every other character.
/// Returns the number and whether any digit was seen, or `None` when the
/// number does not fit in a `u64`.
pub(crate) fn scan_digits(text: &str) -> (r: Option<(u64, bool)>)
    ensures
        match r {
            Some((n, seen)) => n == number_in(text@) && seen == has_digit(text@),
            None => number_in(text@) > u64::MAX,
        },
{
    let len = text.unicode_len();
    let mut acc: u64 = 0;
    let mut seen = false;
    let mut i: usize = 0;
    while i < len
        invariant
            len == text@.len(),
            0 <= i <= len,
            acc == number_in(text@.subrange(0, i as int)),
            seen == has_digit(text@.subrange(0, i as int)),
        decreases len - i,
    {
        let c = text.get_char(i);
        let ghost pre = text@.subrange(0, i as int);
        let ghost next = text@.subrange(0, i + 1);
        assert(next.drop_last() =~= pre);
        assert(next.last() == c);
        if '0' <= c && c <= '9' {
            let d: u64 = (c as u32 - '0' as u32) as u64;
            if acc > (u64::MAX - d) / 10 {
                proof {
                    assert(acc * 10 + d > u64::MAX) by (nonlinear_arith)
                        requires
                            acc > (u64::MAX - d) / 10,
                            d <= 9,
                    ;
                    lemma_number_in_prefix(text@, i + 1);
                }
                return None;
            }
            assert(acc * 10 + d <= u64::MAX) by (nonlinear_arith)
                requires
                    acc <= (u64::MAX - d) / 10,
                    d <= 9,
            ;
            acc = acc * 10 + d;
            seen = true;
            assert(is_digit(next[i as int]));
        } else {
            assert(has_digit(next) == has_digit(pre)) by {
                if has_digit(next) {
                    let j = choose|j: int| 0 <= j < next.len() && is_digit(#[trigger] next[j]);
                    assert(j < i);
                    assert(pre[j] == next[j]);
                }
                if has_digit(pre) {
                    let j = choose|j: int| 0 <= j < pre.len() && is_digit(#[trigger] pre[j]);
                    assert(pre[j] == next[j]);
                }
            }
        }
        i = i + 1;
    }
    assert(text@.subrange(0, len as int) =~= text@);
    Some((acc, seen))
}

/// The advertised total of a counter text: its digits read as one number,
/// every other character ignored, and 0 when it holds no digit.
/// `None` when the number does not fit in a `u64`.
pub fn advertised_total(text: &str) -> (r: Option<u64>)
    ensures
        number_in(text@) <= u64::MAX ==> r == Some(number_in(text@) as u64),
        number_in(text@) > u64::MAX ==> r is None,
        !has_digit(text@) ==> r == Some(0u64),
{
    proof {
        if !has_digit(text@) {
            lemma_no_digit_is_zero(text@);
        }
    }
    match scan_digits(text) {
        Some((n, _)) => Some(n),
        None => None,
    }
}

/// A price read from text with currency formatting ("¥1,280"): its digits
/// read as one number. `None` when there is no digit or the number does not
/// fit in a `u64`.
pub fn parse_price(text: &str) -> (r: Option<u64>)
    ensures
        r == (if has_digit(text@) && number_in(text@) <= u64::MAX {
            Some(number_in(text@) as u64)
        } else {
            None::<u64>
        }),
{
    match scan_digits(text) {
        Some((n, seen)) => if seen {
            Some(n)
        } else {
            None
        },
        None => None,
    }
}

} // verus!
