//! Character-level utilities shared by the configuration parser and the
//! summary formatter: decimal digit sequences, first-occurrence scanning,
//! and rendering of unsigned numbers.

use vstd::prelude::*;
use vstd::string::StrSliceExecFns;
use vstd::string::StringExecFns;

verus! {

pub open spec fn is_digit(c: char) -> bool {
    '0' <= c && c <= '9'
}

pub open spec fn digit_val(c: char) -> int {
    c as u32 - '0' as u32
}

/// The value of a digit sequence read as a decimal numeral.
pub open spec fn digits_val(s: Seq<char>) -> int
    decreases s.len(),
{
    if s.len() == 0 {
        0
    } else {
        digits_val(s.drop_last()) * 10 + digit_val(s.last())
    }
}

pub open spec fn all_digits(s: Seq<char>) -> bool {
    forall|i: int| 0 <= i < s.len() ==> is_digit(#[trigger] s[i])
}

/// A nonempty, all-digit sequence whose value fits in a `u64` parses to that
/// value; anything else is rejected.
pub open spec fn parse_u64_spec(s: Seq<char>) -> Option<u64> {
    if s.len() > 0 && all_digits(s) && digits_val(s) <= u64::MAX {
        Some(digits_val(s) as u64)
    } else {
        None
    }
}

/// The index of the first occurrence of `c` in `s` at or after `from`, or
/// `s.len()` when there is none.
pub open spec fn index_of_from(s: Seq<char>, from: int, c: char) -> int
    decreases s.len() - from,
{
    if from < 0 || from >= s.len() {
        s.len() as int
    } else if s[from] == c {
        from
    } else {
        index_of_from(s, from + 1, c)
    }
}

pub proof fn lemma_index_of_from(s: Seq<char>, from: int, c: char)
    requires
        0 <= from <= s.len(),
    ensures
        from <= index_of_from(s, from, c) <= s.len(),
        index_of_from(s, from, c) < s.len() ==> s[index_of_from(s, from, c)] == c,
        forall|i: int| from <= i < index_of_from(s, from, c) ==> s[i] != c,
    decreases s.len() - from,
{
    if from < s.len() && s[from] != c {
        lemma_index_of_from(s, from + 1, c);
    }
}

pub proof fn lemma_digits_val_nonneg(s: Seq<char>)
    requires
        all_digits(s),
    ensures
        digits_val(s) >= 0,
    decreases s.len(),
{
    if s.len() > 0 {
        assert(all_digits(s.drop_last()));
        lemma_digits_val_nonneg(s.drop_last());
    }
}

/// The value of a digit sequence is at least the value of any of its
/// prefixes.
pub proof fn lemma_digits_val_prefix(s: Seq<char>, k: int)
    requires
        all_digits(s),
        0 <= k <= s.len(),
    ensures
        digits_val(s.subrange(0, k)) <= digits_val(s),
    decreases s.len(),
{
    if k == s.len() {
        assert(s.subrange(0, k) =~= s);
    } else {
        assert(all_digits(s.drop_last()));
        assert(s.subrange(0, k) =~= s.drop_last().subrange(0, k));
        lemma_digits_val_prefix(s.drop_last(), k);
        lemma_digits_val_nonneg(s.drop_last());
    }
}

/// Whether `c` is a decimal digit.
pub fn is_digit_char(c: char) -> (b: bool)
    ensures
        b == is_digit(c),
{
    '0' <= c && c <= '9'
}

/// The index of the first occurrence of `c` in `s` at or after `from`, or
/// the character length of `s` when there is none.
pub fn find_char(s: &str, from: usize, c: char) -> (r: usize)
    requires
        from <= s@.len(),
    ensures
        r == index_of_from(s@, from as int, c),
{
    let n = s.unicode_len();
    let mut i = from;
    while i < n
        invariant
            from <= i <= n,
            n == s@.len(),
            index_of_from(s@, from as int, c) == index_of_from(s@, i as int, c),
        decreases n - i,
    {
        if s.get_char(i) == c {
            return i;
        }
        assert(index_of_from(s@, i as int, c) == index_of_from(s@, i + 1 as int, c));
        i = i + 1;
    }
    i
}

/// Parses `s[from..to]` as a decimal `u64`, exactly as `parse_u64_spec` of
/// that range of characters.
pub fn parse_digits(s: &str, from: usize, to: usize) -> (r: Option<u64>)
    requires
        from <= to <= s@.len(),
    ensures
        r == parse_u64_spec(s@.subrange(from as int, to as int)),
{
    let ghost whole = s@.subrange(from as int, to as int);
    if from == to {
        return None;
    }
    let mut val: u64 = 0;
    let mut i = from;
    while i < to
        invariant
            from <= i <= to <= s@.len(),
            whole == s@.subrange(from as int, to as int),
            all_digits(s@.subrange(from as int, i as int)),
            val == digits_val(s@.subrange(from as int, i as int)),
        decreases to - i,
    {
        let c = s.get_char(i);
        let ghost prefix = s@.subrange(from as int, i as int);
        let ghost prefix1 = s@.subrange(from as int, i + 1 as int);
        assert(prefix1.drop_last() =~= prefix);
        if !is_digit_char(c) {
            assert(whole[i - from] == c);
            assert(!all_digits(whole));
            return None;
        }
        let d: u64 = (c as u32 - '0' as u32) as u64;
        if val > (u64::MAX - d) / 10 {
            proof {
                assert(val * 10 + d > u64::MAX) by (nonlinear_arith)
                    requires
                        val > (u64::MAX - d) / 10,
                        d <= 9,
                ;
                assert(digits_val(prefix1) == val * 10 + d);
                if all_digits(whole) {
                    lemma_digits_val_prefix(whole, i + 1 - from);
                    assert(whole.subrange(0, i + 1 - from) =~= prefix1);
                    assert(digits_val(whole) > u64::MAX);
                }
            }
            return None;
        }
        proof {
            assert(val * 10 + d <= u64::MAX) by (nonlinear_arith)
                requires
                    val <= (u64::MAX - d) / 10,
                    d <= 9,
            ;
        }
        val = val * 10 + d;
        i = i + 1;
    }
    assert(whole =~= s@.subrange(from as int, i as int));
    Some(val)
}

/// The decimal digit character for `d`.
pub open spec fn digit_char(d: int) -> char {
    if d == 0 {
        '0'
    } else if d == 1 {
        '1'
    } else if d == 2 {
        '2'
    } else if d == 3 {
        '3'
    } else if d == 4 {
        '4'
    } else if d == 5 {
        '5'
    } else if d == 6 {
        '6'
    } else if d == 7 {
        '7'
    } else if d == 8 {
        '8'
    } else {
        '9'
    }
}

/// The decimal numeral for `n`, without leading zeros (a single zero for 0).
pub open spec fn dec_spec(n: int) -> Seq<char>
    decreases n,
{
    if n < 10 {
        seq![digit_char(n)]
    } else {
        dec_spec(n / 10) + seq![digit_char(n % 10)]
    }
}

/// Appends the digit character for `d` to `out`.
pub fn append_digit(out: &mut String, d: u64)
    requires
        d < 10,
    ensures
        final(out)@ == old(out)@ + seq![digit_char(d as int)],
{
    if d == 0 {
        proof {
            reveal_strlit("0");
            assert("0"@ =~= seq![digit_char(0)]);
        }
        out.append("0");
    } else if d == 1 {
        proof {
            reveal_strlit("1");
            assert("1"@ =~= seq![digit_char(1)]);
        }
        out.append("1");
    } else if d == 2 {
        proof {
            reveal_strlit("2");
            assert("2"@ =~= seq![digit_char(2)]);
        }
        out.append("2");
    } else if d == 3 {
        proof {
            reveal_strlit("3");
            assert("3"@ =~= seq![digit_char(3)]);
        }
        out.append("3");
    } else if d == 4 {
        proof {
            reveal_strlit("4");
            assert("4"@ =~= seq![digit_char(4)]);
        }
        out.append("4");
    } else if d == 5 {
        proof {
            reveal_strlit("5");
            assert("5"@ =~= seq![digit_char(5)]);
        }
        out.append("5");
    } else if d == 6 {
        proof {
            reveal_strlit("6");
            assert("6"@ =~= seq![digit_char(6)]);
        }
        out.append("6");
    } else if d == 7 {
        proof {
            reveal_strlit("7");
            assert("7"@ =~= seq![digit_char(7)]);
        }
        out.append("7");
    } else if d == 8 {
        proof {
            reveal_strlit("8");
            assert("8"@ =~= seq![digit_char(8)]);
        }
        out.append("8");
    } else {
        proof {
            reveal_strlit("9");
            assert("9"@ =~= seq![digit_char(9)]);
        }
        out.append("9");
    }
}

/// Appends the decimal numeral for `n` to `out`.
pub fn push_decimal(out: &mut String, n: u64)
    ensures
        final(out)@ == old(out)@ + dec_spec(n as int),
    decreases n,
{
    if n >= 10 {
        let ghost before = out@;
        push_decimal(out, n / 10);
        append_digit(out, n % 10);
        proof {
            assert((before + dec_spec(n as int / 10)) + seq![digit_char(n as int % 10)]
                =~= before + (dec_spec(n as int / 10) + seq![digit_char(n as int % 10)]));
        }
    } else {
        append_digit(out, n);
    }
}

/// The numeral for `n` padded to exactly two digits.
pub open spec fn two_digit_spec(n: int) -> Seq<char> {
    seq![digit_char(n / 10), digit_char(n % 10)]
}

/// Appends the two-digit zero-padded numeral for `n` to `out`.
pub fn push_two_digits(out: &mut String, n: u64)
    requires
        n < 100,
    ensures
        final(out)@ == old(out)@ + two_digit_spec(n as int),
{
    let ghost before = out@;
    append_digit(out, n / 10);
    append_digit(out, n % 10);
    proof {
        assert((before + seq![digit_char(n as int / 10)]) + seq![digit_char(n as int % 10)]
            =~= before + two_digit_spec(n as int));
    }
}

} // verus!
