//! Turning a raw text line into a move, or into exactly one typed error.
//!
//! A line is parsed as an unsigned integer; a parse failure is
//! [`Error::InvalidInteger`]. A parsed value outside `1..=9` is
//! [`Error::InvalidIndex`]. Otherwise the value is converted to a 0-based
//! square index; a move onto an occupied square is [`Error::InvalidMove`].
//! Exactly one of {validated move, one error variant} comes out of a line.

use vstd::prelude::*;
use vstd::string::*;

use crate::board::Mark;

verus! {

/// Why a line was rejected. All variants are data-level: the engine reports
/// them and keeps accepting input.
#[derive(Copy, Clone, Debug, PartialEq, Eq)]
pub enum Error {
    /// A well-formed 0-based index whose square is already taken.
    InvalidMove(usize),
    /// An integer outside `1..=9`.
    InvalidIndex(usize),
    /// The line is not a valid unsigned integer.
    InvalidInteger,
}

/// Whether `c` is an ASCII decimal digit.
pub open spec fn is_digit(c: char) -> bool {
    48 <= c as u32 <= 57
}

/// The value of the digit `c`.
pub open spec fn digit_val(c: char) -> int {
    c as u32 as int - 48
}

/// Whether every character of `s` is an ASCII decimal digit.
pub open spec fn all_digits(s: Seq<char>) -> bool {
    forall|i: int| 0 <= i < s.len() ==> is_digit(s[i])
}

/// The value of `s` read as a decimal numeral, most significant digit first.
pub open spec fn digits_val(s: Seq<char>) -> int
    decreases s.len(),
{
    if s.len() <= 0 {
        0
    } else {
        digits_val(s.drop_last()) * 10 + digit_val(s.last())
    }
}

/// The digit sequence of `s` once an optional leading `'+'` sign is gone.
pub open spec fn unsigned_digits(s: Seq<char>) -> Seq<char> {
    if s.len() > 0 && s[0] == '+' {
        s.subrange(1, s.len() as int)
    } else {
        s
    }
}

/// What parsing `s` as an unsigned machine integer yields: the numeral's
/// value when `s` is an optional `'+'` sign followed by one or more decimal
/// digits and the value fits; nothing otherwise.
pub open spec fn parse_usize(s: Seq<char>) -> Option<usize> {
    let ds = unsigned_digits(s);
    if ds.len() > 0 && all_digits(ds) && digits_val(ds) <= usize::MAX {
        Some(digits_val(ds) as usize)
    } else {
        None
    }
}

/// A numeral's value never goes down when digits are appended.
proof fn lemma_digits_val_take(s: Seq<char>, j: int)
    requires
        0 <= j <= s.len(),
        all_digits(s),
    ensures
        0 <= digits_val(s.take(j)) <= digits_val(s),
    decreases s.len() - j,
{
    lemma_digits_val_nonneg(s.take(j));
    if j == s.len() {
        assert(s.take(j) =~= s);
    } else {
        lemma_digits_val_take(s, j + 1);
        assert(s.take(j + 1).drop_last() =~= s.take(j));
        assert(s.take(j + 1).last() == s[j]);
        lemma_digits_val_nonneg(s.take(j));
    }
}

/// A numeral of digits has a non-negative value.
proof fn lemma_digits_val_nonneg(s: Seq<char>)
    requires
        all_digits(s),
    ensures
        digits_val(s) >= 0,
    decreases s.len(),
{
    if s.len() > 0 {
        assert(all_digits(s.drop_last()));
        lemma_digits_val_nonneg(s.drop_last());
    }
}

/// Parses `line` as `usize::from_str` does: an optional `'+'` sign, then
/// one or more decimal digits whose value fits the machine word.
pub fn parse_unsigned(line: &str) -> (parsed: Option<usize>)
    ensures
        parsed == parse_usize(line@),
{
    let len = line.unicode_len();
    let mut i: usize = 0;
    if len > 0 && line.get_char(0) == '+' {
        i = 1;
    }
    let ghost off = i as int;
    let ghost ds = unsigned_digits(line@);
    proof {
        assert(ds =~= line@.subrange(off, line@.len() as int));
    }
    if i == len {
        return None;
    }
    let mut acc: usize = 0;
    let q = usize::MAX / 10;
    let r = usize::MAX % 10;
    while i < len
        invariant
            off <= i <= len,
            off == 0 || off == 1,
            len == line@.len(),
            q == usize::MAX / 10,
            r == usize::MAX % 10,
            ds == line@.subrange(off, len as int),
            ds == unsigned_digits(line@),
            all_digits(ds.take(i - off)),
            acc == digits_val(ds.take(i - off)),
        decreases len - i,
    {
        let c = line.get_char(i);
        let code = c as u32;
        let ghost j = i - off;
        proof {
            assert(ds[j] == line@[i as int]);
            assert(ds.take(j + 1).drop_last() =~= ds.take(j));
            assert(ds.take(j + 1).last() == ds[j]);
        }
        if code < 48 || code > 57 {
            proof {
                assert(!is_digit(ds[j]));
                assert(!all_digits(ds));
            }
            return None;
        }
        let digit = (code - 48) as usize;
        if acc > q || (acc == q && digit > r) {
            proof {
                assert(all_digits(ds.take(j + 1)));
                assert(usize::MAX == q * 10 + r) by (nonlinear_arith)
                    requires
                        q == usize::MAX / 10,
                        r == usize::MAX % 10,
                ;
                assert(digits_val(ds.take(j + 1)) == acc * 10 + digit);
                assert(acc * 10 + digit > usize::MAX) by (nonlinear_arith)
                    requires
                        acc > q || (acc == q && digit > r),
                        usize::MAX == q * 10 + r,
                        0 <= r < 10,
                        digit >= 0,
                        acc >= 0,
                ;
                if all_digits(ds) {
                    lemma_digits_val_take(ds, j + 1);
                }
            }
            return None;
        }
        proof {
            assert(acc * 10 + digit <= usize::MAX) by (nonlinear_arith)
                requires
                    acc <= q,
                    acc == q ==> digit <= r,
                    usize::MAX == q * 10 + r,
                    0 <= digit <= 9,
            ;
        }
        acc = acc * 10 + digit;
        i = i + 1;
    }
    proof {
        assert(ds.take(i - off) =~= ds);
        assert(ds.len() > 0);
    }
    Some(acc)
}

/// What the validator makes of one line against the current board: the
/// 0-based index of a legal move, or exactly one error.
pub open spec fn validate_spec(line: Seq<char>, board: Seq<Option<Mark>>) -> Result<usize, Error> {
    match parse_usize(line) {
        None => Err(Error::InvalidInteger),
        Some(n) => if !(1 <= n <= 9) {
            Err(Error::InvalidIndex(n))
        } else if board[n - 1] is Some {
            Err(Error::InvalidMove((n - 1) as usize))
        } else {
            Ok((n - 1) as usize)
        },
    }
}

} // verus!
