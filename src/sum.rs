//! Parsing each line as an `i32` and summing the values, with wrapping
//! two's-complement addition on overflow.
use vstd::prelude::*;

use crate::err::{Error, LibResult};
use crate::lines::{lines_of, split_lines, views};

verus! {

/// Two to the power of the width of an `i32`.
pub open spec fn i32_modulus() -> int {
    0x1_0000_0000
}

/// The `i32` that `x` wraps to: the one in range that is congruent to `x`
/// modulo 2^32.
pub open spec fn wrap_i32(x: int) -> i32 {
    let m = x % i32_modulus();
    if m > i32::MAX {
        (m - i32_modulus()) as i32
    } else {
        m as i32
    }
}

/// An ASCII decimal digit.
pub open spec fn is_digit(c: char) -> bool {
    '0' as u32 <= c as u32 && c as u32 <= '9' as u32
}

/// A non-empty run of ASCII digits.
pub open spec fn all_digits(d: Seq<char>) -> bool {
    d.len() > 0 && forall|i: int| 0 <= i < d.len() ==> is_digit(#[trigger] d[i])
}

/// The value of a run of decimal digits, most significant first.
pub open spec fn digits_value(d: Seq<char>) -> int
    decreases d.len(),
{
    if d.len() == 0 {
        0
    } else {
        10 * digits_value(d.drop_last()) + (d.last() as u32 - '0' as u32)
    }
}

/// The integer that `s` writes in base 10: an optional `+` or `-`, then one
/// or more ASCII digits and nothing else.
pub open spec fn decimal_value(s: Seq<char>) -> Option<int> {
    if s.len() > 0 && s[0] == '-' && all_digits(s.drop_first()) {
        Some(-digits_value(s.drop_first()))
    } else if s.len() > 0 && s[0] == '+' && all_digits(s.drop_first()) {
        Some(digits_value(s.drop_first()))
    } else if all_digits(s) {
        Some(digits_value(s))
    } else {
        None
    }
}

/// The `i32` that `s` writes, if it writes one in range.
pub open spec fn parsed_i32(s: Seq<char>) -> Option<i32> {
    match decimal_value(s) {
        Some(v) => if i32::MIN <= v <= i32::MAX {
            Some(v as i32)
        } else {
            None
        },
        None => None,
    }
}

/// The error that parsing `s` as an `i32` gives when it fails.
pub uninterp spec fn int_parse_error(s: Seq<char>) -> std::num::ParseIntError;

/// What parsing `s` as an `i32` returns.
pub open spec fn parse_outcome(s: Seq<char>) -> Result<i32, std::num::ParseIntError> {
    match parsed_i32(s) {
        Some(v) => Ok(v),
        None => Err(int_parse_error(s)),
    }
}

/// Relies on `str::parse::<i32>` (`i32::from_str_radix` in base 10): it
/// accepts an optional sign and one or more ASCII digits whose value fits,
/// and otherwise fails with an error that depends on the text alone.
#[verifier::external_body]
fn parse_i32(s: &str) -> (r: Result<i32, std::num::ParseIntError>)
    ensures
        r is Ok <==> parsed_i32(s@) is Some,
        r matches Ok(v) ==> parsed_i32(s@) == Some(v),
        r matches Err(e) ==> e == int_parse_error(s@),
{
    s.parse::<i32>()
}

/// Parsing `lines` in order: the first parse failure, or the exact sum of
/// the values.
pub open spec fn sum_outcome(lines: Seq<Seq<char>>) -> Result<int, std::num::ParseIntError>
    decreases lines.len(),
{
    if lines.len() == 0 {
        Ok(0)
    } else {
        match sum_outcome(lines.drop_last()) {
            Err(e) => Err(e),
            Ok(t) => match parse_outcome(lines.last()) {
                Ok(v) => Ok(t + v),
                Err(e) => Err(e),
            },
        }
    }
}

/// What summing `lines` returns: the wrapped sum, or the first parse failure.
pub open spec fn sum_lines_result(lines: Seq<Seq<char>>) -> Result<i32, std::num::ParseIntError> {
    match sum_outcome(lines) {
        Ok(t) => Ok(wrap_i32(t)),
        Err(e) => Err(e),
    }
}

/// Adding a value to a wrapped total wraps the exact total.
proof fn lemma_wrap_add(a: int, b: i32)
    ensures
        wrap_i32(a).wrapping_add(b) == wrap_i32(a + b),
{
    let m = i32_modulus();
    let w = wrap_i32(a);
    let r = w.wrapping_add(b);
    assert((w as int) % m == a % m) by {
        vstd::arithmetic::div_mod::lemma_mod_twice(a, m);
        vstd::arithmetic::div_mod::lemma_mod_multiples_vanish(-1, a % m, m);
    }
    assert((r as int) % m == (a + b) % m) by {
        vstd::arithmetic::div_mod::lemma_add_mod_noop(w as int, b as int, m);
        vstd::arithmetic::div_mod::lemma_add_mod_noop(a, b as int, m);
        vstd::arithmetic::div_mod::lemma_mod_multiples_vanish(-1, w + b, m);
        vstd::arithmetic::div_mod::lemma_mod_multiples_vanish(1, w + b, m);
    }
    assert(wrap_i32(r as int) == r) by {
        vstd::arithmetic::div_mod::lemma_mod_multiples_vanish(1, r as int, m);
        if r >= 0 {
            vstd::arithmetic::div_mod::lemma_small_mod(r as nat, m as nat);
        } else {
            vstd::arithmetic::div_mod::lemma_small_mod((r + m) as nat, m as nat);
        }
    }
}

/// The sum of a sequence of integers, in order.
pub open spec fn sum_of(vals: Seq<int>) -> int
    decreases vals.len(),
{
    if vals.len() == 0 {
        0
    } else {
        sum_of(vals.drop_last()) + vals.last()
    }
}

/// The values that `lines` write, each read as an `i32`.
pub open spec fn line_values(lines: Seq<Seq<char>>) -> Seq<int> {
    lines.map_values(|l: Seq<char>| parsed_i32(l)->0 as int)
}

/// Every one of `lines` is an `i32` in base 10.
pub open spec fn all_parse(lines: Seq<Seq<char>>) -> bool {
    forall|i: int| 0 <= i < lines.len() ==> #[trigger] parsed_i32(lines[i]) is Some
}

/// When every line is an `i32`, summing succeeds with the arithmetic sum of
/// the values in order, wrapped to an `i32`; exactly that sum where it fits.
pub proof fn lemma_sum_of_valid_lines(lines: Seq<Seq<char>>)
    requires
        all_parse(lines),
    ensures
        sum_outcome(lines) == Ok::<int, std::num::ParseIntError>(sum_of(line_values(lines))),
        sum_lines_result(lines) == Ok::<i32, std::num::ParseIntError>(
            wrap_i32(sum_of(line_values(lines))),
        ),
        i32::MIN <= sum_of(line_values(lines)) <= i32::MAX ==> sum_lines_result(lines)
            == Ok::<i32, std::num::ParseIntError>(sum_of(line_values(lines)) as i32),
    decreases lines.len(),
{
    let total = sum_of(line_values(lines));
    if lines.len() > 0 {
        let init = lines.drop_last();
        assert(forall|i: int| 0 <= i < init.len() ==> #[trigger] init[i] == lines[i]);
        lemma_sum_of_valid_lines(init);
        assert(line_values(lines).drop_last() == line_values(init));
        assert(parsed_i32(lines[lines.len() - 1]) is Some);
    }
    if i32::MIN <= total <= i32::MAX {
        if total >= 0 {
            vstd::arithmetic::div_mod::lemma_small_mod(total as nat, i32_modulus() as nat);
        } else {
            vstd::arithmetic::div_mod::lemma_mod_multiples_vanish(1, total, i32_modulus());
            vstd::arithmetic::div_mod::lemma_small_mod(
                (total + i32_modulus()) as nat,
                i32_modulus() as nat,
            );
        }
    }
}

/// Summing fails at the first line that is not an `i32`, with that line's
/// parse error, whatever the lines after it hold.
pub proof fn lemma_first_failure(lines: Seq<Seq<char>>, k: int)
    requires
        0 <= k < lines.len(),
        all_parse(lines.take(k)),
        parsed_i32(lines[k]) is None,
    ensures
        sum_outcome(lines) == Err::<int, std::num::ParseIntError>(int_parse_error(lines[k])),
        sum_lines_result(lines) == Err::<i32, std::num::ParseIntError>(int_parse_error(lines[k])),
{
    lemma_sum_of_valid_lines(lines.take(k));
    assert(lines.take(k + 1).drop_last() == lines.take(k));
    assert(lines.take(k + 1).last() == lines[k]);
    lemma_failure_persists(lines, k + 1);
}

/// Once a prefix of the lines fails to parse, the whole does, with the same
/// error.
proof fn lemma_failure_persists(lines: Seq<Seq<char>>, k: int)
    requires
        0 <= k <= lines.len(),
        sum_outcome(lines.take(k)) is Err,
    ensures
        sum_outcome(lines) == sum_outcome(lines.take(k)),
    decreases lines.len() - k,
{
    if k == lines.len() {
        assert(lines.take(k) == lines);
    } else {
        assert(lines.take(k + 1).drop_last() == lines.take(k));
        lemma_failure_persists(lines, k + 1);
    }
}

/// Sums the integers written one per line in `lines`, wrapping on overflow;
/// fails at the first line that is not an `i32` in base 10.
pub fn sum_lines(lines: &Vec<String>) -> (r: LibResult<i32>)
    ensures
        match sum_lines_result(views(lines@)) {
            Ok(v) => r matches Ok(x) && x == v,
            Err(e) => r matches Err(Error::Parse(x)) && x == e,
        },
{
    let ghost ls = views(lines@);
    let mut total: i32 = 0;
    let mut i: usize = 0;
    assert(ls.take(0) == Seq::<Seq<char>>::empty());
    while i < lines.len()
        invariant
            i <= lines.len(),
            ls == views(lines@),
            sum_outcome(ls.take(i as int)) is Ok,
            total == wrap_i32(sum_outcome(ls.take(i as int))->Ok_0),
        decreases lines.len() - i,
    {
        let ghost t = sum_outcome(ls.take(i as int))->Ok_0;
        assert(ls.take(i + 1).drop_last() == ls.take(i as int));
        assert(ls.take(i + 1).last() == lines@[i as int]@);
        match parse_i32(lines[i].as_str()) {
            Ok(v) => {
                proof {
                    lemma_wrap_add(t, v);
                }
                total = total.wrapping_add(v);
            },
            Err(e) => {
                proof {
                    lemma_failure_persists(ls, i + 1);
                }
                return Err(Error::Parse(e));
            },
        }
        i = i + 1;
    }
    assert(ls.take(lines.len() as int) == ls);
    Ok(total)
}

/// The lines of a text that was read, or the failure to read it: an I/O
/// failure is wrapped as it is, and a text without lines is refused.
pub fn convert_vec(read: Result<String, std::io::Error>) -> (r: LibResult<Vec<String>>)
    ensures
        read matches Err(e) ==> r matches Err(Error::Io(x)) && x == e,
        read matches Ok(text) ==> (r matches Err(Error::EmptyVec) <==> lines_of(text@).len() == 0),
        read matches Ok(text) ==> (r matches Ok(v) <==> lines_of(text@).len() > 0),
        r matches Ok(v) ==> read matches Ok(text) && views(v@) == lines_of(text@),
{
    match read {
        Err(e) => Err(Error::from(e)),
        Ok(text) => {
            let v = split_lines(text.as_str());
            if v.len() == 0 {
                Err(Error::EmptyVec)
            } else {
                Ok(v)
            }
        },
    }
}

/// The sum of the integers written one per line in a text that was read,
/// wrapping on overflow. An I/O failure is wrapped as it is, a text without
/// lines is refused, and the first line that is not an `i32` in base 10
/// fails the whole sum with its parse error.
pub fn file_sum(read: Result<String, std::io::Error>) -> (r: LibResult<i32>)
    ensures
        match read {
            Err(e) => r matches Err(Error::Io(x)) && x == e,
            Ok(text) => if lines_of(text@).len() == 0 {
                r matches Err(Error::EmptyVec)
            } else {
                match sum_lines_result(lines_of(text@)) {
                    Ok(v) => r matches Ok(x) && x == v,
                    Err(e) => r matches Err(Error::Parse(x)) && x == e,
                }
            },
        },
{
    let v = match convert_vec(read) {
        Ok(v) => v,
        Err(e) => {
            return Err(e);
        },
    };
    sum_lines(&v)
}

} // verus!
