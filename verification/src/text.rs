//! Text helpers: string equality, decimal rendering of integers, and a
//! verified decimal parser.

use vstd::prelude::*;
use vstd::arithmetic::div_mod::lemma_fundamental_div_mod;

verus! {

/// Whether two string slices hold the same characters.
pub fn str_eq(a: &str, b: &str) -> (r: bool)
    ensures
        r == (a@ == b@),
{
    let x = a.to_owned();
    let y = b.to_owned();
    x == y
}

/// The character for one decimal digit.
pub open spec fn spec_digit_char(d: nat) -> char {
    if d == 0 {
        '0'
    } else if d == 1 {
        '1'
    } else if d == 2 {
        '2'
    } else if d == 3 {
        '3'
    } else if d == 4 {
        '4'
    } else if d == 5 {
        '5'
    } else if d == 6 {
        '6'
    } else if d == 7 {
        '7'
    } else if d == 8 {
        '8'
    } else {
        '9'
    }
}

/// The decimal rendering of a natural number, most significant digit first,
/// with no leading zeros (a lone zero for 0).
pub open spec fn spec_nat_decimal(n: nat) -> Seq<char>
    decreases n,
{
    if n < 10 {
        seq![spec_digit_char(n)]
    } else {
        spec_nat_decimal(n / 10).push(spec_digit_char(n % 10))
    }
}

/// The decimal rendering of an integer: a leading minus sign for negatives.
pub open spec fn spec_int_decimal(n: int) -> Seq<char> {
    if n < 0 {
        seq!['-'] + spec_nat_decimal((-n) as nat)
    } else {
        spec_nat_decimal(n as nat)
    }
}

/// Relies on i32's Display through std's ToString: the decimal rendering of
/// the number, with a leading minus sign when it is negative.
#[verifier::external_body]
pub(crate) fn i32_to_string(x: i32) -> (r: String)
    ensures
        r@ == spec_int_decimal(x as int),
{
    x.to_string()
}

/// Whether a character is a decimal digit.
pub open spec fn spec_is_digit(c: char) -> bool {
    48 <= c as u32 <= 57
}

/// The value of one decimal digit character.
pub open spec fn spec_digit_val(c: char) -> nat {
    ((c as u32) - 48) as nat
}

/// Whether every character of a sequence is a decimal digit.
pub open spec fn spec_all_digits(s: Seq<char>) -> bool {
    forall|i: int| 0 <= i < s.len() ==> spec_is_digit(#[trigger] s[i])
}

/// The number a sequence of decimal digits denotes, most significant digit
/// first.
pub open spec fn spec_digits_val(s: Seq<char>) -> nat
    decreases s.len(),
{
    if s.len() == 0 {
        0
    } else {
        spec_digits_val(s.drop_last()) * 10 + spec_digit_val(s.last())
    }
}

/// The digit part of a decimal text: everything after one optional leading
/// sign.
pub open spec fn spec_digits_seq(s: Seq<char>) -> Seq<char> {
    if s.len() > 0 && (s[0] == '-' || s[0] == '+') {
        s.drop_first()
    } else {
        s
    }
}

/// What parsing a text as a decimal i64 yields: an optional sign followed by
/// at least one digit, denoting a value in i64 range; anything else yields
/// nothing.
pub open spec fn spec_parse_i64(s: Seq<char>) -> Option<i64> {
    if s.len() == 0 {
        None
    } else {
        let ds = spec_digits_seq(s);
        if ds.len() == 0 || !spec_all_digits(ds) {
            None
        } else {
            let v: int = if s[0] == '-' {
                -(spec_digits_val(ds) as int)
            } else {
                spec_digits_val(ds) as int
            };
            if -9223372036854775808 <= v <= 9223372036854775807 {
                Some(v as i64)
            } else {
                None
            }
        }
    }
}

/// A sequence of digits denotes at least as much as any of its prefixes.
proof fn lemma_digits_val_prefix(s: Seq<char>, k: int)
    requires
        0 <= k <= s.len(),
    ensures
        spec_digits_val(s) >= spec_digits_val(s.subrange(0, k)),
    decreases s.len(),
{
    if k == s.len() {
        assert(s.subrange(0, k) =~= s);
    } else {
        let t = s.drop_last();
        lemma_digits_val_prefix(t, k);
        assert(t.subrange(0, k) =~= s.subrange(0, k));
    }
}

/// The character for a decimal digit is a digit character and denotes that
/// digit.
proof fn lemma_digit_char_val(d: nat)
    requires
        d < 10,
    ensures
        spec_is_digit(spec_digit_char(d)),
        spec_digit_val(spec_digit_char(d)) == d,
{
    assert('0' as u32 == 48);
    assert('1' as u32 == 49);
    assert('2' as u32 == 50);
    assert('3' as u32 == 51);
    assert('4' as u32 == 52);
    assert('5' as u32 == 53);
    assert('6' as u32 == 54);
    assert('7' as u32 == 55);
    assert('8' as u32 == 56);
    assert('9' as u32 == 57);
}

/// The decimal rendering of a natural number is at least one character long,
/// consists of digits only, and denotes that very number.
proof fn lemma_nat_decimal_digits(n: nat)
    ensures
        spec_nat_decimal(n).len() >= 1,
        spec_all_digits(spec_nat_decimal(n)),
        spec_digits_val(spec_nat_decimal(n)) == n,
    decreases n,
{
    if n < 10 {
        lemma_digit_char_val(n);
        let s = spec_nat_decimal(n);
        assert(s =~= seq![spec_digit_char(n)]);
        assert(s.last() == spec_digit_char(n));
        assert(s.drop_last() =~= Seq::<char>::empty());
        assert(spec_digits_val(s.drop_last()) == 0);
        assert(spec_digits_val(s) == spec_digit_val(spec_digit_char(n)));
    } else {
        lemma_nat_decimal_digits(n / 10);
        lemma_digit_char_val(n % 10);
        lemma_fundamental_div_mod(n as int, 10);
        let t = spec_nat_decimal(n / 10);
        let c = spec_digit_char(n % 10);
        let s = spec_nat_decimal(n);
        assert(s == t.push(c));
        assert(s.drop_last() =~= t);
        assert(s.last() == c);
        assert(spec_digits_val(s) == spec_digits_val(t) * 10 + spec_digit_val(c));
        assert(10 * ((n as int) / 10) + (n as int) % 10 == n);
        assert forall|j: int| 0 <= j < s.len() implies spec_is_digit(#[trigger] s[j]) by {
            if j < s.len() - 1 {
                assert(s[j] == t[j]);
            } else {
                assert(s[j] == c);
            }
        }
    }
}

/// Round trip: rendering an integer in i64 range as decimal text and parsing
/// the text back yields the same integer. The rendering is the one the
/// trusted integer formatter is specified against, so this law ties that
/// specification to the verified parser.
pub proof fn lemma_decimal_round_trip(n: int)
    requires
        -9223372036854775808 <= n <= 9223372036854775807,
    ensures
        spec_parse_i64(spec_int_decimal(n)) == Some(n as i64),
{
    if n >= 0 {
        lemma_nat_decimal_digits(n as nat);
        let s = spec_int_decimal(n);
        assert(s == spec_nat_decimal(n as nat));
        assert(spec_is_digit(s[0]));
        assert(s[0] as u32 != 45 && s[0] as u32 != 43);
        assert(spec_digits_seq(s) == s);
    } else {
        lemma_nat_decimal_digits((-n) as nat);
        let d = spec_nat_decimal((-n) as nat);
        let s = spec_int_decimal(n);
        assert(s == seq!['-'] + d);
        assert(s[0] == '-');
        assert(s.len() >= 2);
        assert(spec_digits_seq(s) =~= d);
    }
}

/// Parse a text as a decimal i64, exactly as [`spec_parse_i64`] states:
/// an optional leading sign, then at least one digit, and a value that fits.
pub fn parse_i64(s: &str) -> (r: Option<i64>)
    ensures
        r == spec_parse_i64(s@),
{
    let n: usize = s.unicode_len();
    if n == 0 {
        return None;
    }
    let first: char = s.get_char(0);
    let negative: bool = first == '-';
    let skip: usize = if first == '-' || first == '+' {
        1
    } else {
        0
    };
    if n == skip {
        return None;
    }
    let limit: u64 = if negative {
        9223372036854775808
    } else {
        9223372036854775807
    };
    let mut acc: u64 = 0;
    let mut i: usize = skip;
    proof {
        assert(s@.subrange(skip as int, skip as int) =~= Seq::<char>::empty());
    }
    while i < n
        invariant
            n == s@.len(),
            skip <= i <= n,
            skip < n,
            skip == 0 || skip == 1,
            negative == (s@[0] == '-'),
            skip == 1 <==> (s@[0] == '-' || s@[0] == '+'),
            limit == if negative {
                9223372036854775808u64
            } else {
                9223372036854775807u64
            },
            spec_all_digits(s@.subrange(skip as int, i as int)),
            acc == spec_digits_val(s@.subrange(skip as int, i as int)),
            acc <= limit,
        decreases n - i,
    {
        let c: char = s.get_char(i);
        let cv: u32 = c as u32;
        if cv < 48 || cv > 57 {
            proof {
                let ds = spec_digits_seq(s@);
                assert(ds =~= s@.subrange(skip as int, n as int));
                assert(ds[i - skip] == s@[i as int]);
                assert(!spec_all_digits(ds));
            }
            return None;
        }
        let d: u64 = (cv - 48) as u64;
        proof {
            let prev = s@.subrange(skip as int, i as int);
            let ext = s@.subrange(skip as int, i as int + 1);
            assert(ext.drop_last() =~= prev);
            assert(ext.last() == s@[i as int]);
            assert(spec_digits_val(ext) == acc * 10 + d);
            assert forall|j: int| 0 <= j < ext.len() implies spec_is_digit(#[trigger] ext[j]) by {
                if j < ext.len() - 1 {
                    assert(ext[j] == prev[j]);
                } else {
                    assert(ext[j] == s@[i as int]);
                }
            }
        }
        if acc > limit / 10 || (acc == limit / 10 && d > limit % 10) {
            proof {
                let ds = spec_digits_seq(s@);
                let ext = s@.subrange(skip as int, i as int + 1);
                assert(acc * 10 + d > limit);
                assert(ds =~= s@.subrange(skip as int, n as int));
                if spec_all_digits(ds) {
                    lemma_digits_val_prefix(ds, i as int + 1 - skip as int);
                    assert(ds.subrange(0, i as int + 1 - skip as int) =~= ext);
                    assert(spec_digits_val(ds) > limit);
                }
            }
            return None;
        }
        acc = acc * 10 + d;
        i = i + 1;
    }
    proof {
        let ds = spec_digits_seq(s@);
        assert(ds =~= s@.subrange(skip as int, n as int));
    }
    if negative {
        if acc == 9223372036854775808 {
            Some(i64::MIN)
        } else {
            Some(-(acc as i64))
        }
    } else {
        Some(acc as i64)
    }
}

} // verus!

