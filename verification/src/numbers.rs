//! Parsing of decimal numbers from message payloads.
//!
//! Temperatures and humidities travel on the bus as decimal text
//! (`"21.5"`). The hub reads them into [`Decimal`] values held in
//! thousandths: an optional sign, digits with at most one decimal
//! point, at least one digit overall, at most fifteen integer digits,
//! and fraction digits beyond the third truncated.

use vstd::prelude::*;
use vstd::string::*;

use crate::errors::ParseError;
use crate::models::Decimal;

verus! {

/// `c` is an ASCII digit.
pub open spec fn is_digit(c: char) -> bool {
    48 <= c as int && c as int <= 57
}

/// Numeric value of a digit character.
pub open spec fn digit_val(c: char) -> int {
    c as int - 48
}

/// Every character of `s` is a digit.
pub open spec fn all_digits(s: Seq<char>) -> bool {
    forall|i: int| 0 <= i < s.len() ==> is_digit(s[i])
}

/// The value of a digit string read in base 10.
pub open spec fn digits_val(s: Seq<char>) -> int
    decreases s.len(),
{
    if s.len() == 0 {
        0
    } else {
        10 * digits_val(s.drop_last()) + digit_val(s.last())
    }
}

/// Ten to the `n`.
pub open spec fn pow10(n: nat) -> int
    decreases n,
{
    if n == 0 {
        1
    } else {
        10 * pow10((n - 1) as nat)
    }
}

/// The index of the first occurrence of `c` in `s`, or `s.len()` if
/// `c` does not occur.
pub open spec fn first_index_of(s: Seq<char>, c: char) -> int
    decreases s.len(),
{
    if s.len() == 0 {
        0
    } else if s[0] == c {
        0
    } else {
        1 + first_index_of(s.drop_first(), c)
    }
}

/// A digit string is nonnegative and bounded by ten to its length.
pub proof fn lemma_digits_val_bound(s: Seq<char>)
    requires
        all_digits(s),
    ensures
        0 <= digits_val(s) < pow10(s.len()),
    decreases s.len(),
{
    if s.len() > 0 {
        assert(all_digits(s.drop_last()));
        lemma_digits_val_bound(s.drop_last());
        assert(is_digit(s.last()));
    }
}

/// Powers of ten are positive.
pub proof fn lemma_pow10_pos(n: nat)
    ensures
        pow10(n) >= 1,
    decreases n,
{
    if n > 0 {
        lemma_pow10_pos((n - 1) as nat);
    }
}

/// Powers of ten grow with the exponent.
pub proof fn lemma_pow10_mono(a: nat, b: nat)
    requires
        a <= b,
    ensures
        0 < pow10(a) <= pow10(b),
    decreases b,
{
    lemma_pow10_pos(a);
    if a < b {
        lemma_pow10_mono(a, (b - 1) as nat);
        lemma_pow10_pos((b - 1) as nat);
    }
}

/// Concrete values of the small powers of ten the parser works with.
pub proof fn lemma_pow10_concrete()
    ensures
        pow10(14) == 100_000_000_000_000,
        pow10(15) == 1_000_000_000_000_000,
{
    assert(pow10(0) == 1);
    assert(pow10(1) == 10);
    assert(pow10(2) == 100);
    assert(pow10(3) == 1000);
    assert(pow10(4) == 10_000);
    assert(pow10(5) == 100_000);
    assert(pow10(6) == 1_000_000);
    assert(pow10(7) == 10_000_000);
    assert(pow10(8) == 100_000_000);
    assert(pow10(9) == 1_000_000_000);
    assert(pow10(10) == 10_000_000_000);
    assert(pow10(11) == 100_000_000_000);
    assert(pow10(12) == 1_000_000_000_000);
    assert(pow10(13) == 10_000_000_000_000);
    assert(pow10(14) == 100_000_000_000_000);
    assert(pow10(15) == 1_000_000_000_000_000);
}

/// An index with no `c` before it, and `c` at it or the end of `s`
/// behind it, is exactly `first_index_of`.
pub proof fn lemma_first_index_of_is(s: Seq<char>, c: char, i: int)
    requires
        0 <= i <= s.len(),
        forall|j: int| 0 <= j < i ==> s[j] != c,
        i < s.len() ==> s[i] == c,
    ensures
        first_index_of(s, c) == i,
    decreases s.len(),
{
    if s.len() > 0 && s[0] != c {
        assert(i >= 1);
        lemma_first_index_of_is(s.drop_first(), c, i - 1);
    }
}

/// The characters after an optional leading sign.
pub open spec fn dec_body(s: Seq<char>) -> Seq<char> {
    if s.len() > 0 && (s[0] == '-' || s[0] == '+') {
        s.drop_first()
    } else {
        s
    }
}

/// The sign the text carries: minus one for a leading `-`, else one.
pub open spec fn dec_sign(s: Seq<char>) -> int {
    if s.len() > 0 && s[0] == '-' {
        -1
    } else {
        1
    }
}

/// The integer digits: everything in the body before its first point.
pub open spec fn dec_int_part(s: Seq<char>) -> Seq<char> {
    dec_body(s).take(first_index_of(dec_body(s), '.'))
}

/// The fraction digits: everything in the body after its first point,
/// empty when there is no point.
pub open spec fn dec_frac_part(s: Seq<char>) -> Seq<char> {
    let b = dec_body(s);
    let d = first_index_of(b, '.');
    if d < b.len() {
        b.skip(d + 1)
    } else {
        Seq::empty()
    }
}

/// The text is a well-formed decimal: an optional sign, then digits
/// with at most one point, at least one digit overall, and at most
/// fifteen integer digits.
pub open spec fn dec_valid(s: Seq<char>) -> bool {
    &&& all_digits(dec_int_part(s))
    &&& all_digits(dec_frac_part(s))
    &&& dec_int_part(s).len() + dec_frac_part(s).len() > 0
    &&& dec_int_part(s).len() <= 15
}

/// The thousandths the fraction digits encode; digits beyond the third
/// are truncated.
pub open spec fn frac_thousandths(f: Seq<char>) -> int {
    if f.len() >= 3 {
        digits_val(f.take(3))
    } else if f.len() == 2 {
        10 * digits_val(f)
    } else if f.len() == 1 {
        100 * digits_val(f)
    } else {
        0
    }
}

/// The value of a well-formed decimal text, in thousandths.
pub open spec fn dec_thousandths(s: Seq<char>) -> int {
    dec_sign(s) * (1000 * digits_val(dec_int_part(s)) + frac_thousandths(dec_frac_part(s)))
}

/// Parse a decimal payload into thousandths.
///
/// Succeeds exactly on well-formed decimal text ([`dec_valid`]) and
/// then returns exactly its value ([`dec_thousandths`]).
pub fn parse_decimal(s: &str) -> (r: Result<Decimal, ParseError>)
    ensures
        r is Ok <==> dec_valid(s@),
        r matches Ok(d) ==> d.thousandths as int == dec_thousandths(s@),
        r matches Ok(d) ==> d.thousandths > i64::MIN,
        r is Err ==> r == Err::<Decimal, ParseError>(ParseError::InvalidNumber),
{
    let n = s.unicode_len();
    let ghost body = dec_body(s@);

    // Optional sign.
    let mut start: usize = 0;
    let mut negative = false;
    if n > 0 {
        let c0 = s.get_char(0);
        if c0 == '-' {
            negative = true;
            start = 1;
        } else if c0 == '+' {
            start = 1;
        }
    }
    proof {
        assert(body =~= s@.skip(start as int));
        assert(negative == (dec_sign(s@) == -1));
    }

    // Find the first point of the body.
    let mut di: usize = start;
    while di < n && s.get_char(di) != '.'
        invariant
            n == s@.len(),
            start <= di <= n,
            body == s@.skip(start as int),
            forall|j: int| start <= j < di ==> s@[j] != '.',
        decreases n - di,
    {
        di += 1;
    }
    proof {
        assert(forall|j: int| 0 <= j < di - start ==> body[j] == s@[j + start] && body[j] != '.');
        lemma_first_index_of_is(body, '.', di - start);
        assert(dec_int_part(s@) =~= s@.subrange(start as int, di as int));
        if di < n {
            assert(dec_frac_part(s@) =~= s@.subrange(di + 1, n as int));
        } else {
            assert(dec_frac_part(s@) =~= Seq::<char>::empty());
        }
    }
    let ghost ip = dec_int_part(s@);
    let ghost fp = dec_frac_part(s@);

    if di - start > 15 {
        // More than fifteen integer digits.
        return Err(ParseError::InvalidNumber);
    }

    // Integer digits.
    let mut acc: i64 = 0;
    let mut i: usize = start;
    proof {
        lemma_pow10_concrete();
    }
    while i < di
        invariant
            n == s@.len(),
            start <= i <= di <= n,
            di - start <= 15,
            ip == dec_int_part(s@),
            ip =~= s@.subrange(start as int, di as int),
            all_digits(s@.subrange(start as int, i as int)),
            acc == digits_val(s@.subrange(start as int, i as int)),
            0 <= acc < pow10((i - start) as nat),
            pow10(14) == 100_000_000_000_000,
            pow10(15) == 1_000_000_000_000_000,
        decreases di - i,
    {
        let c = s.get_char(i);
        let cv = c as u32;
        if cv < 48 || cv > 57 {
            proof {
                assert(ip[i - start] == s@[i as int]);
                assert(!is_digit(ip[i - start]));
            }
            return Err(ParseError::InvalidNumber);
        }
        proof {
            let pre = s@.subrange(start as int, i as int);
            let post = s@.subrange(start as int, i + 1);
            assert(post.drop_last() =~= pre);
            assert(post.last() == s@[i as int]);
            lemma_pow10_mono((i - start) as nat, 14);
        }
        acc = acc * 10 + ((cv - 48) as i64);
        i += 1;
        proof {
            assert(pow10(((i - start)) as nat) == 10 * pow10(((i - 1) - start) as nat));
        }
    }
    proof {
        assert(s@.subrange(start as int, di as int) == ip);
        assert(all_digits(ip));
        assert(acc == digits_val(ip));
        lemma_pow10_mono((di - start) as nat, 15);
        assert(acc < 1_000_000_000_000_000);
    }

    // Fraction digits.
    let mut facc: i64 = 0;
    let mut m: usize = 0;
    if di < n {
        let mut k: usize = di + 1;
        while k < n
            invariant
                n == s@.len(),
                di + 1 <= k <= n,
                fp == dec_frac_part(s@),
                fp =~= s@.subrange(di + 1, n as int),
                m == if k - (di + 1) < 3 {
                    k - (di + 1)
                } else {
                    3int
                },
                all_digits(s@.subrange(di + 1, k as int)),
                facc == digits_val(s@.subrange(di + 1, (di + 1 + m) as int)),
                0 <= facc < 1000,
            decreases n - k,
        {
            let c = s.get_char(k);
            let cv = c as u32;
            if cv < 48 || cv > 57 {
                proof {
                    assert(fp[k - (di + 1)] == s@[k as int]);
                    assert(!is_digit(fp[k - (di + 1)]));
                }
                return Err(ParseError::InvalidNumber);
            }
            if m < 3 {
                proof {
                    let pre = s@.subrange(di + 1, (di + 1 + m) as int);
                    let post = s@.subrange(di + 1, (di + 1 + m) + 1);
                    assert(post.drop_last() =~= pre);
                    assert(post.last() == s@[(di + 1 + m) as int]);
                    assert(k == di + 1 + m);
                    assert(pre =~= s@.subrange(di + 1, k as int));
                    lemma_digits_val_bound(pre);
                    assert(pow10(0) == 1);
                    assert(pow10(1) == 10);
                    assert(pow10(2) == 100);
                }
                facc = facc * 10 + ((cv - 48) as i64);
                m += 1;
            }
            k += 1;
            proof {
                assert(s@.subrange(di + 1, k as int).drop_last() =~= s@.subrange(
                    di + 1,
                    k - 1,
                ));
            }
        }
    }
    let ghost fplen = fp.len();
    proof {
        if di < n {
            assert(all_digits(fp));
            if fplen >= 3 {
                assert(m == 3);
                assert(fp.take(3) =~= s@.subrange(di + 1, (di + 1 + 3) as int));
            } else {
                assert(m == fplen);
                assert(fp =~= s@.subrange(di + 1, (di + 1 + m) as int));
            }
        } else {
            assert(fplen == 0 && m == 0);
        }
    }

    // Scale the fraction to thousandths.
    let frac: i64 = if m == 0 {
        0
    } else if m == 1 {
        facc * 100
    } else if m == 2 {
        facc * 10
    } else {
        facc
    };
    proof {
        if m == 0 {
            assert(fplen == 0);
            assert(frac == frac_thousandths(fp));
        } else if m == 1 {
            assert(fplen == 1);
            assert(facc == digits_val(fp));
            lemma_digits_val_bound(fp);
            assert(pow10(0) == 1);
            assert(pow10(1) == 10);
            assert(frac == frac_thousandths(fp));
        } else if m == 2 {
            assert(fplen == 2);
            assert(facc == digits_val(fp));
            lemma_digits_val_bound(fp);
            assert(pow10(0) == 1);
            assert(pow10(1) == 10);
            assert(pow10(2) == 100);
            assert(frac == frac_thousandths(fp));
        } else {
            assert(m == 3 && fplen >= 3);
            assert(facc == digits_val(fp.take(3)));
            assert(frac == frac_thousandths(fp));
        }
        assert(0 <= frac < 1000);
    }

    if i == start && m == 0 {
        // No digit at all.
        proof {
            assert(ip.len() + fp.len() == 0);
        }
        return Err(ParseError::InvalidNumber);
    }

    let magnitude: i64 = acc * 1000 + frac;
    let value: i64 = if negative {
        -magnitude
    } else {
        magnitude
    };
    proof {
        assert(dec_valid(s@));
        assert(value as int == dec_thousandths(s@));
    }
    Ok(Decimal { thousandths: value })
}

} // verus!
