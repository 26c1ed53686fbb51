//! The explorer query URL: base, chain id, fixed module/action parameters,
//! and the contract address, concatenated verbatim. The address is passed
//! through unescaped; the API is expected to reject malformed ones.

use vstd::prelude::*;
use crate::chains::{all_digits, dec_val, digit_val, is_digit, is_numeric_u64};
use crate::chars::string_from_chars;

verus! {

/// The character of a single decimal digit.
pub open spec fn digit_char(d: int) -> char {
    if d == 0 {
        '0'
    } else if d == 1 {
        '1'
    } else if d == 2 {
        '2'
    } else if d == 3 {
        '3'
    } else if d == 4 {
        '4'
    } else if d == 5 {
        '5'
    } else if d == 6 {
        '6'
    } else if d == 7 {
        '7'
    } else if d == 8 {
        '8'
    } else {
        '9'
    }
}

/// The digits of a positive number, most significant first; empty for zero.
pub open spec fn spec_pos_digits(n: int) -> Seq<char>
    decreases n,
{
    if n <= 0 {
        Seq::empty()
    } else {
        spec_pos_digits(n / 10).push(digit_char(n % 10))
    }
}

/// The decimal numeral of a non-negative number.
pub open spec fn spec_dec_str(n: int) -> Seq<char> {
    if n == 0 {
        seq!['0']
    } else {
        spec_pos_digits(n)
    }
}

fn digit_to_char(d: u64) -> (r: char)
    requires
        d <= 9,
    ensures
        r == digit_char(d as int),
{
    if d == 0 {
        '0'
    } else if d == 1 {
        '1'
    } else if d == 2 {
        '2'
    } else if d == 3 {
        '3'
    } else if d == 4 {
        '4'
    } else if d == 5 {
        '5'
    } else if d == 6 {
        '6'
    } else if d == 7 {
        '7'
    } else if d == 8 {
        '8'
    } else {
        '9'
    }
}

/// A printed digit reads back as its value.
proof fn lemma_digit_char_val(d: int)
    requires
        0 <= d <= 9,
    ensures
        is_digit(digit_char(d)),
        digit_val(digit_char(d)) == d,
{
}

proof fn lemma_pos_digits_val(n: int)
    requires
        n > 0,
    ensures
        all_digits(spec_pos_digits(n)),
        spec_pos_digits(n).len() > 0,
        dec_val(spec_pos_digits(n)) == n,
    decreases n,
{
    let d = n % 10;
    let s = spec_pos_digits(n);
    lemma_digit_char_val(d);
    assert(dec_val(Seq::<char>::empty()) == 0);
    if n < 10 {
        assert(spec_pos_digits(n / 10) =~= Seq::<char>::empty());
        assert(s =~= Seq::<char>::empty().push(digit_char(d)));
        assert(s.drop_last() =~= Seq::<char>::empty());
        assert(dec_val(s.drop_last()) == 0);
        assert(n / 10 == 0 && d == n);
    } else {
        lemma_pos_digits_val(n / 10);
        assert(s =~= spec_pos_digits(n / 10).push(digit_char(d)));
        assert(s.drop_last() =~= spec_pos_digits(n / 10));
        assert(dec_val(s.drop_last()) == n / 10);
    }
    assert(s.len() > 0);
    assert(s.last() == digit_char(d));
    assert(dec_val(s) == dec_val(s.drop_last()) * 10 + digit_val(s.last()));
    assert(n / 10 * 10 + n % 10 == n);
    assert(forall|i: int| 0 <= i < s.len() - 1 ==> s[i] == s.drop_last()[i]);
}

/// Round trip through the numeral: the printed decimal form of any value
/// is a numeral that reads back as exactly that value.
pub proof fn lemma_numeral_roundtrip(n: u64)
    ensures
        is_numeric_u64(spec_dec_str(n as int)),
        dec_val(spec_dec_str(n as int)) == n,
{
    if n == 0 {
        let s = spec_dec_str(0);
        assert(s.drop_last() =~= Seq::<char>::empty());
        assert(s.last() == '0');
        lemma_digit_char_val(0);
        assert(dec_val(Seq::<char>::empty()) == 0);
        assert(dec_val(s) == digit_val('0'));
        assert(is_digit(s[0]));
    } else {
        lemma_pos_digits_val(n as int);
    }
}

/// The decimal numeral of `n`, as characters.
pub fn u64_dec_chars(n: u64) -> (r: Vec<char>)
    ensures
        r@ == spec_dec_str(n as int),
{
    if n == 0 {
        let mut r: Vec<char> = Vec::new();
        r.push('0');
        proof {
            assert(r@ =~= spec_dec_str(0));
        }
        return r;
    }
    let mut m = n;
    let mut rev: Vec<char> = Vec::new();
    while m > 0
        invariant
            spec_pos_digits(n as int) =~= spec_pos_digits(m as int) + rev@.reverse(),
        decreases m,
    {
        let d = m % 10;
        rev.push(digit_to_char(d));
        proof {
            assert(rev@.drop_last() + seq![digit_char(d as int)] =~= rev@);
            assert(rev@.reverse() =~= seq![digit_char(d as int)] + rev@.drop_last().reverse());
            assert(spec_pos_digits(m as int) =~= spec_pos_digits(m as int / 10) + seq![
                digit_char(m as int % 10),
            ]);
            assert(spec_pos_digits(m as int / 10) + rev@.reverse() =~= spec_pos_digits(n as int));
        }
        m = m / 10;
    }
    let mut out: Vec<char> = Vec::new();
    let mut i: usize = rev.len();
    proof {
        assert(spec_pos_digits(n as int) =~= rev@.reverse());
    }
    while i > 0
        invariant
            i <= rev@.len(),
            out@ =~= rev@.subrange(i as int, rev@.len() as int).reverse(),
        decreases i,
    {
        i = i - 1;
        out.push(rev[i]);
        proof {
            assert(out@ =~= rev@.subrange(i as int, rev@.len() as int).reverse());
        }
    }
    proof {
        assert(rev@.subrange(0, rev@.len() as int) =~= rev@);
        assert(out@ =~= spec_dec_str(n as int));
    }
    out
}

/// The query URL for a chain id, endpoint base, and contract address.
pub open spec fn spec_build_url(chainid: int, baseurl: Seq<char>, address: Seq<char>) -> Seq<
    char,
> {
    baseurl + "?chainid="@ + spec_dec_str(chainid) + "&module=contract&action=getsourcecode&address="@
        + address
}

/// Builds the explorer request URL:
/// `{baseurl}?chainid={chainid}&module=contract&action=getsourcecode&address={address}`.
pub fn build_url(chainid: u64, baseurl: &str, address: &str) -> (r: String)
    ensures
        r@ == spec_build_url(chainid as int, baseurl@, address@),
{
    let mut url = baseurl.to_owned();
    url.append("?chainid=");
    let digits = u64_dec_chars(chainid);
    let digits_s = string_from_chars(&digits);
    url.append(digits_s.as_str());
    url.append("&module=contract&action=getsourcecode&address=");
    url.append(address);
    url
}

} // verus!
