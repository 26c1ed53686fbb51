//! Chain resolution: a user token is either a decimal chain id or an alias
//! from a fixed table; anything else is `UnknownChain`.

use vstd::prelude::*;
use crate::chars::{chars_of, str_eq};
use crate::errors::CloneError;

verus! {

/// Whether `c` is a decimal digit.
pub open spec fn is_digit(c: char) -> bool {
    48 <= c as u32 <= 57
}

/// The numeric value of a digit character.
pub open spec fn digit_val(c: char) -> int {
    c as u32 - 48
}

/// Whether every character of `s` is a decimal digit.
pub open spec fn all_digits(s: Seq<char>) -> bool {
    forall|i: int| 0 <= i < s.len() ==> is_digit(s[i])
}

/// The value of `s` read as a decimal numeral.
pub open spec fn dec_val(s: Seq<char>) -> int
    decreases s.len(),
{
    if s.len() == 0 {
        0
    } else {
        dec_val(s.drop_last()) * 10 + digit_val(s.last())
    }
}

/// `s` without its optional leading `+` sign.
pub open spec fn strip_plus(s: Seq<char>) -> Seq<char> {
    if s.len() > 0 && s[0] == '+' {
        s.skip(1)
    } else {
        s
    }
}

/// Whether `s` is a decimal numeral — an optional leading `+`, then digits —
/// whose value fits in a `u64`.
pub open spec fn is_numeric_u64(s: Seq<char>) -> bool {
    let t = strip_plus(s);
    t.len() > 0 && all_digits(t) && dec_val(t) <= u64::MAX
}

pub proof fn lemma_dec_val_nonneg(s: Seq<char>)
    requires
        all_digits(s),
    ensures
        dec_val(s) >= 0,
    decreases s.len(),
{
    if s.len() > 0 {
        assert(all_digits(s.drop_last()));
        lemma_dec_val_nonneg(s.drop_last());
    }
}

/// A decimal numeral is at least as large as any of its prefixes.
pub proof fn lemma_dec_val_prefix_mono(s: Seq<char>, j: int)
    requires
        all_digits(s),
        0 <= j <= s.len(),
    ensures
        dec_val(s.take(j)) <= dec_val(s),
    decreases s.len(),
{
    if j == s.len() {
        assert(s.take(j) =~= s);
    } else {
        assert(all_digits(s.drop_last()));
        assert(s.take(j) =~= s.drop_last().take(j));
        lemma_dec_val_prefix_mono(s.drop_last(), j);
        lemma_dec_val_nonneg(s.drop_last());
    }
}

/// Parses a decimal numeral with an optional leading `+`; `None` when the
/// rest is empty, holds a non-digit, or names a value above `u64::MAX`.
pub fn parse_u64(chars: &Vec<char>) -> (r: Option<u64>)
    ensures
        r matches Some(v) ==> is_numeric_u64(chars@) && v == dec_val(strip_plus(chars@)),
        r is None ==> !is_numeric_u64(chars@),
{
    let n = chars.len();
    let start: usize = if n > 0 && chars[0] == '+' {
        1
    } else {
        0
    };
    let ghost t = strip_plus(chars@);
    proof {
        assert(t =~= chars@.skip(start as int));
    }
    if n == start {
        return None;
    }
    let mut acc: u64 = 0;
    let mut i: usize = start;
    while i < n
        invariant
            start <= i <= n == chars@.len(),
            t == strip_plus(chars@),
            t =~= chars@.skip(start as int),
            t.len() == n - start,
            all_digits(t.take(i - start)),
            acc == dec_val(t.take(i - start)),
        decreases n - i,
    {
        let c = chars[i];
        proof {
            assert(t[i - start] == chars@[i as int]);
        }
        let u = c as u32;
        if !(48 <= u && u <= 57) {
            proof {
                assert(!is_digit(t[i - start]));
            }
            return None;
        }
        let d: u64 = (u - 48) as u64;
        proof {
            assert(t.take(i - start + 1).drop_last() =~= t.take(i - start));
            assert(t.take(i - start + 1).last() == t[i - start]);
        }
        if acc > (u64::MAX - d) / 10 {
            proof {
                assert(acc * 10 + d > u64::MAX) by (nonlinear_arith)
                    requires
                        acc > (u64::MAX - d) / 10,
                        d <= 9,
                ;
                assert(dec_val(t.take(i - start + 1)) > u64::MAX);
                if all_digits(t) {
                    lemma_dec_val_prefix_mono(t, i - start + 1);
                }
            }
            return None;
        }
        proof {
            assert(acc * 10 + d <= u64::MAX) by (nonlinear_arith)
                requires
                    acc <= (u64::MAX - d) / 10,
                    d <= 9,
            ;
        }
        acc = acc * 10 + d;
        i = i + 1;
    }
    proof {
        assert(t.take(n - start) =~= t);
    }
    Some(acc)
}

/// The alias table: which chain id each known alias stands for.
pub open spec fn spec_chain_to_id(key: Seq<char>) -> Option<u64> {
    if key == "eth"@ {
        Some(1u64)
    } else if key == "op"@ {
        Some(10u64)
    } else if key == "bsc"@ {
        Some(51u64)
    } else if key == "poly"@ {
        Some(137u64)
    } else if key == "base"@ {
        Some(8453u64)
    } else if key == "arb"@ {
        Some(42161u64)
    } else if key == "lin"@ {
        Some(59144u64)
    } else if key == "linea"@ {
        Some(59144u64)
    } else if key == "era"@ {
        Some(324u64)
    } else if key == "zksync"@ {
        Some(324u64)
    } else {
        None
    }
}

/// Maps a chain alias to its numeric chain id; `None` for an unknown alias.
pub fn chain_to_id(key: &str) -> (r: Option<u64>)
    ensures
        r == spec_chain_to_id(key@),
{
    if str_eq(key, "eth") {
        Some(1)
    } else if str_eq(key, "op") {
        Some(10)
    } else if str_eq(key, "bsc") {
        Some(51)
    } else if str_eq(key, "poly") {
        Some(137)
    } else if str_eq(key, "base") {
        Some(8453)
    } else if str_eq(key, "arb") {
        Some(42161)
    } else if str_eq(key, "lin") {
        Some(59144)
    } else if str_eq(key, "linea") {
        Some(59144)
    } else if str_eq(key, "era") {
        Some(324)
    } else if str_eq(key, "zksync") {
        Some(324)
    } else {
        None
    }
}

/// What resolving a chain token yields: the numeral's value, or the alias
/// table's id, or `UnknownChain`.
pub open spec fn spec_resolve(s: Seq<char>) -> Result<u64, CloneError> {
    if is_numeric_u64(s) {
        Ok(dec_val(strip_plus(s)) as u64)
    } else {
        match spec_chain_to_id(s) {
            Some(id) => Ok(id),
            None => Err(CloneError::UnknownChain),
        }
    }
}

/// A numeric token resolves to its own value, never through the alias table.
pub proof fn lemma_numeric_resolves(token: Seq<char>)
    requires
        is_numeric_u64(token),
    ensures
        spec_resolve(token) == Ok::<u64, CloneError>(dec_val(strip_plus(token)) as u64),
{
}

/// Every alias of the table resolves to its documented id: no alias is
/// numeric, so the table always answers for them.
pub proof fn lemma_alias_resolves(token: Seq<char>, id: u64)
    requires
        spec_chain_to_id(token) == Some(id),
    ensures
        spec_resolve(token) == Ok::<u64, CloneError>(id),
{
    reveal_strlit("eth");
    reveal_strlit("op");
    reveal_strlit("bsc");
    reveal_strlit("poly");
    reveal_strlit("base");
    reveal_strlit("arb");
    reveal_strlit("lin");
    reveal_strlit("linea");
    reveal_strlit("era");
    reveal_strlit("zksync");
    assert(!is_digit("eth"@[0]) && "eth"@[0] != '+');
    assert(!is_digit("op"@[0]) && "op"@[0] != '+');
    assert(!is_digit("bsc"@[0]) && "bsc"@[0] != '+');
    assert(!is_digit("poly"@[0]) && "poly"@[0] != '+');
    assert(!is_digit("base"@[0]) && "base"@[0] != '+');
    assert(!is_digit("arb"@[0]) && "arb"@[0] != '+');
    assert(!is_digit("lin"@[0]) && "lin"@[0] != '+');
    assert(!is_digit("linea"@[0]) && "linea"@[0] != '+');
    assert(!is_digit("era"@[0]) && "era"@[0] != '+');
    assert(!is_digit("zksync"@[0]) && "zksync"@[0] != '+');
    assert(strip_plus(token) == token);
    assert(!all_digits(strip_plus(token)));
}

/// A token that is neither numeric nor in the alias table is `UnknownChain`.
pub proof fn lemma_unknown_chain(token: Seq<char>)
    requires
        !is_numeric_u64(token),
        spec_chain_to_id(token) is None,
    ensures
        spec_resolve(token) == Err::<u64, CloneError>(CloneError::UnknownChain),
{
}

/// Resolves a chain token: a decimal numeral names its own chain id; a known
/// alias names the table's id; anything else is `UnknownChain`.
pub fn resolve(token: &str) -> (r: Result<u64, CloneError>)
    ensures
        r == spec_resolve(token@),
{
    let cs = chars_of(token);
    match parse_u64(&cs) {
        Some(v) => Ok(v),
        None => match chain_to_id(token) {
            Some(id) => Ok(id),
            None => Err(CloneError::UnknownChain),
        },
    }
}

} // verus!
