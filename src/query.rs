//! Query strings as lists of key and value pairs, shared by the three
//! endpoints' parameter types.
use vstd::prelude::*;
use vstd::string::StringExecFns;
use crate::text::string_of;

verus! {

/// The ten decimal digits, in order.
pub open spec fn digit_chars() -> Seq<char> {
    seq!['0', '1', '2', '3', '4', '5', '6', '7', '8', '9']
}

/// The decimal text of `n`, without leading zeros.
pub open spec fn decimal(n: nat) -> Seq<char>
    decreases n,
{
    if n < 10 {
        seq![digit_chars()[n as int]]
    } else {
        decimal(n / 10).push(digit_chars()[(n % 10) as int])
    }
}

/// The text of `s`, where there is one.
pub open spec fn opt_text(s: Option<String>) -> Option<Seq<char>> {
    match s {
        Some(t) => Some(t@),
        None => None,
    }
}

/// The pair for `key`, where a text value is present.
pub open spec fn text_param(key: Seq<char>, v: Option<Seq<char>>) -> Seq<(Seq<char>, Seq<char>)> {
    match v {
        Some(t) => seq![(key, t)],
        None => seq![],
    }
}

/// The pair for `key`, where a number is present.
pub open spec fn number_param(key: Seq<char>, v: Option<u8>) -> Seq<(Seq<char>, Seq<char>)> {
    match v {
        Some(n) => seq![(key, decimal(n as nat))],
        None => seq![],
    }
}

fn push_decimal(out: &mut Vec<char>, n: u64)
    ensures
        final(out)@ == old(out)@ + decimal(n as nat),
    decreases n,
{
    if n >= 10 {
        push_decimal(out, n / 10);
    }
    let digits: Vec<char> = vec!['0', '1', '2', '3', '4', '5', '6', '7', '8', '9'];
    assert(digits@ =~= digit_chars());
    out.push(digits[(n % 10) as usize]);
    assert(final(out)@ =~= old(out)@ + decimal(n as nat));
}

/// The decimal text of `n`.
pub fn decimal_string(n: u64) -> (r: String)
    ensures
        r@ == decimal(n as nat),
{
    let mut cs: Vec<char> = Vec::new();
    push_decimal(&mut cs, n);
    assert(cs@ =~= decimal(n as nat));
    string_of(&cs)
}

/// Appends the pair `key`, `value`.
pub fn push_pair(pairs: &mut Vec<(String, String)>, key: &str, value: String)
    ensures
        final(pairs).deep_view() == old(pairs).deep_view().push((key@, value@)),
{
    let k = String::from_str(key);
    pairs.push((k, value));
    assert(final(pairs).deep_view() =~= old(pairs).deep_view().push((key@, value@)));
}

/// Appends the pair `key` with the decimal text of `n`.
pub fn push_number(pairs: &mut Vec<(String, String)>, key: &str, n: u64)
    ensures
        final(pairs).deep_view() == old(pairs).deep_view().push((key@, decimal(n as nat))),
{
    push_pair(pairs, key, decimal_string(n));
}

/// Appends the pair `key` with the text `v`, where it is present.
pub fn push_opt_text(pairs: &mut Vec<(String, String)>, key: &str, v: &Option<String>)
    ensures
        final(pairs).deep_view() == old(pairs).deep_view() + text_param(key@, opt_text(*v)),
{
    match v {
        Some(t) => {
            push_pair(pairs, key, t.clone());
            assert(final(pairs).deep_view() =~= old(pairs).deep_view() + text_param(key@, opt_text(*v)));
        },
        None => {
            assert(old(pairs).deep_view() =~= old(pairs).deep_view() + text_param(key@, opt_text(*v)));
        },
    }
}

/// Appends the pair `key` with the decimal text of `v`, where it is present.
pub fn push_opt_number(pairs: &mut Vec<(String, String)>, key: &str, v: Option<u8>)
    ensures
        final(pairs).deep_view() == old(pairs).deep_view() + number_param(key@, v),
{
    match v {
        Some(n) => {
            push_number(pairs, key, n as u64);
            assert(final(pairs).deep_view() =~= old(pairs).deep_view() + number_param(key@, v));
        },
        None => {
            assert(old(pairs).deep_view() =~= old(pairs).deep_view() + number_param(key@, v));
        },
    }
}

} // verus!
