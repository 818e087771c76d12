//! The tolerant decoding of numbers that the service sends either as JSON
//! numbers or as strings of decimal digits.
use vstd::prelude::*;
use crate::json::{JsonValue, member, get_member};
use crate::text::chars_of;

verus! {

/// `c` is one of the ASCII digits.
pub open spec fn is_digit(c: char) -> bool {
    '0' <= c && c <= '9'
}

/// `s` is a nonempty run of ASCII digits.
pub open spec fn all_digits(s: Seq<char>) -> bool {
    s.len() > 0 && forall|i: int| 0 <= i < s.len() ==> is_digit(#[trigger] s[i])
}

/// The value of the digit `c`.
pub open spec fn digit_value(c: char) -> nat {
    if is_digit(c) {
        (c as u32 - '0' as u32) as nat
    } else {
        0
    }
}

/// The number that the decimal digits `s` write.
pub open spec fn digits_value(s: Seq<char>) -> nat
    decreases s.len(),
{
    if s.len() == 0 {
        0
    } else {
        digits_value(s.drop_last()) * 10 + digit_value(s.last())
    }
}

/// The number that a JSON number or a string of digits carries, where `v`
/// is one of these and its text is all digits.
pub open spec fn tolerant_value(v: JsonValue) -> Option<nat> {
    match v {
        JsonValue::Number(t) => if all_digits(t@) {
            Some(digits_value(t@))
        } else {
            None
        },
        JsonValue::Str(t) => if all_digits(t@) {
            Some(digits_value(t@))
        } else {
            None
        },
        _ => None,
    }
}

/// Reads `s` as decimal digits: `None` where it is not a nonempty run of
/// digits or where its value does not fit in a `u64`.
pub fn decode_digits(s: &str) -> (r: Option<u64>)
    ensures
        match r {
            Some(x) => all_digits(s@) && digits_value(s@) == x,
            None => !all_digits(s@) || digits_value(s@) > u64::MAX,
        },
{
    let cs = chars_of(s);
    if cs.len() == 0 {
        return None;
    }
    let mut acc: u64 = 0;
    let mut overflow = false;
    let mut i: usize = 0;
    assert(cs@.subrange(0, 0) =~= Seq::<char>::empty());
    while i < cs.len()
        invariant
            i <= cs@.len(),
            cs@ == s@,
            forall|k: int| 0 <= k < i ==> is_digit(#[trigger] cs@[k]),
            !overflow ==> acc == digits_value(cs@.subrange(0, i as int)),
            overflow ==> digits_value(cs@.subrange(0, i as int)) > u64::MAX,
        decreases cs@.len() - i,
    {
        let c = cs[i];
        if !('0' <= c && c <= '9') {
            return None;
        }
        let d: u64 = (c as u32 - '0' as u32) as u64;
        let ghost prefix = cs@.subrange(0, i as int);
        let ghost next = cs@.subrange(0, i + 1);
        assert(next.drop_last() =~= prefix);
        assert(digits_value(next) == digits_value(prefix) * 10 + d);
        if !overflow {
            match acc.checked_mul(10) {
                Some(m) => match m.checked_add(d) {
                    Some(n) => {
                        acc = n;
                    },
                    None => {
                        overflow = true;
                    },
                },
                None => {
                    overflow = true;
                },
            }
        }
        i += 1;
    }
    assert(cs@.subrange(0, cs@.len() as int) =~= cs@);
    if overflow {
        None
    } else {
        Some(acc)
    }
}

/// Decodes a number sent either as a JSON number or as a string of digits.
pub fn decode_tolerant(v: &JsonValue) -> (r: Option<u64>)
    ensures
        match r {
            Some(x) => tolerant_value(*v) == Some(x as nat),
            None => match tolerant_value(*v) {
                Some(n) => n > u64::MAX,
                None => true,
            },
        },
{
    match v {
        JsonValue::Number(t) => decode_digits(t.as_str()),
        JsonValue::Str(t) => decode_digits(t.as_str()),
        _ => None,
    }
}

/// The number carried by the member named `key` of `v`, where it has one.
pub open spec fn number_member(v: JsonValue, key: Seq<char>) -> Option<nat> {
    match member(v, key) {
        Some(x) => tolerant_value(x),
        None => None,
    }
}

/// Decodes the member named `key` of `v` as a number.
pub fn get_number_member(v: &JsonValue, key: &str) -> (r: Option<u64>)
    ensures
        match r {
            Some(x) => number_member(*v, key@) == Some(x as nat),
            None => match number_member(*v, key@) {
                Some(n) => n > u64::MAX,
                None => true,
            },
        },
{
    match get_member(v, key) {
        Some(x) => decode_tolerant(x),
        None => None,
    }
}

/// A number sent as a JSON number and the same digits sent as a JSON
/// string decode alike: to the same value, or both not at all.
pub proof fn lemma_number_and_string_agree(n: String, s: String)
    requires
        n@ == s@,
    ensures
        tolerant_value(JsonValue::Number(n)) == tolerant_value(JsonValue::Str(s)),
        all_digits(s@) ==> tolerant_value(JsonValue::Str(s)) == Some(digits_value(s@)),
        !all_digits(s@) ==> tolerant_value(JsonValue::Str(s)) is None,
{
}

} // verus!
