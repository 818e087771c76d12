//! The textual repair of the list endpoint's body.
//!
//! The service wraps every element of the `giteki` array in a redundant
//! `gitekiInfo` object and leaves the nesting unbalanced. Four literal
//! substitutions, applied in order over the whole text, turn the body into
//! JSON of the declared shape. Each pattern holds the characters of a
//! defect and not only of the shape it becomes, so that text in which none
//! of the four patterns occurs passes through unchanged.
use vstd::prelude::*;
use crate::text::{chars_of, string_of};

verus! {

/// `pat` stands in `s` at position `i`.
pub open spec fn occurs_at(s: Seq<char>, i: int, pat: Seq<char>) -> bool {
    0 <= i && i + pat.len() <= s.len() && s.subrange(i, i + pat.len()) == pat
}

/// `pat` stands nowhere in `s`.
pub open spec fn absent(s: Seq<char>, pat: Seq<char>) -> bool {
    forall|i: int| 0 <= i <= s.len() - pat.len() ==> !occurs_at(s, i, pat)
}

/// Every occurrence of `pat` in `s`, found from left to right without
/// overlap, replaced by `rep`.
pub open spec fn replace_all(s: Seq<char>, pat: Seq<char>, rep: Seq<char>) -> Seq<char>
    decreases s.len(),
{
    if pat.len() == 0 || s.len() < pat.len() {
        s
    } else if s.subrange(0, pat.len() as int) == pat {
        rep + replace_all(s.subrange(pat.len() as int, s.len() as int), pat, rep)
    } else {
        seq![s[0]] + replace_all(s.subrange(1, s.len() as int), pat, rep)
    }
}

/// `"giteki":[{"gitekiInfo":{`, the opening of the array with the
/// spurious layer and the wrapper of its first element.
pub open spec fn array_open_defect() -> Seq<char> {
    seq![
        '"', 'g', 'i', 't', 'e', 'k', 'i', '"', ':', '[', '{', '"', 'g', 'i', 't', 'e', 'k', 'i', 'I',
        'n', 'f', 'o', '"', ':', '{',
    ]
}

/// `"giteki":[{`
pub open spec fn array_open_fixed() -> Seq<char> {
    seq!['"', 'g', 'i', 't', 'e', 'k', 'i', '"', ':', '[', '{']
}

/// `"gitekiInfo":{`, the redundant key before every element.
pub open spec fn wrapper_defect() -> Seq<char> {
    seq!['"', 'g', 'i', 't', 'e', 'k', 'i', 'I', 'n', 'f', 'o', '"', ':', '{']
}

/// `{`
pub open spec fn wrapper_fixed() -> Seq<char> {
    seq!['{']
}

/// `}},{{`, the separator between two elements.
pub open spec fn separator_defect() -> Seq<char> {
    seq!['}', '}', ',', '{', '{']
}

/// `},{`
pub open spec fn separator_fixed() -> Seq<char> {
    seq!['}', ',', '{']
}

/// `}}]`, the end of the array.
pub open spec fn terminator_defect() -> Seq<char> {
    seq!['}', '}', ']']
}

/// `}]`
pub open spec fn terminator_fixed() -> Seq<char> {
    seq!['}', ']']
}

/// The four substitutions applied in order to `s`.
pub open spec fn repaired(s: Seq<char>) -> Seq<char> {
    let s1 = replace_all(s, array_open_defect(), array_open_fixed());
    let s2 = replace_all(s1, wrapper_defect(), wrapper_fixed());
    let s3 = replace_all(s2, separator_defect(), separator_fixed());
    replace_all(s3, terminator_defect(), terminator_fixed())
}

/// Whether `pat` stands in `s` at position `i`.
fn matches_at(s: &Vec<char>, i: usize, pat: &Vec<char>) -> (r: bool)
    requires
        i <= s@.len(),
    ensures
        r == occurs_at(s@, i as int, pat@),
{
    if s.len() - i < pat.len() {
        return false;
    }
    let n = s.len();
    let mut j: usize = 0;
    while j < pat.len()
        invariant
            n == s@.len(),
            j <= pat@.len(),
            i + pat@.len() <= s@.len(),
            forall|k: int| 0 <= k < j ==> s@[i + k] == pat@[k],
        decreases pat@.len() - j,
    {
        if s[i + j] != pat[j] {
            proof {
                assert(s@.subrange(i as int, i + pat@.len())[j as int] != pat@[j as int]);
            }
            return false;
        }
        j += 1;
    }
    proof {
        assert(s@.subrange(i as int, i + pat@.len()) =~= pat@);
    }
    true
}

/// Appends the whole of `src` to `out`.
fn push_all(out: &mut Vec<char>, src: &Vec<char>)
    ensures
        final(out)@ == old(out)@ + src@,
{
    let mut k: usize = 0;
    while k < src.len()
        invariant
            k <= src@.len(),
            out@ == old(out)@ + src@.subrange(0, k as int),
        decreases src@.len() - k,
    {
        out.push(src[k]);
        k += 1;
        proof {
            assert(out@ =~= old(out)@ + src@.subrange(0, k as int));
        }
    }
    proof {
        assert(src@.subrange(0, src@.len() as int) =~= src@);
    }
}

/// Replaces every occurrence of `pat` in `s` by `rep`, left to right.
pub fn replace_chars(s: &Vec<char>, pat: &Vec<char>, rep: &Vec<char>) -> (r: Vec<char>)
    requires
        pat@.len() > 0,
    ensures
        r@ == replace_all(s@, pat@, rep@),
{
    let mut out: Vec<char> = Vec::new();
    let mut i: usize = 0;
    proof {
        assert(s@.subrange(0, s@.len() as int) =~= s@);
        assert(out@ + s@ =~= s@);
    }
    while i < s.len()
        invariant
            i <= s@.len(),
            pat@.len() > 0,
            out@ + replace_all(s@.subrange(i as int, s@.len() as int), pat@, rep@)
                == replace_all(s@, pat@, rep@),
        decreases s@.len() - i,
    {
        let ghost t = s@.subrange(i as int, s@.len() as int);
        let ghost before = out@;
        if matches_at(s, i, pat) {
            push_all(&mut out, rep);
            proof {
                assert(t.subrange(0, pat@.len() as int) =~= pat@);
                assert(t.subrange(pat@.len() as int, t.len() as int)
                    =~= s@.subrange(i + pat@.len(), s@.len() as int));
                assert(before + (rep@ + replace_all(
                    s@.subrange(i + pat@.len(), s@.len() as int), pat@, rep@))
                    =~= out@ + replace_all(s@.subrange(i + pat@.len(), s@.len() as int), pat@, rep@));
            }
            i = i + pat.len();
        } else {
            out.push(s[i]);
            proof {
                let u = s@.subrange(i + 1, s@.len() as int);
                assert(t.subrange(1, t.len() as int) =~= u);
                if t.len() >= pat@.len() {
                    assert(t.subrange(0, pat@.len() as int)
                        =~= s@.subrange(i as int, i + pat@.len()));
                    assert(t.subrange(0, pat@.len() as int) != pat@);
                } else {
                    assert(replace_all(u, pat@, rep@) == u);
                    assert(t =~= seq![t[0]] + u);
                }
                assert(before + (seq![t[0]] + replace_all(u, pat@, rep@))
                    =~= out@ + replace_all(u, pat@, rep@));
            }
            i = i + 1;
        }
    }
    proof {
        assert(s@.subrange(i as int, s@.len() as int) =~= Seq::<char>::empty());
        assert(out@ + Seq::<char>::empty() =~= out@);
    }
    out
}

/// Applies the four substitutions, in order, to the raw body of the list
/// endpoint.
pub fn repair(text: &str) -> (r: String)
    ensures
        r@ == repaired(text@),
{
    let s0 = chars_of(text);
    let p1: Vec<char> = vec![
        '"', 'g', 'i', 't', 'e', 'k', 'i', '"', ':', '[', '{', '"', 'g', 'i', 't', 'e', 'k', 'i', 'I',
        'n', 'f', 'o', '"', ':', '{',
    ];
    let r1: Vec<char> = vec!['"', 'g', 'i', 't', 'e', 'k', 'i', '"', ':', '[', '{'];
    let p2: Vec<char> = vec!['"', 'g', 'i', 't', 'e', 'k', 'i', 'I', 'n', 'f', 'o', '"', ':', '{'];
    let r2: Vec<char> = vec!['{'];
    let p3: Vec<char> = vec!['}', '}', ',', '{', '{'];
    let r3: Vec<char> = vec!['}', ',', '{'];
    let p4: Vec<char> = vec!['}', '}', ']'];
    let r4: Vec<char> = vec!['}', ']'];
    proof {
        assert(p1@ =~= array_open_defect());
        assert(r1@ =~= array_open_fixed());
        assert(p2@ =~= wrapper_defect());
        assert(r2@ =~= wrapper_fixed());
        assert(p3@ =~= separator_defect());
        assert(r3@ =~= separator_fixed());
        assert(p4@ =~= terminator_defect());
        assert(r4@ =~= terminator_fixed());
    }
    let s1 = replace_chars(&s0, &p1, &r1);
    let s2 = replace_chars(&s1, &p2, &r2);
    let s3 = replace_chars(&s2, &p3, &r3);
    let s4 = replace_chars(&s3, &p4, &r4);
    string_of(&s4)
}

/// Replacing a pattern that does not occur changes nothing.
pub proof fn lemma_replace_absent(s: Seq<char>, pat: Seq<char>, rep: Seq<char>)
    requires
        absent(s, pat),
    ensures
        replace_all(s, pat, rep) == s,
    decreases s.len(),
{
    if pat.len() == 0 || s.len() < pat.len() {
    } else {
        assert(!occurs_at(s, 0, pat));
        let u = s.subrange(1, s.len() as int);
        assert forall|i: int| 0 <= i <= u.len() - pat.len() implies !occurs_at(u, i, pat) by {
            assert(!occurs_at(s, i + 1, pat));
            assert(u.subrange(i, i + pat.len()) =~= s.subrange(i + 1, i + 1 + pat.len()));
        }
        lemma_replace_absent(u, pat, rep);
        assert(seq![s[0]] + u =~= s);
    }
}

/// Text in which none of the four patterns occurs passes through the repair
/// unchanged.
pub proof fn lemma_repair_of_sound_text(s: Seq<char>)
    requires
        absent(s, array_open_defect()),
        absent(s, wrapper_defect()),
        absent(s, separator_defect()),
        absent(s, terminator_defect()),
    ensures
        repaired(s) == s,
{
    lemma_replace_absent(s, array_open_defect(), array_open_fixed());
    lemma_replace_absent(s, wrapper_defect(), wrapper_fixed());
    lemma_replace_absent(s, separator_defect(), separator_fixed());
    lemma_replace_absent(s, terminator_defect(), terminator_fixed());
}

/// Repairing twice gives what repairing once gave, where the repaired text
/// holds none of the four patterns.
pub proof fn lemma_repair_idempotent(raw: Seq<char>)
    requires
        absent(repaired(raw), array_open_defect()),
        absent(repaired(raw), wrapper_defect()),
        absent(repaired(raw), separator_defect()),
        absent(repaired(raw), terminator_defect()),
    ensures
        repaired(repaired(raw)) == repaired(raw),
{
    lemma_repair_of_sound_text(repaired(raw));
}

} // verus!
