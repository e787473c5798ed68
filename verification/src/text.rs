//! Character-level text operations: equality, search, whitespace
//! canonicalization and textual pattern replacement. The substitution engine
//! rests on `replace_all`, whose behaviour is pinned by `replace_all_spec`.

use vstd::prelude::*;
use vstd::string::StrSliceExecFns;
use vstd::string::StringExecFns;

verus! {

/// Characters the canonicalizer removes from type-expression text.
pub open spec fn is_blank(c: char) -> bool {
    c == ' ' || c == '\t' || c == '\n' || c == '\r'
}

/// The whitespace-stripped form of a text.
pub open spec fn strip_spec(s: Seq<char>) -> Seq<char>
    decreases s.len(),
{
    if s.len() == 0 {
        Seq::empty()
    } else if is_blank(s[0]) {
        strip_spec(s.skip(1))
    } else {
        seq![s[0]] + strip_spec(s.skip(1))
    }
}

/// The text with every occurrence of `pat` replaced by `rep`, scanning left
/// to right; an empty pattern replaces nothing.
pub open spec fn replace_all_spec(t: Seq<char>, pat: Seq<char>, rep: Seq<char>) -> Seq<char>
    decreases t.len(),
{
    if pat.len() == 0 || t.len() < pat.len() {
        t
    } else if t.subrange(0, pat.len() as int) == pat {
        rep + replace_all_spec(t.skip(pat.len() as int), pat, rep)
    } else {
        seq![t[0]] + replace_all_spec(t.skip(1), pat, rep)
    }
}

proof fn lemma_strip_step(s: Seq<char>, i: int)
    requires
        0 <= i < s.len(),
    ensures
        is_blank(s[i]) ==> strip_spec(s.skip(i)) == strip_spec(s.skip(i + 1)),
        !is_blank(s[i]) ==> strip_spec(s.skip(i)) == seq![s[i]] + strip_spec(s.skip(i + 1)),
{
    assert(s.skip(i).len() == s.len() - i);
    assert(s.skip(i)[0] == s[i]);
    assert(s.skip(i).skip(1) =~= s.skip(i + 1));
}

proof fn lemma_replace_step(t: Seq<char>, pat: Seq<char>, rep: Seq<char>, i: int)
    requires
        0 <= i < t.len(),
        pat.len() > 0,
    ensures
        (i + pat.len() <= t.len() && t.subrange(i, i + pat.len() as int) == pat) ==> replace_all_spec(
            t.skip(i),
            pat,
            rep,
        ) == rep + replace_all_spec(t.skip(i + pat.len() as int), pat, rep),
        !(i + pat.len() <= t.len() && t.subrange(i, i + pat.len() as int) == pat)
            ==> replace_all_spec(t.skip(i), pat, rep) == seq![t[i]] + replace_all_spec(
            t.skip(i + 1),
            pat,
            rep,
        ),
{
    let u = t.skip(i);
    assert(u.len() == t.len() - i);
    assert(u[0] == t[i]);
    if i + pat.len() <= t.len() {
        assert(u.subrange(0, pat.len() as int) =~= t.subrange(i, i + pat.len() as int));
        if t.subrange(i, i + pat.len() as int) == pat {
            assert(u.skip(pat.len() as int) =~= t.skip(i + pat.len() as int));
        } else {
            assert(u.skip(1) =~= t.skip(i + 1));
        }
    } else {
        assert(u.len() < pat.len());
        assert(replace_all_spec(u, pat, rep) == u);
        assert(t.skip(i + 1).len() < pat.len());
        assert(replace_all_spec(t.skip(i + 1), pat, rep) == t.skip(i + 1));
        assert(u =~= seq![t[i]] + t.skip(i + 1));
    }
}

/// True exactly when the two texts hold the same characters.
pub fn str_eq(a: &str, b: &str) -> (r: bool)
    ensures
        r == (a@ == b@),
{
    let an: usize = a.unicode_len();
    let bn: usize = b.unicode_len();
    if an != bn {
        return false;
    }
    let mut i: usize = 0;
    while i < an
        invariant
            an == a@.len(),
            an == b@.len(),
            0 <= i <= an,
            forall|k: int| 0 <= k < i ==> a@[k] == b@[k],
        decreases an - i,
    {
        if a.get_char(i) != b.get_char(i) {
            return false;
        }
        i = i + 1;
    }
    proof {
        assert(a@ =~= b@);
    }
    true
}

/// True exactly when the text holds the character.
pub fn contains_char(s: &str, c: char) -> (r: bool)
    ensures
        r == s@.contains(c),
{
    let n: usize = s.unicode_len();
    let mut i: usize = 0;
    while i < n
        invariant
            n == s@.len(),
            0 <= i <= n,
            forall|k: int| 0 <= k < i ==> s@[k] != c,
        decreases n - i,
    {
        if s.get_char(i) == c {
            assert(s@[i as int] == c);
            return true;
        }
        i = i + 1;
    }
    assert(forall|k: int| 0 <= k < s@.len() ==> s@[k] != c);
    false
}

/// True exactly when `pat` occurs in `t` starting at position `i`.
pub fn matches_at(t: &str, i: usize, pat: &str) -> (r: bool)
    requires
        i <= t@.len(),
    ensures
        r == (i + pat@.len() <= t@.len() && t@.subrange(i as int, i + pat@.len() as int) == pat@),
{
    let tn: usize = t.unicode_len();
    let pn: usize = pat.unicode_len();
    if pn > tn - i {
        return false;
    }
    let mut j: usize = 0;
    while j < pn
        invariant
            tn == t@.len(),
            pn == pat@.len(),
            i + pn <= tn,
            0 <= j <= pn,
            forall|k: int| 0 <= k < j ==> t@[i + k] == pat@[k],
        decreases pn - j,
    {
        if t.get_char(i + j) != pat.get_char(j) {
            proof {
                assert(t@.subrange(i as int, i + pn as int)[j as int] == t@[i + j]);
            }
            return false;
        }
        j = j + 1;
    }
    proof {
        assert(t@.subrange(i as int, i + pn as int) =~= pat@);
    }
    true
}

/// Removes every whitespace character, keeping the rest in order.
pub fn strip_blanks(s: &str) -> (r: String)
    ensures
        r@ == strip_spec(s@),
{
    let n: usize = s.unicode_len();
    let mut out: String = String::new();
    let mut i: usize = 0;
    proof {
        assert(s@.skip(0) =~= s@);
    }
    while i < n
        invariant
            n == s@.len(),
            0 <= i <= n,
            out@ + strip_spec(s@.skip(i as int)) == strip_spec(s@),
        decreases n - i,
    {
        let c: char = s.get_char(i);
        proof {
            lemma_strip_step(s@, i as int);
        }
        if !(c == ' ' || c == '\t' || c == '\n' || c == '\r') {
            let ghost prev = out@;
            out.append(s.substring_char(i, i + 1));
            proof {
                assert(s@.subrange(i as int, i + 1) =~= seq![s@[i as int]]);
                assert(out@ + strip_spec(s@.skip(i + 1)) =~= prev + strip_spec(s@.skip(i as int)));
            }
        }
        i = i + 1;
    }
    proof {
        assert(s@.skip(n as int) =~= Seq::<char>::empty());
        assert(strip_spec(Seq::<char>::empty()) == Seq::<char>::empty());
        assert(out@ + Seq::<char>::empty() =~= out@);
    }
    out
}

/// A copy of a list of texts, equal element by element.
pub fn clone_strings(v: &Vec<String>) -> (r: Vec<String>)
    ensures
        r@ == v@,
{
    let mut r: Vec<String> = Vec::new();
    let mut i: usize = 0;
    while i < v.len()
        invariant
            0 <= i <= v@.len(),
            r@ == v@.subrange(0, i as int),
        decreases v@.len() - i,
    {
        r.push(v[i].clone());
        proof {
            assert(r@ =~= v@.subrange(0, i + 1));
        }
        i = i + 1;
    }
    proof {
        assert(v@.subrange(0, v@.len() as int) =~= v@);
    }
    r
}

/// Replaces every occurrence of `pat` in `t` by `rep`, scanning left to
/// right; an empty pattern leaves the text unchanged.
pub fn replace_all(t: &str, pat: &str, rep: &str) -> (r: String)
    ensures
        r@ == replace_all_spec(t@, pat@, rep@),
{
    let tn: usize = t.unicode_len();
    let pn: usize = pat.unicode_len();
    if pn == 0 {
        return String::from_str(t);
    }
    let mut out: String = String::new();
    let mut i: usize = 0;
    proof {
        assert(t@.skip(0) =~= t@);
    }
    while i < tn
        invariant
            tn == t@.len(),
            pn == pat@.len(),
            pn > 0,
            0 <= i <= tn,
            out@ + replace_all_spec(t@.skip(i as int), pat@, rep@) == replace_all_spec(
                t@,
                pat@,
                rep@,
            ),
        decreases tn - i,
    {
        proof {
            lemma_replace_step(t@, pat@, rep@, i as int);
        }
        let ghost prev = out@;
        if matches_at(t, i, pat) {
            out.append(rep);
            proof {
                assert(out@ + replace_all_spec(t@.skip(i + pn), pat@, rep@) =~= prev
                    + replace_all_spec(t@.skip(i as int), pat@, rep@));
            }
            i = i + pn;
        } else {
            out.append(t.substring_char(i, i + 1));
            proof {
                assert(t@.subrange(i as int, i + 1) =~= seq![t@[i as int]]);
                assert(out@ + replace_all_spec(t@.skip(i + 1), pat@, rep@) =~= prev
                    + replace_all_spec(t@.skip(i as int), pat@, rep@));
            }
            i = i + 1;
        }
    }
    proof {
        assert(t@.skip(tn as int) =~= Seq::<char>::empty());
        assert(out@ + Seq::<char>::empty() =~= out@);
    }
    out
}

} // verus!
