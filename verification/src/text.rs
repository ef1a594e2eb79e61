//! Verified utilities on strings and character sequences: equality,
//! lexicographic order, substring search, whitespace splitting, and small
//! helpers shared by the registry, the classifier and the dispatcher.

use vstd::prelude::*;

verus! {

use vstd::string::*;

/// The views of a sequence of strings.
pub open spec fn views_of(v: Seq<String>) -> Seq<Seq<char>> {
    v.map_values(|s: String| s@)
}

/// Extending a prefix by one element: dropping the last element of
/// `s.take(i + 1)` gives `s.take(i)`, and its last element is `s[i]`.
pub proof fn lemma_take_succ<T>(s: Seq<T>, i: int)
    requires
        0 <= i < s.len(),
    ensures
        s.take(i + 1).drop_last() == s.take(i),
        s.take(i + 1).last() == s[i],
{
    assert(s.take(i + 1).drop_last() =~= s.take(i));
}

/// Strict lexicographic order on character sequences, by code point; a
/// proper prefix sorts before its extensions.
pub open spec fn lex_lt(a: Seq<char>, b: Seq<char>) -> bool
    decreases a.len(),
{
    if b.len() == 0 {
        false
    } else if a.len() == 0 {
        true
    } else if (a[0] as u32) < (b[0] as u32) {
        true
    } else if (b[0] as u32) < (a[0] as u32) {
        false
    } else {
        lex_lt(a.drop_first(), b.drop_first())
    }
}

/// Lexicographic order is transitive.
pub proof fn lemma_lex_trans(a: Seq<char>, b: Seq<char>, c: Seq<char>)
    requires
        lex_lt(a, b),
        lex_lt(b, c),
    ensures
        lex_lt(a, c),
    decreases a.len() + b.len() + c.len(),
{
    if c.len() == 0 || b.len() == 0 || a.len() == 0 {
    } else {
        let a0 = a[0] as u32;
        let b0 = b[0] as u32;
        let c0 = c[0] as u32;
        if a0 == b0 && b0 == c0 {
            lemma_lex_trans(a.drop_first(), b.drop_first(), c.drop_first());
        }
    }
}

/// Two sequences are lexicographically comparable: one is smaller, or they
/// are equal.
pub proof fn lemma_lex_connex(a: Seq<char>, b: Seq<char>)
    ensures
        lex_lt(a, b) || lex_lt(b, a) || a == b,
    decreases a.len(),
{
    if a.len() == 0 && b.len() == 0 {
        assert(a =~= b);
    } else if a.len() > 0 && b.len() > 0 {
        if a[0] as u32 == b[0] as u32 {
            lemma_lex_connex(a.drop_first(), b.drop_first());
            if a.drop_first() == b.drop_first() {
                vstd::utf8::char_u32_cast(a[0], a[0] as u32);
                vstd::utf8::char_u32_cast(b[0], b[0] as u32);
                assert(a[0] == b[0]);
                assert(a.drop_first().len() == a.len() - 1);
                assert(b.drop_first().len() == b.len() - 1);
                assert(a.len() == b.len());
                assert forall|i: int| 0 <= i < a.len() implies a[i] == b[i] by {
                    if i > 0 {
                        assert(a[i] == a.drop_first()[i - 1]);
                        assert(b[i] == b.drop_first()[i - 1]);
                    }
                }
                assert(a =~= b);
            }
        }
    }
}

/// Character-for-character equality of two strings.
pub fn str_eq(a: &str, b: &str) -> (r: bool)
    ensures
        r == (a@ == b@),
{
    let n = a.unicode_len();
    if n != b.unicode_len() {
        return false;
    }
    let mut i: usize = 0;
    while i < n
        invariant
            n == a@.len(),
            n == b@.len(),
            i <= n,
            forall|j: int| 0 <= j < i ==> a@[j] == b@[j],
        decreases n - i,
    {
        if a.get_char(i) != b.get_char(i) {
            return false;
        }
        i += 1;
    }
    proof {
        assert(a@ =~= b@);
    }
    true
}

/// Lexicographic comparison of two strings.
pub fn str_lt(a: &str, b: &str) -> (r: bool)
    ensures
        r == lex_lt(a@, b@),
{
    let an = a.unicode_len();
    let bn = b.unicode_len();
    proof {
        assert(a@.skip(0) =~= a@);
        assert(b@.skip(0) =~= b@);
    }
    let mut i: usize = 0;
    loop
        invariant
            i <= an,
            i <= bn,
            an == a@.len(),
            bn == b@.len(),
            lex_lt(a@, b@) == lex_lt(a@.skip(i as int), b@.skip(i as int)),
        decreases an - i,
    {
        if i >= bn {
            return false;
        }
        if i >= an {
            return true;
        }
        let ca = a.get_char(i);
        let cb = b.get_char(i);
        proof {
            assert(a@.skip(i as int)[0] == a@[i as int]);
            assert(b@.skip(i as int)[0] == b@[i as int]);
        }
        if (ca as u32) < (cb as u32) {
            return true;
        }
        if (cb as u32) < (ca as u32) {
            return false;
        }
        proof {
            assert(a@.skip(i as int).drop_first() =~= a@.skip(i + 1));
            assert(b@.skip(i as int).drop_first() =~= b@.skip(i + 1));
        }
        i += 1;
    }
}

/// `pat` occurs in `text` starting at index `i`.
pub open spec fn has_sub_at(text: Seq<char>, pat: Seq<char>, i: int) -> bool {
    0 <= i && i + pat.len() <= text.len() && text.subrange(i, i + pat.len()) == pat
}

/// `pat` occurs somewhere inside `text`.
pub open spec fn contains_sub(text: Seq<char>, pat: Seq<char>) -> bool {
    exists|i: int| has_sub_at(text, pat, i)
}

fn match_at(text: &str, pat: &str, i: usize) -> (r: bool)
    requires
        i + pat@.len() <= text@.len(),
    ensures
        r == has_sub_at(text@, pat@, i as int),
{
    let n = text.unicode_len();
    let m = pat.unicode_len();
    let mut j: usize = 0;
    while j < m
        invariant
            j <= m,
            m == pat@.len(),
            n == text@.len(),
            i + m <= n,
            forall|t: int| 0 <= t < j ==> text@[i + t] == pat@[t],
        decreases m - j,
    {
        if text.get_char(i + j) != pat.get_char(j) {
            proof {
                assert(text@.subrange(i as int, i + m as int)[j as int] == text@[i + j]);
            }
            return false;
        }
        j += 1;
    }
    proof {
        assert(text@.subrange(i as int, i + m as int) =~= pat@);
    }
    true
}

/// Substring search: whether `pat` occurs anywhere in `text`.
pub fn str_contains(text: &str, pat: &str) -> (r: bool)
    ensures
        r == contains_sub(text@, pat@),
{
    let n = text.unicode_len();
    let m = pat.unicode_len();
    if m > n {
        return false;
    }
    if m == 0 {
        proof {
            assert(text@.subrange(0, 0) =~= pat@);
            assert(has_sub_at(text@, pat@, 0));
        }
        return true;
    }
    let mut i: usize = 0;
    while i <= n - m
        invariant
            1 <= m <= n,
            i <= n - m + 1,
            n == text@.len(),
            m == pat@.len(),
            forall|k: int| 0 <= k < i ==> !has_sub_at(text@, pat@, k),
        decreases n - m - i + 1,
    {
        if match_at(text, pat, i) {
            return true;
        }
        i += 1;
    }
    false
}

/// The lowercase form of a character sequence, as Unicode case mapping
/// defines it; it depends on the characters alone.
pub uninterp spec fn lower_of(s: Seq<char>) -> Seq<char>;

/// Relies on str::to_lowercase: the Unicode lowercase form of the string.
#[verifier::external_body]
pub(crate) fn to_lowercase(s: &str) -> (r: String)
    ensures
        r@ == lower_of(s@),
{
    s.to_lowercase()
}

/// Relies on String::push: appends exactly one character to the string.
#[verifier::external_body]
pub(crate) fn push_char(s: &mut String, c: char)
    ensures
        final(s)@ == old(s)@ + seq![c],
{
    s.push(c);
}

/// Whether a character counts as whitespace when flag strings are split;
/// the Unicode White_Space property, which depends on the character alone.
pub uninterp spec fn is_space(c: char) -> bool;

/// Relies on char::is_whitespace: whether the character has the Unicode
/// White_Space property.
#[verifier::external_body]
pub(crate) fn char_is_space(c: char) -> (r: bool)
    ensures
        r == is_space(c),
{
    c.is_whitespace()
}

/// The maximal runs of non-whitespace characters in `s`, in order.
pub open spec fn split_ws(s: Seq<char>) -> Seq<Seq<char>>
    decreases s.len(),
{
    if s.len() == 0 {
        Seq::empty()
    } else {
        let r = split_ws(s.drop_last());
        let c = s.last();
        if is_space(c) {
            r
        } else if s.len() >= 2 && !is_space(s[s.len() - 2]) && r.len() > 0 {
            r.update(r.len() - 1, r.last().push(c))
        } else {
            r.push(seq![c])
        }
    }
}

/// Splits a string at whitespace, returning the non-empty tokens in order.
pub fn split_whitespace_owned(s: &str) -> (toks: Vec<String>)
    ensures
        views_of(toks@) == split_ws(s@),
{
    let n = s.unicode_len();
    let mut toks: Vec<String> = Vec::new();
    proof {
        assert(s@.take(0) =~= Seq::<char>::empty());
        assert(views_of(toks@) =~= split_ws(s@.take(0)));
    }
    let mut i: usize = 0;
    while i < n
        invariant
            i <= n,
            n == s@.len(),
            views_of(toks@) == split_ws(s@.take(i as int)),
        decreases n - i,
    {
        let ghost pre = s@.take(i as int);
        let ghost cur = s@.take(i + 1);
        proof {
            lemma_take_succ(s@, i as int);
            assert(cur.drop_last() == pre);
            assert(cur.last() == s@[i as int]);
        }
        let c = s.get_char(i);
        if char_is_space(c) {
            // the spec drops whitespace characters
        } else {
            let extend = i > 0 && !char_is_space(s.get_char(i - 1)) && toks.len() > 0;
            if extend {
                let ghost old_toks = toks@;
                let mut t = toks.pop().unwrap();
                push_char(&mut t, c);
                toks.push(t);
                proof {
                    let r = split_ws(pre);
                    assert(cur[cur.len() - 2] == s@[i - 1]);
                    assert(split_ws(cur) == r.update(r.len() - 1, r.last().push(c)));
                    assert(r.last() == old_toks.last()@);
                    assert(t@ == r.last().push(c)) by {
                        assert(r.last() + seq![c] =~= r.last().push(c));
                    }
                    assert(views_of(toks@) =~= split_ws(cur));
                }
            } else {
                let mut t = String::new();
                push_char(&mut t, c);
                toks.push(t);
                proof {
                    let r = split_ws(pre);
                    assert(t@ =~= seq![c]);
                    assert(split_ws(cur) == r.push(seq![c]));
                    assert(views_of(toks@) =~= split_ws(cur));
                }
            }
        }
        i += 1;
    }
    proof {
        assert(s@.take(n as int) =~= s@);
    }
    toks
}

/// The given strings joined with a single newline between consecutive ones.
pub open spec fn join_lines(items: Seq<String>) -> Seq<char>
    decreases items.len(),
{
    if items.len() == 0 {
        Seq::empty()
    } else if items.len() == 1 {
        items[0]@
    } else {
        join_lines(items.drop_last()) + "\n"@ + items.last()@
    }
}

/// Joins strings with a newline between consecutive ones.
pub fn join_with_newlines(items: &Vec<String>) -> (r: String)
    ensures
        r@ == join_lines(items@),
{
    let mut r = String::new();
    let mut i: usize = 0;
    while i < items.len()
        invariant
            i <= items@.len(),
            r@ == join_lines(items@.take(i as int)),
        decreases items@.len() - i,
    {
        proof {
            lemma_take_succ(items@, i as int);
        }
        if i > 0 {
            r.append("\n");
        }
        r.append(items[i].as_str());
        proof {
            if i == 0 {
                assert(Seq::<char>::empty() + items@[0]@ =~= items@[0]@);
                assert(items@.take(1).len() == 1);
            }
        }
        i += 1;
    }
    proof {
        assert(items@.take(items@.len() as int) =~= items@);
    }
    r
}

/// The strings are in strictly increasing lexicographic order, so each
/// value occurs at most once.
pub open spec fn strictly_sorted(v: Seq<String>) -> bool {
    forall|i: int, j: int| 0 <= i < j < v.len() ==> lex_lt(v[i]@, v[j]@)
}

/// Some string in `v` reads `x`.
pub open spec fn contains_str(v: Seq<String>, x: Seq<char>) -> bool {
    exists|i: int| 0 <= i < v.len() && v[i]@ == x
}

/// Inserts `s` into a strictly sorted vector, keeping it sorted and
/// without duplicates: afterwards the vector holds exactly the old strings
/// plus `s`.
pub fn insert_sorted(v: &mut Vec<String>, s: String)
    requires
        strictly_sorted(old(v)@),
    ensures
        strictly_sorted(final(v)@),
        forall|x: Seq<char>|
            #[trigger] contains_str(final(v)@, x) == (contains_str(old(v)@, x) || x == s@),
{
    let mut i: usize = 0;
    while i < v.len() && str_lt(v[i].as_str(), s.as_str())
        invariant
            i <= v@.len(),
            v@ == old(v)@,
            strictly_sorted(v@),
            forall|j: int| 0 <= j < i ==> lex_lt(v@[j]@, s@),
        decreases v@.len() - i,
    {
        i += 1;
    }
    if i < v.len() && str_eq(v[i].as_str(), s.as_str()) {
        proof {
            assert(contains_str(v@, s@));
            assert(forall|x: Seq<char>|
                contains_str(v@, x) == (contains_str(old(v)@, x) || x == s@));
        }
        return ;
    }
    proof {
        if i < v@.len() {
            lemma_lex_connex(v@[i as int]@, s@);
        }
    }
    let ghost before = v@;
    v.insert(i, s);
    proof {
        let w = v@;
        assert forall|p: int, q: int| 0 <= p < q < w.len() implies lex_lt(w[p]@, w[q]@) by {
            if p < i && q == i {
            } else if p == i && q > i {
                // s < before[q - 1]: either i == before.len() (impossible, q < len)
                // or !lex_lt(before[i], s) and s != before[i]
                if i < before.len() {
                    if q - 1 > i {
                        lemma_lex_trans(s@, before[i as int]@, before[q - 1]@);
                    }
                }
            } else if p < i && q > i {
            } else if p > i || q < i {
            }
        }
        assert forall|x: Seq<char>|
            #[trigger] contains_str(w, x) == (contains_str(before, x) || x == s@) by {
            if contains_str(w, x) {
                let k = choose|k: int| 0 <= k < w.len() && w[k]@ == x;
                if k < i {
                    assert(before[k]@ == x);
                } else if k == i {
                } else {
                    assert(before[k - 1]@ == x);
                }
            }
            if contains_str(before, x) {
                let k = choose|k: int| 0 <= k < before.len() && before[k]@ == x;
                if k < i {
                    assert(w[k]@ == x);
                } else {
                    assert(w[k + 1]@ == x);
                }
            }
            if x == s@ {
                assert(w[i as int]@ == x);
            }
        }
    }
}

/// Whether `c` occurs in `text`.
pub fn str_contains_char(text: &str, c: char) -> (r: bool)
    ensures
        r == text@.contains(c),
{
    let n = text.unicode_len();
    let mut i: usize = 0;
    while i < n
        invariant
            i <= n,
            n == text@.len(),
            forall|j: int| 0 <= j < i ==> text@[j] != c,
        decreases n - i,
    {
        if text.get_char(i) == c {
            return true;
        }
        i += 1;
    }
    false
}

} // verus!
