//! A plain-string model of file paths: the file name is everything after
//! the last `/`, a hidden file is one whose name starts with `.`, and the
//! extension is everything after the last `.` of the file name, where a
//! leading `.` does not count as a separator.

use vstd::prelude::*;

verus! {

use vstd::string::*;
use crate::text::lemma_take_succ;

/// The index where the file name begins: just after the last `/`, or `0`
/// when the path has none.
pub open spec fn file_name_start(p: Seq<char>) -> int
    decreases p.len(),
{
    if p.len() == 0 {
        0
    } else if p.last() == '/' {
        p.len() as int
    } else {
        file_name_start(p.drop_last())
    }
}

pub proof fn lemma_file_name_start_bounds(p: Seq<char>)
    ensures
        0 <= file_name_start(p) <= p.len(),
    decreases p.len(),
{
    if p.len() > 0 && p.last() != '/' {
        lemma_file_name_start_bounds(p.drop_last());
    }
}

/// The file name: everything after the last `/`.
pub open spec fn file_name(p: Seq<char>) -> Seq<char> {
    p.skip(file_name_start(p))
}

/// A hidden file: the file name starts with `.`.
pub open spec fn is_hidden(p: Seq<char>) -> bool {
    file_name(p).len() > 0 && file_name(p)[0] == '.'
}

/// The index of the extension separator inside a file name: the last `.`,
/// except that a `.` in the first position does not separate an extension.
pub open spec fn ext_split(n: Seq<char>) -> Option<int>
    decreases n.len(),
{
    if n.len() <= 1 {
        None
    } else if n.last() == '.' {
        Some(n.len() - 1)
    } else {
        ext_split(n.drop_last())
    }
}

/// The extension of the path's file name, when it has one.
pub open spec fn extension_of(p: Seq<char>) -> Option<Seq<char>> {
    match ext_split(file_name(p)) {
        None => None,
        Some(i) => Some(file_name(p).skip(i + 1)),
    }
}

/// The path with its extension replaced by (or extended with) `.o`.
pub open spec fn with_object_ext(p: Seq<char>) -> Seq<char> {
    match ext_split(file_name(p)) {
        None => p + ".o"@,
        Some(i) => p.take(file_name_start(p) + i) + ".o"@,
    }
}

proof fn lemma_name_start_at(p: Seq<char>, k: int)
    requires
        0 <= k < p.len(),
        p[k] == '/',
        forall|j: int| k < j < p.len() ==> p[j] != '/',
    ensures
        file_name_start(p) == k + 1,
    decreases p.len(),
{
    if k == p.len() - 1 {
    } else {
        lemma_name_start_at(p.drop_last(), k);
    }
}

proof fn lemma_name_start_none(p: Seq<char>)
    requires
        forall|j: int| 0 <= j < p.len() ==> p[j] != '/',
    ensures
        file_name_start(p) == 0,
    decreases p.len(),
{
    if p.len() > 0 {
        lemma_name_start_none(p.drop_last());
    }
}

proof fn lemma_ext_split_at(n: Seq<char>, i: int)
    requires
        1 <= i < n.len(),
        n[i] == '.',
        forall|j: int| i < j < n.len() ==> n[j] != '.',
    ensures
        ext_split(n) == Some(i),
    decreases n.len(),
{
    if i == n.len() - 1 {
    } else {
        lemma_ext_split_at(n.drop_last(), i);
    }
}

proof fn lemma_ext_split_none(n: Seq<char>)
    requires
        forall|j: int| 1 <= j < n.len() ==> n[j] != '.',
    ensures
        ext_split(n) is None,
    decreases n.len(),
{
    if n.len() > 1 {
        lemma_ext_split_none(n.drop_last());
    }
}

/// The index where the file name of `p` begins.
pub fn find_name_start(p: &str) -> (k: usize)
    ensures
        k == file_name_start(p@),
{
    let n = p.unicode_len();
    let mut i: usize = n;
    while i > 0
        invariant
            i <= n,
            n == p@.len(),
            forall|j: int| i <= j < n ==> p@[j] != '/',
        decreases i,
    {
        if p.get_char(i - 1) == '/' {
            proof {
                lemma_name_start_at(p@, i - 1);
            }
            return i;
        }
        i -= 1;
    }
    proof {
        lemma_name_start_none(p@);
    }
    0
}

/// The absolute index of the extension separator of `p`, when its file
/// name has one.
fn find_ext_sep(p: &str) -> (r: Option<usize>)
    ensures
        match r {
            Some(d) => {
                &&& file_name_start(p@) + 1 <= d < p@.len()
                &&& ext_split(file_name(p@)) == Some(d - file_name_start(p@))
            },
            None => ext_split(file_name(p@)) is None,
        },
{
    let k0 = find_name_start(p);
    let n = p.unicode_len();
    proof {
        lemma_file_name_start_bounds(p@);
    }
    let ghost name = file_name(p@);
    let mut i: usize = n;
    while i > 1 && i - 1 > k0
        invariant
            k0 == file_name_start(p@),
            k0 <= n,
            i <= n,
            n == p@.len(),
            name == file_name(p@),
            forall|j: int| i <= j < n ==> p@[j] != '.',
        decreases i,
    {
        if p.get_char(i - 1) == '.' {
            proof {
                assert(name.len() == n - k0);
                assert(forall|j: int| 0 <= j < name.len() ==> name[j] == p@[k0 + j]);
                assert(name[i - 1 - k0] == '.');
                lemma_ext_split_at(name, i - 1 - k0);
            }
            return Some(i - 1);
        }
        i -= 1;
    }
    proof {
        assert(forall|j: int| 1 <= j < name.len() ==> name[j] == p@[k0 + j]);
        lemma_ext_split_none(name);
    }
    None
}

/// The extension of the path's file name, when it has one.
pub fn path_extension(p: &str) -> (r: Option<String>)
    ensures
        match r {
            Some(e) => extension_of(p@) == Some(e@),
            None => extension_of(p@) is None,
        },
{
    let n = p.unicode_len();
    match find_ext_sep(p) {
        None => None,
        Some(d) => {
            let e = p.substring_char(d + 1, n).to_owned();
            proof {
                let k0 = file_name_start(p@);
                lemma_file_name_start_bounds(p@);
                let i = d - k0;
                let name = file_name(p@);
                assert(name.len() == p@.len() - k0);
                assert(forall|t: int| 0 <= t < name.len() ==> name[t] == p@[k0 + t]);
                assert(forall|t: int|
                    0 <= t < name.skip(i + 1).len() ==> #[trigger] name.skip(i + 1)[t] == name[i
                        + 1 + t]);
                assert(name.skip(i + 1) =~= p@.subrange(d + 1, n as int));
            }
            Some(e)
        },
    }
}

/// Whether the path names a hidden file.
pub fn path_is_hidden(p: &str) -> (r: bool)
    ensures
        r == is_hidden(p@),
{
    let k = find_name_start(p);
    let n = p.unicode_len();
    proof {
        lemma_file_name_start_bounds(p@);
        assert(file_name(p@).len() == n - k);
        if k < n {
            assert(file_name(p@)[0] == p@[k as int]);
        }
    }
    if k < n {
        p.get_char(k) == '.'
    } else {
        false
    }
}

/// The path with its extension replaced by (or extended with) `.o`.
pub fn path_with_object_ext(p: &str) -> (r: String)
    ensures
        r@ == with_object_ext(p@),
{
    match find_ext_sep(p) {
        None => {
            let r = p.to_owned().concat(".o");
            r
        },
        Some(d) => {
            proof {
                assert(p@.subrange(0, d as int) =~= p@.take(d as int));
            }
            let r = p.substring_char(0, d).to_owned().concat(".o");
            r
        },
    }
}

} // verus!
