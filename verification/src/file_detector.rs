//! The file classifier: given the discovered file paths of a project, group
//! them by language. Hidden files are skipped, the extension decides the
//! language, and the run's options decide which languages take part. Each
//! group's file list is strictly sorted and free of duplicates.

use vstd::prelude::*;

verus! {

use vstd::string::*;
use crate::args::Args;
use crate::language_support::{Language, LanguageSupport, language_for_extension};
use crate::paths::{is_hidden, extension_of, path_is_hidden, path_extension};
use crate::text::{
    lower_of,
    to_lowercase,
    contains_str,
    strictly_sorted,
    insert_sorted,
    lemma_take_succ,
};

/// Whether the run's options select this language: everything when `all`
/// is set or no specific language is requested, otherwise exactly the
/// requested ones.
pub open spec fn spec_should_compile(l: Language, a: Args) -> bool {
    if a.all {
        true
    } else if !(a.c || a.cpp || a.python || a.java || a.rust || a.go || a.js || a.ts) {
        true
    } else {
        match l {
            Language::C => a.c,
            Language::Cpp => a.cpp,
            Language::Python => a.python,
            Language::Java => a.java,
            Language::Rust => a.rust,
            Language::Go => a.go,
            Language::JavaScript => a.js,
            Language::TypeScript => a.ts,
            _ => false,
        }
    }
}

/// The language a path is grouped under, if any: hidden files are skipped,
/// the extension is lowercased and looked up in the registry, and the
/// options must select the language.
pub open spec fn selected_language(path: Seq<char>, a: Args) -> Option<Language> {
    if is_hidden(path) {
        None
    } else {
        match extension_of(path) {
            None => None,
            Some(e) => match language_for_extension(lower_of(e)) {
                None => None,
                Some(l) => if spec_should_compile(l, a) {
                    Some(l)
                } else {
                    None
                },
            },
        }
    }
}

/// Some group carries language `l` and lists the file `x`.
pub open spec fn in_group(groups: Seq<(Language, Vec<String>)>, l: Language, x: Seq<char>) -> bool {
    exists|i: int| 0 <= i < groups.len() && groups[i].0 == l && contains_str(groups[i].1@, x)
}

/// What classification promises: the groups carry distinct languages; each
/// group is non-empty and strictly sorted (hence free of duplicates); every
/// listed file comes from the input and is selected for exactly that
/// group's language; and every selected input file is listed.
pub open spec fn classified(
    paths: Seq<String>,
    a: Args,
    groups: Seq<(Language, Vec<String>)>,
) -> bool {
    &&& forall|i: int, j: int|
        0 <= i < j < groups.len() ==> (#[trigger] groups[i]).0 != (#[trigger] groups[j]).0
    &&& forall|i: int| 0 <= i < groups.len() ==> (#[trigger] groups[i]).1@.len() > 0
    &&& forall|i: int| 0 <= i < groups.len() ==> strictly_sorted((#[trigger] groups[i]).1@)
    &&& forall|i: int, k: int|
        0 <= i < groups.len() && 0 <= k < groups[i].1@.len() ==> selected_language(
            #[trigger] groups[i].1@[k]@,
            a,
        ) == Some(groups[i].0)
    &&& forall|i: int, k: int|
        0 <= i < groups.len() && 0 <= k < groups[i].1@.len() ==> exists|m: int|
            0 <= m < paths.len() && paths[m]@ == #[trigger] groups[i].1@[k]@
    &&& forall|m: int|
        0 <= m < paths.len() ==> {
            match selected_language(#[trigger] paths[m]@, a) {
                Some(l) => in_group(groups, l, paths[m]@),
                None => true,
            }
        }
}

/// The file classifier; it owns the extension table.
pub struct FileDetector {
    /// The registry table used for extension lookups.
    pub language_support: LanguageSupport,
}

impl FileDetector {
    /// The classifier's table holds exactly the registry.
    pub open spec fn wf(self) -> bool {
        self.language_support.wf()
    }

    /// Builds a classifier over the full registry.
    pub fn new() -> (r: Self)
        ensures
            r.wf(),
    {
        FileDetector { language_support: LanguageSupport::new() }
    }

    /// Whether the path names a hidden file (its file name starts with `.`).
    pub fn is_hidden_file(&self, path: &str) -> (r: bool)
        ensures
            r == is_hidden(path@),
    {
        path_is_hidden(path)
    }

    /// Whether the run's options select this language.
    pub fn should_compile_language(&self, language: &Language, args: &Args) -> (r: bool)
        ensures
            r == spec_should_compile(*language, *args),
    {
        if args.all {
            return true;
        }
        let has_specific_flags = args.c || args.cpp || args.python || args.java || args.rust
            || args.go || args.js || args.ts;
        if !has_specific_flags {
            return true;
        }
        match language {
            Language::C => args.c,
            Language::Cpp => args.cpp,
            Language::Python => args.python,
            Language::Java => args.java,
            Language::Rust => args.rust,
            Language::Go => args.go,
            Language::JavaScript => args.js,
            Language::TypeScript => args.ts,
            _ => false,
        }
    }

    /// The language a path is grouped under, if any.
    pub fn select_language(&self, path: &str, args: &Args) -> (r: Option<Language>)
        ensures
            r == selected_language(path@, *args),
    {
        if path_is_hidden(path) {
            return None;
        }
        match path_extension(path) {
            None => None,
            Some(e) => {
                let low = to_lowercase(e.as_str());
                match self.language_support.get_language_by_extension(low.as_str()) {
                    None => None,
                    Some(l) => {
                        if self.should_compile_language(&l, args) {
                            Some(l)
                        } else {
                            None
                        }
                    },
                }
            },
        }
    }

    /// Groups the given file paths by language, as `classified` promises:
    /// each selected file lands in exactly the group of its language, and
    /// each group is sorted and deduplicated.
    pub fn classify_files(&self, paths: &Vec<String>, args: &Args) -> (groups: Vec<
        (Language, Vec<String>),
    >)
        ensures
            classified(paths@, *args, groups@),
    {
        let mut groups: Vec<(Language, Vec<String>)> = Vec::new();
        proof {
            assert(paths@.take(0) =~= Seq::<String>::empty());
        }
        let mut m: usize = 0;
        while m < paths.len()
            invariant
                m <= paths@.len(),
                classified(paths@.take(m as int), *args, groups@),
            decreases paths@.len() - m,
        {
            let ghost prefix = paths@.take(m as int);
            let ghost prefix1 = paths@.take(m as int + 1);
            proof {
                lemma_take_succ(paths@, m as int);
                assert(forall|t: int| 0 <= t <= m ==> prefix1[t] == paths@[t]);
                assert(forall|t: int| 0 <= t < m ==> prefix[t] == paths@[t]);
            }
            let sel = self.select_language(paths[m].as_str(), args);
            match sel {
                None => {
                    proof {
                        assert forall|i: int, k: int|
                            0 <= i < groups@.len() && 0 <= k < groups@[i].1@.len() implies exists|
                            mm: int,
                        |
                            0 <= mm < prefix1.len() && prefix1[mm]@ == #[trigger] groups@[i].1@[k]@
                        by {
                            let mm = choose|mm: int|
                                0 <= mm < prefix.len() && prefix[mm]@ == groups@[i].1@[k]@;
                            assert(prefix1[mm]@ == groups@[i].1@[k]@);
                        }
                        assert forall|mm: int| 0 <= mm < prefix1.len() implies {
                            match selected_language(#[trigger] prefix1[mm]@, *args) {
                                Some(l) => in_group(groups@, l, prefix1[mm]@),
                                None => true,
                            }
                        } by {
                            if mm < m {
                                assert(prefix[mm] == prefix1[mm]);
                            } else {
                                assert(prefix1[mm]@ == paths@[m as int]@);
                            }
                        }
                        assert(classified(prefix1, *args, groups@));
                    }
                },
                Some(l) => {
                    let mut gi: usize = 0;
                    while gi < groups.len() && groups[gi].0 != l
                        invariant
                            gi <= groups@.len(),
                            forall|t: int| 0 <= t < gi ==> (#[trigger] groups@[t]).0 != l,
                        decreases groups@.len() - gi,
                    {
                        gi += 1;
                    }
                    let ghost gold = groups@;
                    if gi < groups.len() {
                        proof {
                            assert(strictly_sorted(groups@[gi as int].1@));
                        }
                        insert_sorted(&mut groups[gi].1, paths[m].clone());
                        proof {
                            let gnew = groups@;
                            let x = paths@[m as int]@;
                            assert(gnew =~= gold.update(gi as int, gnew[gi as int]));
                            assert(gnew[gi as int].0 == l);
                            assert(forall|t: int|
                                0 <= t < gnew.len() && t != gi ==> gnew[t] == gold[t]);
                            // every file of the updated group is an old file or the new one
                            assert forall|k: int| 0 <= k < gnew[gi as int].1@.len() implies {
                                &&& selected_language(#[trigger] gnew[gi as int].1@[k]@, *args)
                                    == Some(l)
                                &&& exists|mm: int|
                                    0 <= mm < prefix1.len() && prefix1[mm]@ == gnew[gi as int].1@[k]@
                            } by {
                                let y = gnew[gi as int].1@[k]@;
                                assert(contains_str(gnew[gi as int].1@, y));
                                if y == x {
                                    assert(prefix1[m as int]@ == y);
                                } else {
                                    assert(contains_str(gold[gi as int].1@, y));
                                    let kk = choose|kk: int|
                                        0 <= kk < gold[gi as int].1@.len() && gold[gi as int].1@[kk]@
                                            == y;
                                    assert(selected_language(y, *args) == Some(l));
                                    let mm = choose|mm: int|
                                        0 <= mm < prefix.len() && prefix[mm]@ == y;
                                    assert(prefix1[mm]@ == y);
                                }
                            }
                            assert forall|i: int, k: int|
                                0 <= i < gnew.len() && 0 <= k < gnew[i].1@.len() && i != gi
                                    implies {
                                &&& selected_language(#[trigger] gnew[i].1@[k]@, *args) == Some(
                                    gnew[i].0)
                                &&& exists|mm: int|
                                    0 <= mm < prefix1.len() && prefix1[mm]@ == gnew[i].1@[k]@
                            } by {
                                assert(gnew[i] == gold[i]);
                                let mm = choose|mm: int|
                                    0 <= mm < prefix.len() && prefix[mm]@ == gold[i].1@[k]@;
                                assert(prefix1[mm]@ == gnew[i].1@[k]@);
                            }
                            assert forall|mm: int| 0 <= mm < prefix1.len() implies {
                                match selected_language(#[trigger] prefix1[mm]@, *args) {
                                    Some(ll) => in_group(gnew, ll, prefix1[mm]@),
                                    None => true,
                                }
                            } by {
                                if mm < m {
                                    assert(prefix[mm] == prefix1[mm]);
                                    match selected_language(prefix[mm]@, *args) {
                                        Some(ll) => {
                                            assert(in_group(gold, ll, prefix[mm]@));
                                            let t = choose|t: int|
                                                0 <= t < gold.len() && gold[t].0 == ll
                                                    && contains_str(gold[t].1@, prefix[mm]@);
                                            if t == gi {
                                                assert(contains_str(
                                                    gnew[gi as int].1@,
                                                    prefix[mm]@,
                                                ));
                                            } else {
                                                assert(gnew[t] == gold[t]);
                                            }
                                            assert(in_group(gnew, ll, prefix1[mm]@));
                                        },
                                        None => {},
                                    }
                                } else {
                                    assert(prefix1[mm]@ == x);
                                    assert(contains_str(gnew[gi as int].1@, x));
                                    assert(in_group(gnew, l, x));
                                }
                            }
                            assert(classified(prefix1, *args, gnew));
                        }
                    } else {
                        let mut files: Vec<String> = Vec::new();
                        insert_sorted(&mut files, paths[m].clone());
                        groups.push((l, files));
                        proof {
                            let gnew = groups@;
                            let x = paths@[m as int]@;
                            assert(gnew.len() == gold.len() + 1);
                            assert(forall|t: int| 0 <= t < gold.len() ==> gnew[t] == gold[t]);
                            assert(gnew[gold.len() as int].0 == l);
                            assert forall|k: int|
                                0 <= k < gnew[gold.len() as int].1@.len() implies gnew[gold.len() as int].1@[k]@
                                == x by {
                                let fv = gnew[gold.len() as int].1@;
                                assert(contains_str(fv, fv[k]@));
                            }
                            assert(contains_str(gnew[gold.len() as int].1@, x));
                            assert(gnew[gold.len() as int].1@.len() > 0);
                            assert forall|mm: int| 0 <= mm < prefix1.len() implies {
                                match selected_language(#[trigger] prefix1[mm]@, *args) {
                                    Some(ll) => in_group(gnew, ll, prefix1[mm]@),
                                    None => true,
                                }
                            } by {
                                if mm < m {
                                    assert(prefix[mm] == prefix1[mm]);
                                    match selected_language(prefix[mm]@, *args) {
                                        Some(ll) => {
                                            assert(in_group(gold, ll, prefix[mm]@));
                                            let t = choose|t: int|
                                                0 <= t < gold.len() && gold[t].0 == ll
                                                    && contains_str(gold[t].1@, prefix[mm]@);
                                            assert(gnew[t] == gold[t]);
                                            assert(in_group(gnew, ll, prefix1[mm]@));
                                        },
                                        None => {},
                                    }
                                } else {
                                    assert(prefix1[mm]@ == x);
                                    assert(in_group(gnew, l, x));
                                }
                            }
                            assert forall|i: int, k: int|
                                0 <= i < gnew.len() && 0 <= k < gnew[i].1@.len() implies {
                                &&& selected_language(#[trigger] gnew[i].1@[k]@, *args) == Some(
                                    gnew[i].0)
                                &&& exists|mm: int|
                                    0 <= mm < prefix1.len() && prefix1[mm]@ == gnew[i].1@[k]@
                            } by {
                                if i < gold.len() {
                                    assert(gnew[i] == gold[i]);
                                    let mm = choose|mm: int|
                                        0 <= mm < prefix.len() && prefix[mm]@ == gold[i].1@[k]@;
                                    assert(prefix1[mm]@ == gnew[i].1@[k]@);
                                } else {
                                    assert(gnew[i].1@[k]@ == x);
                                    assert(prefix1[m as int]@ == x);
                                }
                            }
                            assert(classified(prefix1, *args, gnew));
                        }
                    }
                },
            }
            m += 1;
        }
        proof {
            assert(paths@.take(paths@.len() as int) =~= paths@);
        }
        groups
    }
}

/// A file is listed in at most one group: the groups carry distinct
/// languages and a listed file's selected language is its group's.
pub proof fn lemma_file_in_one_group(
    paths: Seq<String>,
    a: Args,
    groups: Seq<(Language, Vec<String>)>,
    i: int,
    j: int,
    x: Seq<char>,
)
    requires
        classified(paths, a, groups),
        0 <= i < groups.len(),
        0 <= j < groups.len(),
        contains_str(groups[i].1@, x),
        contains_str(groups[j].1@, x),
    ensures
        i == j,
{
    let ki = choose|k: int| 0 <= k < groups[i].1@.len() && groups[i].1@[k]@ == x;
    let kj = choose|k: int| 0 <= k < groups[j].1@.len() && groups[j].1@[k]@ == x;
    assert(selected_language(x, a) == Some(groups[i].0));
    assert(selected_language(x, a) == Some(groups[j].0));
}

/// A file whose extension no language claims is listed in no group.
pub proof fn lemma_unrecognized_excluded(
    paths: Seq<String>,
    a: Args,
    groups: Seq<(Language, Vec<String>)>,
    x: Seq<char>,
)
    requires
        classified(paths, a, groups),
        match extension_of(x) {
            Some(e) => language_for_extension(lower_of(e)) is None,
            None => true,
        },
    ensures
        forall|i: int| 0 <= i < groups.len() ==> !contains_str((#[trigger] groups[i]).1@, x),
{
    assert forall|i: int| 0 <= i < groups.len() implies !contains_str(
        (#[trigger] groups[i]).1@,
        x,
    ) by {
        if contains_str(groups[i].1@, x) {
            let k = choose|k: int| 0 <= k < groups[i].1@.len() && groups[i].1@[k]@ == x;
            assert(selected_language(x, a) == Some(groups[i].0));
        }
    }
}

/// A hidden file is listed in no group.
pub proof fn lemma_hidden_excluded(
    paths: Seq<String>,
    a: Args,
    groups: Seq<(Language, Vec<String>)>,
    x: Seq<char>,
)
    requires
        classified(paths, a, groups),
        is_hidden(x),
    ensures
        forall|i: int| 0 <= i < groups.len() ==> !contains_str((#[trigger] groups[i]).1@, x),
{
    assert forall|i: int| 0 <= i < groups.len() implies !contains_str(
        (#[trigger] groups[i]).1@,
        x,
    ) by {
        if contains_str(groups[i].1@, x) {
            let k = choose|k: int| 0 <= k < groups[i].1@.len() && groups[i].1@[k]@ == x;
            assert(selected_language(x, a) == Some(groups[i].0));
        }
    }
}

} // verus!
