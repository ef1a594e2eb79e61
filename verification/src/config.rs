//! Run configuration: parallelism, per-language compiler flags, glob-like
//! include/ignore patterns, and per-language settings. The pattern test
//! (`*` patterns as anchored globs, everything else as a substring) is what
//! the classifier's callers use to drop build artifacts and VCS
//! directories.

use vstd::prelude::*;

verus! {

use vstd::string::*;
use crate::text::{
    contains_sub,
    contains_str,
    views_of,
    str_contains,
    str_contains_char,
    str_eq,
    push_char,
    lemma_take_succ,
};

/// Whether the regex engine accepts `pattern` as a valid expression; it
/// depends on the pattern alone.
pub uninterp spec fn regex_valid(pattern: Seq<char>) -> bool;

/// Whether the compiled regex `pattern` matches somewhere in `text`; it
/// depends on the two strings alone.
pub uninterp spec fn regex_accepts(pattern: Seq<char>, text: Seq<char>) -> bool;

/// Relies on regex::Regex::new and regex::Regex::is_match: `None` exactly
/// when the pattern does not compile, otherwise whether the compiled
/// pattern matches the text.
#[verifier::external_body]
fn regex_match(pattern: &str, text: &str) -> (r: Option<bool>)
    ensures
        r is Some <==> regex_valid(pattern@),
        r matches Some(b) ==> b == regex_accepts(pattern@, text@),
{
    match regex::Regex::new(pattern) {
        Ok(re) => Some(re.is_match(text)),
        Err(_) => None,
    }
}

/// Relies on num_cpus::get: the number of logical CPUs, always at least 1.
#[verifier::external_body]
fn logical_cpu_count() -> (n: usize)
    ensures
        1 <= n,
{
    num_cpus::get()
}

/// The glob pattern translated to an anchored regex: `.` is escaped, `*`
/// becomes `.*`, every other character is kept as it is.
pub open spec fn escape_glob(pat: Seq<char>) -> Seq<char>
    decreases pat.len(),
{
    if pat.len() == 0 {
        Seq::empty()
    } else {
        escape_glob(pat.drop_last()) + (if pat.last() == '.' {
            "\\."@
        } else if pat.last() == '*' {
            ".*"@
        } else {
            seq![pat.last()]
        })
    }
}

/// The anchored regex form of a glob pattern.
pub open spec fn glob_regex_of(pat: Seq<char>) -> Seq<char> {
    "^"@ + escape_glob(pat) + "$"@
}

/// Builds the anchored regex form of a glob pattern.
fn build_glob_regex(pat: &str) -> (r: String)
    ensures
        r@ == glob_regex_of(pat@),
{
    let n = pat.unicode_len();
    let mut r = "^".to_owned();
    proof {
        assert(pat@.take(0) =~= Seq::<char>::empty());
        assert(r@ =~= "^"@ + escape_glob(pat@.take(0)));
    }
    let mut i: usize = 0;
    while i < n
        invariant
            i <= n,
            n == pat@.len(),
            r@ == "^"@ + escape_glob(pat@.take(i as int)),
        decreases n - i,
    {
        proof {
            lemma_take_succ(pat@, i as int);
        }
        let c = pat.get_char(i);
        if c == '.' {
            r.append("\\.");
        } else if c == '*' {
            r.append(".*");
        } else {
            push_char(&mut r, c);
        }
        proof {
            assert(r@ =~= "^"@ + escape_glob(pat@.take(i + 1)));
        }
        i += 1;
    }
    proof {
        assert(pat@.take(n as int) =~= pat@);
    }
    let r = r.concat("$");
    proof {
        assert(r@ =~= glob_regex_of(pat@));
    }
    r
}

/// Whether a path matches a pattern: a pattern containing `*` is tried as
/// an anchored glob; any other pattern, or one whose translated form the
/// regex engine rejects, matches as a substring.
pub open spec fn spec_matches_pattern(path: Seq<char>, pat: Seq<char>) -> bool {
    if pat.contains('*') {
        if regex_valid(glob_regex_of(pat)) {
            regex_accepts(glob_regex_of(pat), path)
        } else {
            contains_sub(path, pat)
        }
    } else {
        contains_sub(path, pat)
    }
}

/// Some pattern in the list matches the path.
pub open spec fn matches_any(patterns: Seq<String>, path: Seq<char>) -> bool {
    exists|i: int| 0 <= i < patterns.len() && spec_matches_pattern(path, patterns[i]@)
}

/// The keys of a key–value list are pairwise distinct.
pub open spec fn keys_unique<V>(pairs: Seq<(String, V)>) -> bool {
    forall|i: int, j: int|
        0 <= i < j < pairs.len() ==> (#[trigger] pairs[i]).0@ != (#[trigger] pairs[j]).0@
}

/// First-match lookup in a key–value list.
pub open spec fn lookup<V>(pairs: Seq<(String, V)>, key: Seq<char>) -> Option<V>
    decreases pairs.len(),
{
    if pairs.len() == 0 {
        None
    } else if pairs[0].0@ == key {
        Some(pairs[0].1)
    } else {
        lookup(pairs.drop_first(), key)
    }
}

proof fn lemma_lookup_skip<V>(pairs: Seq<(String, V)>, key: Seq<char>, i: int)
    requires
        0 <= i <= pairs.len(),
        forall|t: int| 0 <= t < i ==> (#[trigger] pairs[t]).0@ != key,
    ensures
        lookup(pairs, key) == lookup(pairs.skip(i), key),
    decreases i,
{
    if i > 0 {
        assert(pairs[0].0@ != key);
        lemma_lookup_skip(pairs.drop_first(), key, i - 1);
        assert(pairs.drop_first().skip(i - 1) =~= pairs.skip(i));
    } else {
        assert(pairs.skip(0) =~= pairs);
    }
}

/// With distinct keys, a matching entry determines the lookup result.
pub proof fn lemma_lookup_unique<V>(pairs: Seq<(String, V)>, key: Seq<char>, i: int)
    requires
        keys_unique(pairs),
        0 <= i < pairs.len(),
        pairs[i].0@ == key,
    ensures
        lookup(pairs, key) == Some(pairs[i].1),
{
    assert(forall|t: int| 0 <= t < i ==> (#[trigger] pairs[t]).0@ != key);
    lemma_lookup_skip(pairs, key, i);
    assert(pairs.skip(i)[0] == pairs[i]);
    assert(pairs.skip(i).len() > 0);
}

proof fn lemma_lookup_update_same_key<V>(pairs: Seq<(String, V)>, i: int, p: (String, V), k: Seq<
    char,
>)
    requires
        0 <= i < pairs.len(),
        pairs[i].0@ == p.0@,
        k != p.0@,
    ensures
        lookup(pairs.update(i, p), k) == lookup(pairs, k),
    decreases pairs.len(),
{
    let upd = pairs.update(i, p);
    if i == 0 {
        assert(upd[0] == p);
        assert(upd.drop_first() =~= pairs.drop_first());
    } else {
        assert(upd[0] == pairs[0]);
        if pairs[0].0@ != k {
            assert(upd.drop_first() =~= pairs.drop_first().update(i - 1, p));
            lemma_lookup_update_same_key(pairs.drop_first(), i - 1, p, k);
        }
    }
}

proof fn lemma_lookup_push<V>(pairs: Seq<(String, V)>, p: (String, V), k: Seq<char>)
    requires
        lookup(pairs, k) is Some || k != p.0@,
    ensures
        lookup(pairs.push(p), k) == lookup(pairs, k),
    decreases pairs.len(),
{
    let ps = pairs.push(p);
    if pairs.len() == 0 {
        assert(lookup(pairs, k) is None);
        assert(k != p.0@);
        assert(ps[0] == p);
        assert(ps.drop_first() =~= Seq::<(String, V)>::empty());
        assert(lookup(ps.drop_first(), k) is None);
    } else {
        assert(ps[0] == pairs[0]);
        if pairs[0].0@ != k {
            assert(ps.drop_first() =~= pairs.drop_first().push(p));
            lemma_lookup_push(pairs.drop_first(), p, k);
        }
    }
}

proof fn lemma_lookup_push_new<V>(pairs: Seq<(String, V)>, p: (String, V))
    requires
        lookup(pairs, p.0@) is None,
    ensures
        lookup(pairs.push(p), p.0@) == Some(p.1),
    decreases pairs.len(),
{
    let ps = pairs.push(p);
    if pairs.len() == 0 {
        assert(ps[0] == p);
    } else {
        assert(ps[0] == pairs[0]);
        assert(pairs[0].0@ != p.0@);
        assert(ps.drop_first() =~= pairs.drop_first().push(p));
        lemma_lookup_push_new(pairs.drop_first(), p);
    }
}

proof fn lemma_lookup_none_no_key<V>(pairs: Seq<(String, V)>, k: Seq<char>)
    requires
        lookup(pairs, k) is None,
    ensures
        forall|t: int| 0 <= t < pairs.len() ==> (#[trigger] pairs[t]).0@ != k,
    decreases pairs.len(),
{
    if pairs.len() > 0 {
        assert(pairs[0].0@ != k);
        lemma_lookup_none_no_key(pairs.drop_first(), k);
        assert forall|t: int| 0 <= t < pairs.len() implies (#[trigger] pairs[t]).0@ != k by {
            if t > 0 {
                assert(pairs[t] == pairs.drop_first()[t - 1]);
            }
        }
    }
}

/// Per-language settings from the configuration file.
#[derive(Debug, Clone)]
pub struct LanguageConfig {
    /// Whether the language takes part in builds.
    pub enabled: bool,
    /// An overriding compiler path, when set.
    pub compiler_path: Option<String>,
    /// Extra compiler flags.
    pub compiler_flags: Vec<String>,
    /// The artifact extension, when the language produces one.
    pub output_format: Option<String>,
}

/// The persisted run configuration.
#[derive(Debug, Clone)]
pub struct Config {
    /// How many build jobs may run at once.
    pub parallel_jobs: usize,
    /// Per-language custom flag strings, keyed by language name.
    pub compiler_flags: Vec<(String, String)>,
    /// Paths matching one of these are skipped.
    pub ignore_patterns: Vec<String>,
    /// When non-empty, only paths matching one of these are kept.
    pub include_patterns: Vec<String>,
    /// Where build artifacts go.
    pub output_directory: Option<String>,
    /// Whether to print verbose output.
    pub verbose_output: bool,
    /// Whether to delete artifacts after the run.
    pub auto_clean: bool,
    /// Whether to watch for changes and rebuild.
    pub watch_mode: bool,
    /// Per-language settings, keyed by language name.
    pub language_settings: Vec<(String, LanguageConfig)>,
}

/// A path is ignored when an ignore pattern matches it, or when include
/// patterns are given and none of them matches it.
pub open spec fn spec_should_ignore(c: Config, path: Seq<char>) -> bool {
    matches_any(c.ignore_patterns@, path) || (c.include_patterns@.len() > 0 && !matches_any(
        c.include_patterns@,
        path,
    ))
}

impl Config {
    /// Both key–value lists carry distinct keys.
    pub open spec fn wf(self) -> bool {
        keys_unique(self.compiler_flags@) && keys_unique(self.language_settings@)
    }

    /// Whether a path matches one include/ignore pattern.
    pub fn matches_pattern(file_path: &str, pattern: &str) -> (r: bool)
        ensures
            r == spec_matches_pattern(file_path@, pattern@),
    {
        if str_contains_char(pattern, '*') {
            let rx = build_glob_regex(pattern);
            match regex_match(rx.as_str(), file_path) {
                Some(b) => b,
                None => str_contains(file_path, pattern),
            }
        } else {
            str_contains(file_path, pattern)
        }
    }

    /// Whether the configuration tells the classifier to skip this path.
    pub fn should_ignore_file(&self, file_path: &str) -> (r: bool)
        ensures
            r == spec_should_ignore(*self, file_path@),
    {
        let mut i: usize = 0;
        while i < self.ignore_patterns.len()
            invariant
                i <= self.ignore_patterns@.len(),
                forall|j: int|
                    0 <= j < i ==> !spec_matches_pattern(
                        file_path@,
                        (#[trigger] self.ignore_patterns@[j])@,
                    ),
            decreases self.ignore_patterns@.len() - i,
        {
            if Self::matches_pattern(file_path, self.ignore_patterns[i].as_str()) {
                return true;
            }
            i += 1;
        }
        proof {
            assert(!matches_any(self.ignore_patterns@, file_path@)) by {
                if matches_any(self.ignore_patterns@, file_path@) {
                    let j = choose|j: int|
                        0 <= j < self.ignore_patterns@.len() && spec_matches_pattern(
                            file_path@,
                            self.ignore_patterns@[j]@,
                        );
                }
            }
        }
        if self.include_patterns.len() > 0 {
            let mut k: usize = 0;
            while k < self.include_patterns.len()
                invariant
                    k <= self.include_patterns@.len(),
                    !matches_any(self.ignore_patterns@, file_path@),
                    forall|j: int|
                        0 <= j < k ==> !spec_matches_pattern(
                            file_path@,
                            (#[trigger] self.include_patterns@[j])@,
                        ),
                decreases self.include_patterns@.len() - k,
            {
                if Self::matches_pattern(file_path, self.include_patterns[k].as_str()) {
                    proof {
                        assert(matches_any(self.include_patterns@, file_path@));
                    }
                    return false;
                }
                k += 1;
            }
            proof {
                assert(!matches_any(self.include_patterns@, file_path@)) by {
                    if matches_any(self.include_patterns@, file_path@) {
                        let j = choose|j: int|
                            0 <= j < self.include_patterns@.len() && spec_matches_pattern(
                                file_path@,
                                self.include_patterns@[j]@,
                            );
                    }
                }
            }
            return true;
        }
        false
    }

    /// The custom flag string configured for a language, if any.
    pub fn get_compiler_flags(&self, language: &str) -> (r: Option<&String>)
        ensures
            match r {
                Some(f) => lookup(self.compiler_flags@, language@) == Some(*f),
                None => lookup(self.compiler_flags@, language@) is None,
            },
    {
        let mut i: usize = 0;
        while i < self.compiler_flags.len()
            invariant
                i <= self.compiler_flags@.len(),
                forall|t: int| 0 <= t < i ==> (#[trigger] self.compiler_flags@[t]).0@ != language@,
            decreases self.compiler_flags@.len() - i,
        {
            if str_eq(self.compiler_flags[i].0.as_str(), language) {
                proof {
                    lemma_lookup_skip(self.compiler_flags@, language@, i as int);
                    assert(self.compiler_flags@.skip(i as int)[0] == self.compiler_flags@[i as int]);
                }
                return Some(&self.compiler_flags[i].1);
            }
            i += 1;
        }
        proof {
            lemma_lookup_skip(self.compiler_flags@, language@, self.compiler_flags@.len() as int);
            assert(self.compiler_flags@.skip(self.compiler_flags@.len() as int) =~= Seq::<
                (String, String),
            >::empty());
        }
        None
    }

    /// Sets (or replaces) the custom flag string for a language; every
    /// other entry keeps its value.
    pub fn set_compiler_flags(&mut self, language: &str, flags: String)
        requires
            old(self).wf(),
        ensures
            final(self).wf(),
            lookup(final(self).compiler_flags@, language@) == Some(flags),
            forall|k: Seq<char>|
                k != language@ ==> lookup(final(self).compiler_flags@, k) == lookup(
                    old(self).compiler_flags@,
                    k,
                ),
            final(self).parallel_jobs == old(self).parallel_jobs,
            final(self).ignore_patterns == old(self).ignore_patterns,
            final(self).include_patterns == old(self).include_patterns,
            final(self).output_directory == old(self).output_directory,
            final(self).verbose_output == old(self).verbose_output,
            final(self).auto_clean == old(self).auto_clean,
            final(self).watch_mode == old(self).watch_mode,
            final(self).language_settings == old(self).language_settings,
    {
        let ghost pairs = self.compiler_flags@;
        let mut i: usize = 0;
        while i < self.compiler_flags.len()
            invariant
                i <= pairs.len(),
                *self == *old(self),
                old(self).wf(),
                pairs == self.compiler_flags@,
                keys_unique(pairs),
                forall|t: int| 0 <= t < i ==> (#[trigger] pairs[t]).0@ != language@,
            decreases pairs.len() - i,
        {
            if str_eq(self.compiler_flags[i].0.as_str(), language) {
                let key = language.to_owned();
                self.compiler_flags[i] = (key, flags);
                proof {
                    let upd = self.compiler_flags@;
                    assert(upd =~= pairs.update(i as int, upd[i as int]));
                    assert(upd[i as int].0@ == pairs[i as int].0@);
                    assert forall|p: int, q: int|
                        0 <= p < q < upd.len() implies (#[trigger] upd[p]).0@ != (
                    #[trigger] upd[q]).0@ by {
                        assert(pairs[p].0@ != pairs[q].0@);
                        if p != i {
                            assert(upd[p] == pairs[p]);
                        }
                        if q != i {
                            assert(upd[q] == pairs[q]);
                        }
                    }
                    lemma_lookup_unique(upd, language@, i as int);
                    assert forall|k: Seq<char>|
                        k != language@ implies lookup(upd, k) == lookup(pairs, k) by {
                        lemma_lookup_update_same_key(pairs, i as int, upd[i as int], k);
                    }
                }
                return ;
            }
            i += 1;
        }
        proof {
            lemma_lookup_skip(pairs, language@, pairs.len() as int);
            assert(pairs.skip(pairs.len() as int) =~= Seq::<(String, String)>::empty());
        }
        let key = language.to_owned();
        self.compiler_flags.push((key, flags));
        proof {
            let ps = self.compiler_flags@;
            let p = ps.last();
            assert(ps =~= pairs.push(p));
            lemma_lookup_push_new(pairs, p);
            assert forall|k: Seq<char>| k != language@ implies lookup(ps, k) == lookup(pairs, k) by {
                lemma_lookup_push(pairs, p, k);
            }
            assert(keys_unique(ps)) by {
                lemma_lookup_none_no_key(pairs, language@);
            }
        }
    }

    /// The per-language settings entry for a language, if any.
    pub fn get_language_config(&self, language: &str) -> (r: Option<&LanguageConfig>)
        ensures
            match r {
                Some(c) => lookup(self.language_settings@, language@) == Some(*c),
                None => lookup(self.language_settings@, language@) is None,
            },
    {
        let mut i: usize = 0;
        while i < self.language_settings.len()
            invariant
                i <= self.language_settings@.len(),
                forall|t: int|
                    0 <= t < i ==> (#[trigger] self.language_settings@[t]).0@ != language@,
            decreases self.language_settings@.len() - i,
        {
            if str_eq(self.language_settings[i].0.as_str(), language) {
                proof {
                    lemma_lookup_skip(self.language_settings@, language@, i as int);
                    assert(self.language_settings@.skip(i as int)[0] == self.language_settings@[i as int]);
                }
                return Some(&self.language_settings[i].1);
            }
            i += 1;
        }
        proof {
            lemma_lookup_skip(
                self.language_settings@,
                language@,
                self.language_settings@.len() as int,
            );
            assert(self.language_settings@.skip(self.language_settings@.len() as int) =~= Seq::<
                (String, LanguageConfig),
            >::empty());
        }
        None
    }

    /// Sets (or replaces) the settings entry for a language; every other
    /// entry keeps its value.
    pub fn set_language_config(&mut self, language: &str, config: LanguageConfig)
        requires
            old(self).wf(),
        ensures
            final(self).wf(),
            lookup(final(self).language_settings@, language@) == Some(config),
            forall|k: Seq<char>|
                k != language@ ==> lookup(final(self).language_settings@, k) == lookup(
                    old(self).language_settings@,
                    k,
                ),
            final(self).parallel_jobs == old(self).parallel_jobs,
            final(self).compiler_flags == old(self).compiler_flags,
            final(self).ignore_patterns == old(self).ignore_patterns,
            final(self).include_patterns == old(self).include_patterns,
            final(self).output_directory == old(self).output_directory,
            final(self).verbose_output == old(self).verbose_output,
            final(self).auto_clean == old(self).auto_clean,
            final(self).watch_mode == old(self).watch_mode,
    {
        let ghost pairs = self.language_settings@;
        let mut i: usize = 0;
        while i < self.language_settings.len()
            invariant
                i <= pairs.len(),
                *self == *old(self),
                old(self).wf(),
                pairs == self.language_settings@,
                keys_unique(pairs),
                forall|t: int| 0 <= t < i ==> (#[trigger] pairs[t]).0@ != language@,
            decreases pairs.len() - i,
        {
            if str_eq(self.language_settings[i].0.as_str(), language) {
                let key = language.to_owned();
                self.language_settings[i] = (key, config);
                proof {
                    let upd = self.language_settings@;
                    assert(upd =~= pairs.update(i as int, upd[i as int]));
                    assert(upd[i as int].0@ == pairs[i as int].0@);
                    assert forall|p: int, q: int|
                        0 <= p < q < upd.len() implies (#[trigger] upd[p]).0@ != (
                    #[trigger] upd[q]).0@ by {
                        assert(pairs[p].0@ != pairs[q].0@);
                        if p != i {
                            assert(upd[p] == pairs[p]);
                        }
                        if q != i {
                            assert(upd[q] == pairs[q]);
                        }
                    }
                    lemma_lookup_unique(upd, language@, i as int);
                    assert forall|k: Seq<char>|
                        k != language@ implies lookup(upd, k) == lookup(pairs, k) by {
                        lemma_lookup_update_same_key(pairs, i as int, upd[i as int], k);
                    }
                }
                return ;
            }
            i += 1;
        }
        proof {
            lemma_lookup_skip(pairs, language@, pairs.len() as int);
            assert(pairs.skip(pairs.len() as int) =~= Seq::<(String, LanguageConfig)>::empty());
        }
        let key = language.to_owned();
        self.language_settings.push((key, config));
        proof {
            let ps = self.language_settings@;
            let p = ps.last();
            assert(ps =~= pairs.push(p));
            lemma_lookup_push_new(pairs, p);
            assert forall|k: Seq<char>| k != language@ implies lookup(ps, k) == lookup(pairs, k) by {
                lemma_lookup_push(pairs, p, k);
            }
            assert(keys_unique(ps)) by {
                lemma_lookup_none_no_key(pairs, language@);
            }
        }
    }

    /// Whether a language takes part in builds: enabled unless its settings
    /// entry says otherwise.
    pub fn is_language_enabled(&self, language: &str) -> (r: bool)
        ensures
            r == match lookup(self.language_settings@, language@) {
                Some(c) => c.enabled,
                None => true,
            },
    {
        match self.get_language_config(language) {
            Some(c) => c.enabled,
            None => true,
        }
    }

    /// Adds an ignore pattern unless it is already present.
    pub fn add_ignore_pattern(&mut self, pattern: String)
        ensures
            contains_str(old(self).ignore_patterns@, pattern@) ==> *final(self) == *old(self),
            !contains_str(old(self).ignore_patterns@, pattern@) ==> final(self).ignore_patterns@
                == old(self).ignore_patterns@.push(pattern) && unchanged_but_ignore(
                *old(self),
                *final(self),
            ),
    {
        if !contains_string(&self.ignore_patterns, pattern.as_str()) {
            self.ignore_patterns.push(pattern);
        }
    }

    /// Removes every occurrence of an ignore pattern.
    pub fn remove_ignore_pattern(&mut self, pattern: &str)
        ensures
            final(self).ignore_patterns@ == without_string(old(self).ignore_patterns@, pattern@),
            unchanged_but_ignore(*old(self), *final(self)),
    {
        let kept = retain_not_equal(&self.ignore_patterns, pattern);
        self.ignore_patterns = kept;
    }

    /// Adds an include pattern unless it is already present.
    pub fn add_include_pattern(&mut self, pattern: String)
        ensures
            contains_str(old(self).include_patterns@, pattern@) ==> *final(self) == *old(self),
            !contains_str(old(self).include_patterns@, pattern@) ==> final(self).include_patterns@
                == old(self).include_patterns@.push(pattern) && unchanged_but_include(
                *old(self),
                *final(self),
            ),
    {
        if !contains_string(&self.include_patterns, pattern.as_str()) {
            self.include_patterns.push(pattern);
        }
    }

    /// Removes every occurrence of an include pattern.
    pub fn remove_include_pattern(&mut self, pattern: &str)
        ensures
            final(self).include_patterns@ == without_string(old(self).include_patterns@, pattern@),
            unchanged_but_include(*old(self), *final(self)),
    {
        let kept = retain_not_equal(&self.include_patterns, pattern);
        self.include_patterns = kept;
    }
}

/// All fields but `ignore_patterns` agree.
pub open spec fn unchanged_but_ignore(a: Config, b: Config) -> bool {
    &&& b.parallel_jobs == a.parallel_jobs
    &&& b.compiler_flags == a.compiler_flags
    &&& b.include_patterns == a.include_patterns
    &&& b.output_directory == a.output_directory
    &&& b.verbose_output == a.verbose_output
    &&& b.auto_clean == a.auto_clean
    &&& b.watch_mode == a.watch_mode
    &&& b.language_settings == a.language_settings
}

/// All fields but `include_patterns` agree.
pub open spec fn unchanged_but_include(a: Config, b: Config) -> bool {
    &&& b.parallel_jobs == a.parallel_jobs
    &&& b.compiler_flags == a.compiler_flags
    &&& b.ignore_patterns == a.ignore_patterns
    &&& b.output_directory == a.output_directory
    &&& b.verbose_output == a.verbose_output
    &&& b.auto_clean == a.auto_clean
    &&& b.watch_mode == a.watch_mode
    &&& b.language_settings == a.language_settings
}

/// The strings of `v` that do not read `pat`, in order.
pub open spec fn without_string(v: Seq<String>, pat: Seq<char>) -> Seq<String> {
    v.filter(|p: String| p@ != pat)
}

/// Whether some string in the vector reads `s`.
pub fn contains_string(v: &Vec<String>, s: &str) -> (r: bool)
    ensures
        r == contains_str(v@, s@),
{
    let mut i: usize = 0;
    while i < v.len()
        invariant
            i <= v@.len(),
            forall|j: int| 0 <= j < i ==> (#[trigger] v@[j])@ != s@,
        decreases v@.len() - i,
    {
        if str_eq(v[i].as_str(), s) {
            return true;
        }
        i += 1;
    }
    false
}

/// The strings of `v` that do not read `pat`, in order.
fn retain_not_equal(v: &Vec<String>, pat: &str) -> (r: Vec<String>)
    ensures
        r@ == without_string(v@, pat@),
{
    let mut r: Vec<String> = Vec::new();
    proof {
        assert(v@.take(0) =~= Seq::<String>::empty());
        reveal_with_fuel(Seq::<String>::filter, 1);
        assert(r@ =~= without_string(v@.take(0), pat@));
    }
    let mut i: usize = 0;
    while i < v.len()
        invariant
            i <= v@.len(),
            r@ == without_string(v@.take(i as int), pat@),
        decreases v@.len() - i,
    {
        proof {
            lemma_take_succ(v@, i as int);
            reveal_with_fuel(Seq::<String>::filter, 2);
        }
        if !str_eq(v[i].as_str(), pat) {
            r.push(v[i].clone());
        }
        proof {
            assert(r@ =~= without_string(v@.take(i + 1), pat@));
        }
        i += 1;
    }
    proof {
        assert(v@.take(v@.len() as int) =~= v@);
    }
    r
}

/// The views of a list of key–value string pairs.
pub open spec fn pair_views(v: Seq<(String, String)>) -> Seq<(Seq<char>, Seq<char>)> {
    v.map_values(|p: (String, String)| (p.0@, p.1@))
}

/// The default per-language custom flag strings.
pub open spec fn default_flag_pairs() -> Seq<(Seq<char>, Seq<char>)> {
    seq![
        ("c"@, "-Wall -Wextra -std=c99"@),
        ("cpp"@, "-Wall -Wextra -std=c++17"@),
        ("rust"@, "--release"@),
        ("go"@, "-ldflags=-s -ldflags=-w"@),
    ]
}

/// The default ignore patterns: common build artifacts and VCS directories.
pub open spec fn default_ignore_views() -> Seq<Seq<char>> {
    seq![
        "*.o"@,
        "*.obj"@,
        "*.exe"@,
        "*.dll"@,
        "*.so"@,
        "*.dylib"@,
        "*.a"@,
        "*.lib"@,
        "target/"@,
        "build/"@,
        "dist/"@,
        "node_modules/"@,
        ".git/"@,
        ".svn/"@,
        ".hg/"@,
    ]
}

/// A settings entry has exactly these fields.
pub open spec fn lc_is(
    lc: LanguageConfig,
    enabled: bool,
    flags: Seq<Seq<char>>,
    fmt: Option<Seq<char>>,
) -> bool {
    &&& lc.enabled == enabled
    &&& lc.compiler_path is None
    &&& views_of(lc.compiler_flags@) == flags
    &&& match (lc.output_format, fmt) {
        (Option::None, Option::None) => true,
        (Option::Some(s), Option::Some(t)) => s@ == t,
        _ => false,
    }
}

/// The default parallelism: the host's logical CPU count.
pub fn default_parallel_jobs() -> (n: usize)
    ensures
        1 <= n,
{
    logical_cpu_count()
}

/// The default per-language custom flag strings.
pub fn default_compiler_flags() -> (r: Vec<(String, String)>)
    ensures
        pair_views(r@) == default_flag_pairs(),
        keys_unique(r@),
{
    let mut r: Vec<(String, String)> = Vec::new();
    r.push(("c".to_owned(), "-Wall -Wextra -std=c99".to_owned()));
    r.push(("cpp".to_owned(), "-Wall -Wextra -std=c++17".to_owned()));
    r.push(("rust".to_owned(), "--release".to_owned()));
    r.push(("go".to_owned(), "-ldflags=-s -ldflags=-w".to_owned()));
    proof {
        assert(pair_views(r@) =~= default_flag_pairs());
        reveal_strlit("c");
        reveal_strlit("cpp");
        reveal_strlit("rust");
        reveal_strlit("go");
        assert("c"@.len() == 1 && "go"@.len() == 2 && "cpp"@.len() == 3 && "rust"@.len() == 4);
        assert forall|p: int, q: int|
            0 <= p < q < r@.len() implies (#[trigger] r@[p]).0@ != (#[trigger] r@[q]).0@ by {
            assert(r@.len() == 4);
        }
        assert(keys_unique(r@));
    }
    r
}

/// An empty per-language flag list.
pub fn default_compiler_flags_vec() -> (r: Vec<String>)
    ensures
        r@ == Seq::<String>::empty(),
{
    let r: Vec<String> = Vec::new();
    proof {
        assert(r@ =~= Seq::<String>::empty());
    }
    r
}

/// The default ignore patterns: common build artifacts and VCS directories.
pub fn default_ignore_patterns() -> (r: Vec<String>)
    ensures
        views_of(r@) == default_ignore_views(),
{
    let mut r: Vec<String> = Vec::new();
    r.push("*.o".to_owned());
    r.push("*.obj".to_owned());
    r.push("*.exe".to_owned());
    r.push("*.dll".to_owned());
    r.push("*.so".to_owned());
    r.push("*.dylib".to_owned());
    r.push("*.a".to_owned());
    r.push("*.lib".to_owned());
    r.push("target/".to_owned());
    r.push("build/".to_owned());
    r.push("dist/".to_owned());
    r.push("node_modules/".to_owned());
    r.push(".git/".to_owned());
    r.push(".svn/".to_owned());
    r.push(".hg/".to_owned());
    proof {
        assert(views_of(r@) =~= default_ignore_views());
    }
    r
}

/// No include patterns by default: everything not ignored is kept.
pub fn default_include_patterns() -> (r: Vec<String>)
    ensures
        r@ == Seq::<String>::empty(),
{
    let r: Vec<String> = Vec::new();
    proof {
        assert(r@ =~= Seq::<String>::empty());
    }
    r
}

/// The default output directory.
pub fn default_output_directory() -> (r: Option<String>)
    ensures
        r matches Some(d) && d@ == "build"@,
{
    Some("build".to_owned())
}

/// Verbose output is off by default.
pub fn default_verbose_output() -> (r: bool)
    ensures
        !r,
{
    false
}

/// Auto-clean is off by default.
pub fn default_auto_clean() -> (r: bool)
    ensures
        !r,
{
    false
}

/// Watch mode is off by default.
pub fn default_watch_mode() -> (r: bool)
    ensures
        !r,
{
    false
}

/// Languages are enabled unless configured otherwise.
pub fn default_enabled() -> (r: bool)
    ensures
        r,
{
    true
}

/// No compiler path override by default.
pub fn default_compiler_path() -> (r: Option<String>)
    ensures
        r is None,
{
    None
}

/// No output format by default.
pub fn default_output_format() -> (r: Option<String>)
    ensures
        r is None,
{
    None
}

/// The default per-language settings entries.
pub fn default_language_settings() -> (r: Vec<(String, LanguageConfig)>)
    ensures
        r@.len() == 4,
        keys_unique(r@),
        r@[0].0@ == "c"@,
        lc_is(r@[0].1, true, seq!["-Wall"@, "-Wextra"@, "-std=c99"@], Some("o"@)),
        r@[1].0@ == "cpp"@,
        lc_is(r@[1].1, true, seq!["-Wall"@, "-Wextra"@, "-std=c++17"@], Some("o"@)),
        r@[2].0@ == "rust"@,
        lc_is(r@[2].1, true, seq!["--release"@], None),
        r@[3].0@ == "go"@,
        lc_is(r@[3].1, true, seq!["-ldflags=-s"@, "-ldflags=-w"@], None),
{
    let mut r: Vec<(String, LanguageConfig)> = Vec::new();
    let mut c_flags: Vec<String> = Vec::new();
    c_flags.push("-Wall".to_owned());
    c_flags.push("-Wextra".to_owned());
    c_flags.push("-std=c99".to_owned());
    proof {
        assert(views_of(c_flags@) =~= seq!["-Wall"@, "-Wextra"@, "-std=c99"@]);
    }
    r.push(
        (
            "c".to_owned(),
            LanguageConfig {
                enabled: true,
                compiler_path: None,
                compiler_flags: c_flags,
                output_format: Some("o".to_owned()),
            },
        ),
    );
    let mut cpp_flags: Vec<String> = Vec::new();
    cpp_flags.push("-Wall".to_owned());
    cpp_flags.push("-Wextra".to_owned());
    cpp_flags.push("-std=c++17".to_owned());
    proof {
        assert(views_of(cpp_flags@) =~= seq!["-Wall"@, "-Wextra"@, "-std=c++17"@]);
    }
    r.push(
        (
            "cpp".to_owned(),
            LanguageConfig {
                enabled: true,
                compiler_path: None,
                compiler_flags: cpp_flags,
                output_format: Some("o".to_owned()),
            },
        ),
    );
    let mut rust_flags: Vec<String> = Vec::new();
    rust_flags.push("--release".to_owned());
    proof {
        assert(views_of(rust_flags@) =~= seq!["--release"@]);
    }
    r.push(
        (
            "rust".to_owned(),
            LanguageConfig {
                enabled: true,
                compiler_path: None,
                compiler_flags: rust_flags,
                output_format: None,
            },
        ),
    );
    let mut go_flags: Vec<String> = Vec::new();
    go_flags.push("-ldflags=-s".to_owned());
    go_flags.push("-ldflags=-w".to_owned());
    proof {
        assert(views_of(go_flags@) =~= seq!["-ldflags=-s"@, "-ldflags=-w"@]);
    }
    r.push(
        (
            "go".to_owned(),
            LanguageConfig {
                enabled: true,
                compiler_path: None,
                compiler_flags: go_flags,
                output_format: None,
            },
        ),
    );
    proof {
        reveal_strlit("c");
        reveal_strlit("cpp");
        reveal_strlit("rust");
        reveal_strlit("go");
        assert("c"@.len() == 1 && "go"@.len() == 2 && "cpp"@.len() == 3 && "rust"@.len() == 4);
        assert forall|p: int, q: int|
            0 <= p < q < r@.len() implies (#[trigger] r@[p]).0@ != (#[trigger] r@[q]).0@ by {
            assert(r@.len() == 4);
        }
        assert(keys_unique(r@));
    }
    r
}

impl Default for Config {
    /// The defaults used when no configuration file exists.
    fn default() -> (c: Config)
        ensures
            c.wf(),
            1 <= c.parallel_jobs,
            pair_views(c.compiler_flags@) == default_flag_pairs(),
            views_of(c.ignore_patterns@) == default_ignore_views(),
            c.include_patterns@ == Seq::<String>::empty(),
            c.output_directory matches Some(d) && d@ == "build"@,
            !c.verbose_output,
            !c.auto_clean,
            !c.watch_mode,
            c.language_settings@.len() == 4,
            c.language_settings@[0].0@ == "c"@,
            lc_is(c.language_settings@[0].1, true, seq!["-Wall"@, "-Wextra"@, "-std=c99"@], Some("o"@)),
            c.language_settings@[1].0@ == "cpp"@,
            lc_is(
                c.language_settings@[1].1,
                true,
                seq!["-Wall"@, "-Wextra"@, "-std=c++17"@],
                Some("o"@),
            ),
            c.language_settings@[2].0@ == "rust"@,
            lc_is(c.language_settings@[2].1, true, seq!["--release"@], None),
            c.language_settings@[3].0@ == "go"@,
            lc_is(c.language_settings@[3].1, true, seq!["-ldflags=-s"@, "-ldflags=-w"@], None),
    {
        Config {
            parallel_jobs: default_parallel_jobs(),
            compiler_flags: default_compiler_flags(),
            ignore_patterns: default_ignore_patterns(),
            include_patterns: default_include_patterns(),
            output_directory: default_output_directory(),
            verbose_output: default_verbose_output(),
            auto_clean: default_auto_clean(),
            watch_mode: default_watch_mode(),
            language_settings: default_language_settings(),
        }
    }
}

impl Default for LanguageConfig {
    /// A fresh settings entry: enabled, with no overrides.
    fn default() -> (c: LanguageConfig)
        ensures
            c.enabled,
            c.compiler_path is None,
            c.compiler_flags@ == Seq::<String>::empty(),
            c.output_format is None,
    {
        LanguageConfig {
            enabled: default_enabled(),
            compiler_path: default_compiler_path(),
            compiler_flags: default_compiler_flags_vec(),
            output_format: default_output_format(),
        }
    }
}

} // verus!
