//! The dispatcher's verified core. Running external compilers is left to
//! the caller; everything it decides is here: which custom flags apply,
//! how one finished process is judged, how per-file outcomes fold into the
//! all-or-nothing group result, how many jobs may run at once, and the
//! process exit code.

use vstd::prelude::*;

verus! {

use vstd::string::*;
use crate::args::Args;
use crate::config::Config;
use crate::language_support::Language;
use crate::text::{join_lines, join_with_newlines, lemma_take_succ};

/// The resolved outcome of one file's build process.
#[derive(Debug, Clone)]
pub enum FileOutcome {
    /// The process exited with code zero; its combined output is kept.
    Succeeded {
        /// Captured stdout and stderr, combined.
        output: String,
    },
    /// The process exited non-zero (or could not be run).
    Failed {
        /// The error text: stderr, else stdout, else a fixed fallback.
        error: String,
    },
}

/// The aggregate status of one language group.
#[derive(Debug)]
pub enum CompilationStatus {
    /// Every file of the group succeeded.
    Success {
        /// The non-empty per-file outputs, joined with newlines.
        output: String,
    },
    /// At least one file of the group failed.
    Failure {
        /// The per-file error texts, joined with newlines.
        error: String,
    },
}

/// The result of building one language group.
#[derive(Debug)]
pub struct CompilationResult {
    /// The group's language.
    pub language: Language,
    /// The files whose own build succeeded, in input order.
    pub files: Vec<String>,
    /// The group's all-or-nothing status.
    pub status: CompilationStatus,
}

/// Whether a group status reports failure.
pub open spec fn is_failure(s: CompilationStatus) -> bool {
    match s {
        CompilationStatus::Failure { .. } => true,
        CompilationStatus::Success { .. } => false,
    }
}

/// Whether an outcome reports failure.
pub open spec fn outcome_failed(o: FileOutcome) -> bool {
    match o {
        FileOutcome::Failed { .. } => true,
        FileOutcome::Succeeded { .. } => false,
    }
}

/// Some outcome in the list reports failure.
pub open spec fn any_failed(outs: Seq<FileOutcome>) -> bool {
    exists|i: int| 0 <= i < outs.len() && outcome_failed(outs[i])
}

/// The files whose outcome succeeded, in order.
pub open spec fn successes(files: Seq<String>, outs: Seq<FileOutcome>) -> Seq<String>
    decreases files.len(),
{
    if files.len() == 0 || outs.len() == 0 {
        Seq::empty()
    } else {
        successes(files.drop_last(), outs.drop_last()) + (if outcome_failed(outs.last()) {
            Seq::empty()
        } else {
            seq![files.last()]
        })
    }
}

/// The error texts of the failed outcomes, in order.
pub open spec fn failure_texts(outs: Seq<FileOutcome>) -> Seq<String>
    decreases outs.len(),
{
    if outs.len() == 0 {
        Seq::empty()
    } else {
        failure_texts(outs.drop_last()) + (match outs.last() {
            FileOutcome::Failed { error } => seq![error],
            FileOutcome::Succeeded { .. } => Seq::empty(),
        })
    }
}

/// The non-empty outputs of the successful outcomes, in order.
pub open spec fn output_texts(outs: Seq<FileOutcome>) -> Seq<String>
    decreases outs.len(),
{
    if outs.len() == 0 {
        Seq::empty()
    } else {
        output_texts(outs.drop_last()) + (match outs.last() {
            FileOutcome::Succeeded { output } => if output@.len() > 0 {
                seq![output]
            } else {
                Seq::empty()
            },
            FileOutcome::Failed { .. } => Seq::empty(),
        })
    }
}

/// Captured stdout and stderr combined: whichever is non-empty, with a
/// newline between them when both are.
pub open spec fn combined_output(stdout: Seq<char>, stderr: Seq<char>) -> Seq<char> {
    if stdout.len() == 0 {
        stderr
    } else if stderr.len() == 0 {
        stdout
    } else {
        stdout + "\n"@ + stderr
    }
}

/// The error text of a failed process: stderr, else stdout, else a fixed
/// fallback.
pub open spec fn error_text_of(stdout: Seq<char>, stderr: Seq<char>) -> Seq<char> {
    if stderr.len() > 0 {
        stderr
    } else if stdout.len() > 0 {
        stdout
    } else {
        "Unknown compilation error"@
    }
}

proof fn lemma_any_failed_take_succ(outs: Seq<FileOutcome>, i: int)
    requires
        0 <= i < outs.len(),
    ensures
        any_failed(outs.take(i + 1)) == (any_failed(outs.take(i)) || outcome_failed(outs[i])),
{
    let a = outs.take(i);
    let b = outs.take(i + 1);
    if any_failed(b) {
        let j = choose|j: int| 0 <= j < b.len() && outcome_failed(b[j]);
        if j < i {
            assert(outcome_failed(a[j]));
        } else {
            assert(outcome_failed(outs[i]));
        }
    }
    if any_failed(a) {
        let j = choose|j: int| 0 <= j < a.len() && outcome_failed(a[j]);
        assert(outcome_failed(b[j]));
    }
    if outcome_failed(outs[i]) {
        assert(outcome_failed(b[i]));
    }
}

/// The dispatcher over one run's language groups.
pub struct Compiler {
    /// How many build jobs may run at once.
    pub max_jobs: usize,
}

impl Compiler {
    /// A dispatcher bounded at `max_jobs` concurrent builds.
    pub fn new(_config: Config, max_jobs: usize) -> (r: Self)
        ensures
            r.max_jobs == max_jobs,
    {
        Compiler { max_jobs }
    }

    /// A fresh admission gate at this dispatcher's bound.
    pub fn job_limiter(&self) -> (r: JobLimiter)
        ensures
            r.max_jobs == self.max_jobs,
            r.running == 0,
            r.wf(),
    {
        JobLimiter::new(self.max_jobs)
    }

    /// The custom flag string that applies to a language: the C flags for
    /// C, the C++ flags for C++, nothing otherwise.
    pub fn get_custom_flags(&self, language: &Language, args: &Args) -> (r: Option<String>)
        ensures
            *language is C ==> r == args.cflags,
            *language is Cpp ==> r == args.cxxflags,
            !(*language is C || *language is Cpp) ==> r is None,
    {
        match language {
            Language::C => match &args.cflags {
                Some(s) => Some(s.clone()),
                None => None,
            },
            Language::Cpp => match &args.cxxflags {
                Some(s) => Some(s.clone()),
                None => None,
            },
            _ => None,
        }
    }

    /// Captured stdout and stderr combined, as kept for a successful file.
    pub fn format_output(&self, stdout: &str, stderr: &str) -> (r: String)
        ensures
            r@ == combined_output(stdout@, stderr@),
    {
        if stdout.is_empty() {
            stderr.to_owned()
        } else if stderr.is_empty() {
            stdout.to_owned()
        } else {
            stdout.to_owned().concat("\n").concat(stderr)
        }
    }

    /// The error text of a failed process: stderr, else stdout, else a
    /// fixed fallback.
    pub fn format_error(&self, stdout: &str, stderr: &str) -> (r: String)
        ensures
            r@ == error_text_of(stdout@, stderr@),
    {
        if !stderr.is_empty() {
            stderr.to_owned()
        } else if !stdout.is_empty() {
            stdout.to_owned()
        } else {
            "Unknown compilation error".to_owned()
        }
    }

    /// Judges one finished build process: exit code zero is success
    /// whatever stderr holds; otherwise the error text is stderr, falling
    /// back to stdout, falling back to a fixed string.
    pub fn file_outcome(&self, exit_ok: bool, stdout: &str, stderr: &str) -> (r: FileOutcome)
        ensures
            exit_ok ==> (r matches FileOutcome::Succeeded { output } && output@ == combined_output(
                stdout@,
                stderr@,
            )),
            !exit_ok ==> (r matches FileOutcome::Failed { error } && error@ == error_text_of(
                stdout@,
                stderr@,
            )),
    {
        if exit_ok {
            FileOutcome::Succeeded { output: self.format_output(stdout, stderr) }
        } else {
            FileOutcome::Failed { error: self.format_error(stdout, stderr) }
        }
    }

    /// Folds per-file outcomes into the group result: the files whose own
    /// build succeeded are all recorded, and the status is all-or-nothing —
    /// Failure exactly when at least one file failed.
    pub fn group_result(&self, language: Language, files: Vec<String>, outcomes: Vec<FileOutcome>)
        -> (r: CompilationResult)
        requires
            files@.len() == outcomes@.len(),
        ensures
            r.language == language,
            r.files@ == successes(files@, outcomes@),
            is_failure(r.status) <==> any_failed(outcomes@),
            r.status matches CompilationStatus::Failure { error } ==> error@ == join_lines(
                failure_texts(outcomes@),
            ),
            r.status matches CompilationStatus::Success { output } ==> output@ == join_lines(
                output_texts(outcomes@),
            ),
    {
        let n = files.len();
        let mut succ: Vec<String> = Vec::new();
        let mut errs: Vec<String> = Vec::new();
        let mut outs: Vec<String> = Vec::new();
        let mut failed = false;
        proof {
            assert(files@.take(0) =~= Seq::<String>::empty());
            assert(outcomes@.take(0) =~= Seq::<FileOutcome>::empty());
        }
        let mut i: usize = 0;
        while i < n
            invariant
                i <= n,
                n == files@.len(),
                n == outcomes@.len(),
                succ@ == successes(files@.take(i as int), outcomes@.take(i as int)),
                errs@ == failure_texts(outcomes@.take(i as int)),
                outs@ == output_texts(outcomes@.take(i as int)),
                failed == any_failed(outcomes@.take(i as int)),
            decreases n - i,
        {
            proof {
                lemma_take_succ(files@, i as int);
                lemma_take_succ(outcomes@, i as int);
                lemma_any_failed_take_succ(outcomes@, i as int);
            }
            match &outcomes[i] {
                FileOutcome::Succeeded { output } => {
                    if output.as_str().unicode_len() > 0 {
                        outs.push(output.clone());
                    }
                    succ.push(files[i].clone());
                },
                FileOutcome::Failed { error } => {
                    errs.push(error.clone());
                    failed = true;
                },
            }
            proof {
                assert(succ@ =~= successes(files@.take(i + 1), outcomes@.take(i + 1)));
                assert(errs@ =~= failure_texts(outcomes@.take(i + 1)));
                assert(outs@ =~= output_texts(outcomes@.take(i + 1)));
            }
            i += 1;
        }
        proof {
            assert(files@.take(n as int) =~= files@);
            assert(outcomes@.take(n as int) =~= outcomes@);
        }
        let status = if failed {
            CompilationStatus::Failure { error: join_with_newlines(&errs) }
        } else {
            CompilationStatus::Success { output: join_with_newlines(&outs) }
        };
        CompilationResult { language, files: succ, status }
    }
}

/// The dispatcher's admission gate: a counting semaphore of fixed
/// capacity, tracked as the number of permits out. The number of builds
/// running at once never exceeds the capacity.
pub struct JobLimiter {
    /// The capacity: the global concurrency bound.
    pub max_jobs: usize,
    /// How many permits are out.
    pub running: usize,
}

impl JobLimiter {
    /// The concurrency bound holds.
    pub open spec fn wf(self) -> bool {
        self.running <= self.max_jobs
    }

    /// A gate of the given capacity with no permit out.
    pub fn new(max_jobs: usize) -> (r: Self)
        ensures
            r.max_jobs == max_jobs,
            r.running == 0,
            r.wf(),
    {
        JobLimiter { max_jobs, running: 0 }
    }

    /// Takes one permit when one is free; never lets `running` pass the
    /// capacity.
    pub fn try_acquire(&mut self) -> (ok: bool)
        requires
            old(self).wf(),
        ensures
            final(self).wf(),
            final(self).max_jobs == old(self).max_jobs,
            ok ==> old(self).running < old(self).max_jobs && final(self).running == old(
                self,
            ).running + 1,
            !ok ==> final(self).running == old(self).running && old(self).running == old(
                self,
            ).max_jobs,
    {
        if self.running < self.max_jobs {
            self.running = self.running + 1;
            true
        } else {
            false
        }
    }

    /// Returns one permit.
    pub fn release(&mut self)
        requires
            old(self).running > 0,
        ensures
            final(self).max_jobs == old(self).max_jobs,
            final(self).running == old(self).running - 1,
            old(self).wf() ==> final(self).wf(),
    {
        self.running = self.running - 1;
    }
}

/// Every group of the run succeeded.
pub open spec fn all_succeeded(rs: Seq<CompilationResult>) -> bool {
    forall|i: int| 0 <= i < rs.len() ==> !is_failure((#[trigger] rs[i]).status)
}

/// The process exit code: zero exactly when every group succeeded, one
/// otherwise.
pub fn exit_code(results: &Vec<CompilationResult>) -> (code: i32)
    ensures
        (code == 0) <==> all_succeeded(results@),
        code == 0 || code == 1,
{
    let mut i: usize = 0;
    while i < results.len()
        invariant
            i <= results@.len(),
            forall|j: int| 0 <= j < i ==> !is_failure((#[trigger] results@[j]).status),
        decreases results@.len() - i,
    {
        match &results[i].status {
            CompilationStatus::Failure { .. } => {
                return 1;
            },
            CompilationStatus::Success { .. } => {},
        }
        i += 1;
    }
    0
}

} // verus!
