//! The decisions of the job runner: which commits' code a job needs, which charts a
//! profiling job draws, when a commit must be switched in and compiled, and how the
//! results of the runs become a report. The runner itself (processes, files, the cache)
//! performs what these functions decide.

use vstd::prelude::*;
use crate::data_types::{
    Algorithm, ExperimentChart, JobResult, Report, TeeBenchWebError, TeebenchArgs, REPLACE_ALG,
};
use crate::profiling::{JobConfig, ProfilingConfiguration};
use crate::text::{decimal_int, i64_to_string, join_strings, joined};
use std::collections::HashMap;

verus! {

/// The report of a finished command: whether it succeeded (and its exit code where it
/// failed), then its standard output and standard error between markers.
pub open spec fn command_output_text(cmd: Seq<char>, success: bool, code: Option<i32>, stdout: Seq<char>, stderr: Seq<char>) -> Seq<char> {
    "Command `"@ + cmd + "` "@
        + (if success {
            "succeeded with:\n"@
        } else {
            "failed (returned "@ + (match code {
                Some(c) => "Some("@ + decimal_int(c as int) + ")"@,
                None => "None"@,
            }) + ") with:\n"@
        })
        + "---STDOUT---\n"@ + stdout + "---STDERR---\n"@ + stderr + "---END---\n"@
}

/// Reports the outcome and output of the command `cmd`.
pub fn display_command_output(success: bool, code: Option<i32>, stdout: &str, stderr: &str, cmd: &str) -> (r: String)
    ensures
        r@ == command_output_text(cmd@, success, code, stdout@, stderr@),
{
    let mut res = String::from_str("Command `").concat(cmd).concat("` ");
    if success {
        res.append("succeeded with:\n");
    } else {
        let code_text = match code {
            Some(c) => {
                let n = i64_to_string(c as i64);
                String::from_str("Some(").concat(n.as_str()).concat(")")
            },
            None => String::from_str("None"),
        };
        res.append("failed (returned ");
        res.append(code_text.as_str());
        res.append(") with:\n");
    }
    res.append("---STDOUT---\n");
    res.append(stdout);
    res.append("---STDERR---\n");
    res.append(stderr);
    res.append("---END---\n");
    res
}

/// The file of the TeeBench tree that a commit's code replaces.
pub const REPLACE_FILE: &'static str = "Joins/TBW/OperatorJoin.cpp";

/// The folder of the TeeBench tree that the built executables are copied to and run in.
pub const BIN_FOLDER: &'static str = "bin";

/// The enclave library that the SGX build produces.
pub const ENCLAVE_NAME: &'static str = "enclave.signed.so";

/// The error of a `make clean` that failed.
pub const MAKE_CLEAN_FAILED: &'static str = "`make clean` failed!";

/// The commands that build a commit's code and try it out, in the order they run.
#[derive(Debug, Clone, Copy, PartialEq, Eq, Structural)]
pub enum BuildCommand {
    /// Build the native executable.
    MakeNative,
    /// Run the native executable on the commit's operator.
    RunNative,
    /// Build the SGX executable and enclave.
    MakeSgx,
    /// Run the SGX executable on the commit's operator.
    RunSgx,
}

impl BuildCommand {
    /// The program and its arguments.
    pub open spec fn words(self) -> Seq<Seq<char>> {
        match self {
            BuildCommand::MakeNative => seq!["make"@, "native"@, "CFLAGS=-DNATIVE_COMPILATION"@],
            BuildCommand::RunNative => seq!["./native"@, "-a"@, REPLACE_ALG@],
            BuildCommand::MakeSgx => seq![
                "make"@,
                "sgx"@,
                "SGX_DEBUG=1"@,
                "SGX_PRERELEASE=0"@,
                "SGX_MODE=HW"@,
                "CFLAGS=-DPCM_COUNT -DSGX_COUNTERS"@,
            ],
            BuildCommand::RunSgx => seq!["./sgx"@, "-a"@, REPLACE_ALG@],
        }
    }

    /// What a failure of the command is reported with, ahead of the output so far.
    pub open spec fn failure_prefix(self) -> Seq<char> {
        match self {
            BuildCommand::MakeNative => "Failed to compile native version:\n"@,
            BuildCommand::RunNative => "Running native example failed with:\n"@,
            BuildCommand::MakeSgx => "Failed to compile SGX version:\n"@,
            BuildCommand::RunSgx => "Running SGX example failed with:\n"@,
        }
    }

    /// The program and its arguments.
    pub fn to_words(&self) -> (r: Vec<&'static str>)
        ensures
            r@.map_values(|w: &str| w@) == self.words(),
    {
        let r: Vec<&'static str> = match self {
            BuildCommand::MakeNative => vec!["make", "native", "CFLAGS=-DNATIVE_COMPILATION"],
            BuildCommand::RunNative => vec!["./native", "-a", REPLACE_ALG],
            BuildCommand::MakeSgx => vec![
                "make",
                "sgx",
                "SGX_DEBUG=1",
                "SGX_PRERELEASE=0",
                "SGX_MODE=HW",
                "CFLAGS=-DPCM_COUNT -DSGX_COUNTERS",
            ],
            BuildCommand::RunSgx => vec!["./sgx", "-a", REPLACE_ALG],
        };
        assert(r@.map_values(|w: &str| w@) =~= self.words());
        r
    }

    /// The command as the build log shows it: its words separated by spaces.
    pub fn to_string(&self) -> (r: String)
        ensures
            r@ == joined(self.words(), seq![' ']),
    {
        let words = self.to_words();
        let mut v: Vec<String> = Vec::new();
        let mut i: usize = 0;
        while i < words.len()
            invariant
                i <= words@.len(),
                v.deep_view() == words@.map_values(|w: &str| w@).subrange(0, i as int),
            decreases words@.len() - i,
        {
            let ghost before = v.deep_view();
            let w = String::from_str(words[i]);
            v.push(w);
            assert(v.deep_view() =~= before.push(w@));
            assert(words@.map_values(|w: &str| w@).subrange(0, i + 1) =~= words@.map_values(|w: &str| w@).subrange(0, i as int).push(w@));
            i = i + 1;
        }
        assert(words@.map_values(|w: &str| w@).subrange(0, words@.len() as int) =~= words@.map_values(|w: &str| w@));
        proof {
            reveal_strlit(" ");
            assert(" "@ =~= seq![' ']);
        }
        join_strings(&v, " ")
    }

    /// The build log after the command finished: the log so far with the command's report
    /// appended; an error holding the failure's prefix and that log where the command failed.
    pub open spec fn logged(self, log: Seq<char>, success: bool, code: Option<i32>, stdout: Seq<char>, stderr: Seq<char>) -> Result<Seq<char>, Seq<char>> {
        let log = log + command_output_text(joined(self.words(), seq![' ']), success, code, stdout, stderr);
        if success {
            Ok(log)
        } else {
            Err(self.failure_prefix() + log)
        }
    }

    /// Appends the report of the finished command to the build log; where the command
    /// failed, the build fails with its prefix and the log.
    pub fn log_output(&self, log: String, success: bool, code: Option<i32>, stdout: &str, stderr: &str) -> (r: Result<String, String>)
        ensures
            match r {
                Ok(l) => self.logged(log@, success, code, stdout@, stderr@) == Ok::<Seq<char>, Seq<char>>(l@),
                Err(e) => self.logged(log@, success, code, stdout@, stderr@) == Err::<Seq<char>, Seq<char>>(e@),
            },
    {
        let text = self.to_string();
        let report = display_command_output(success, code, stdout, stderr, text.as_str());
        let log = log.concat(report.as_str());
        if success {
            Ok(log)
        } else {
            let prefix = match self {
                BuildCommand::MakeNative => "Failed to compile native version:\n",
                BuildCommand::RunNative => "Running native example failed with:\n",
                BuildCommand::MakeSgx => "Failed to compile SGX version:\n",
                BuildCommand::RunSgx => "Running SGX example failed with:\n",
            };
            Err(String::from_str(prefix).concat(log.as_str()))
        }
    }
}

/// The algorithms whose code a job needs: those of a profiling job, the commit of a
/// performance report (after its baseline where that is another commit), the commit to
/// compile.
pub open spec fn job_algorithms(conf: JobConfig) -> Seq<Algorithm> {
    match conf {
        JobConfig::Profiling(c) => c.algorithm@,
        JobConfig::PerfReport(c) => if c.baseline is Commit && c.baseline != Algorithm::Commit(c.id) {
            seq![c.baseline, Algorithm::Commit(c.id)]
        } else {
            seq![Algorithm::Commit(c.id)]
        },
        JobConfig::Compile(id) => seq![Algorithm::Commit(id)],
    }
}

impl JobConfig {
    /// The algorithms whose code the job needs.
    pub fn used_algorithms(&self) -> (r: Vec<Algorithm>)
        ensures
            r@ == job_algorithms(*self),
    {
        let mut r: Vec<Algorithm> = Vec::new();
        match self {
            JobConfig::Profiling(c) => {
                let mut i: usize = 0;
                assert(c.algorithm@.subrange(0, c.algorithm@.len() as int) =~= c.algorithm@);
                while i < c.algorithm.len()
                    invariant
                        i <= c.algorithm@.len(),
                        r@ == c.algorithm@.subrange(0, i as int),
                    decreases c.algorithm@.len() - i,
                {
                    r.push(c.algorithm[i]);
                    i = i + 1;
                }
                assert(c.algorithm@.subrange(0, c.algorithm@.len() as int) =~= c.algorithm@);
            },
            JobConfig::PerfReport(c) => {
                if c.baseline.is_commit() && c.baseline != Algorithm::Commit(c.id) {
                    r.push(c.baseline);
                }
                r.push(Algorithm::Commit(c.id));
                assert(r@ =~= job_algorithms(*self));
            },
            JobConfig::Compile(id) => {
                r.push(Algorithm::Commit(*id));
                assert(r@ =~= job_algorithms(*self));
            },
        }
        r
    }
}

/// The first commit among `algs`.
pub open spec fn first_commit(algs: Seq<Algorithm>) -> Option<Algorithm>
    decreases algs.len(),
{
    if algs.len() == 0 {
        None
    } else if algs[0] is Commit {
        Some(algs[0])
    } else {
        first_commit(algs.drop_first())
    }
}

/// The commit whose code the placeholder algorithm of a job's command lines stands for:
/// the commit of a performance report or of a compile job, the first commit among the
/// algorithms of a profiling job.
pub open spec fn job_commit(conf: JobConfig) -> Option<Algorithm> {
    match conf {
        JobConfig::Profiling(c) => first_commit(c.algorithm@),
        JobConfig::PerfReport(c) => Some(Algorithm::Commit(c.id)),
        JobConfig::Compile(id) => Some(Algorithm::Commit(id)),
    }
}

impl JobConfig {
    /// The commit whose code the placeholder algorithm of the job's command lines stands for.
    pub fn replaced_commit(&self) -> (r: Option<Algorithm>)
        ensures
            r == job_commit(*self),
    {
        match self {
            JobConfig::Profiling(c) => {
                let mut i: usize = 0;
                assert(c.algorithm@.subrange(0, c.algorithm@.len() as int) =~= c.algorithm@);
                while i < c.algorithm.len()
                    invariant
                        i <= c.algorithm@.len(),
                        first_commit(c.algorithm@) == first_commit(c.algorithm@.subrange(i as int, c.algorithm@.len() as int)),
                        job_commit(*self) == first_commit(c.algorithm@),
                    decreases c.algorithm@.len() - i,
                {
                    let ghost rest = c.algorithm@.subrange(i as int, c.algorithm@.len() as int);
                    assert(rest.drop_first() =~= c.algorithm@.subrange(i + 1, c.algorithm@.len() as int));
                    assert(rest[0] == c.algorithm@[i as int]);
                    if c.algorithm[i].is_commit() {
                        assert(rest.len() > 0 && rest[0] is Commit);
                        assert(first_commit(rest) == Some(rest[0]));
                        return Some(c.algorithm[i]);
                    }
                    i = i + 1;
                }
                None
            },
            JobConfig::PerfReport(c) => Some(Algorithm::Commit(c.id)),
            JobConfig::Compile(id) => Some(Algorithm::Commit(*id)),
        }
    }
}

/// The algorithm that a run of a job runs, from the algorithm its command line reads back
/// as: a commit there stands for the job's commit, where the job has one.
pub open spec fn run_algorithm_of(read: Algorithm, commit: Option<Algorithm>) -> Algorithm {
    match commit {
        Some(c) => if read is Commit { c } else { read },
        None => read,
    }
}

/// The algorithm that a run of a job runs, from the algorithm its command line reads back as.
pub fn run_algorithm(read: Algorithm, commit: Option<Algorithm>) -> (r: Algorithm)
    ensures
        r == run_algorithm_of(read, commit),
{
    match commit {
        Some(c) => if read.is_commit() { c } else { read },
        None => read,
    }
}

/// Whether running `alg` first needs the commit's code switched in and compiled: it is a
/// commit other than the one switched in.
pub open spec fn must_compile(alg: Algorithm, switched_in: Option<Algorithm>) -> bool {
    alg is Commit && switched_in != Some(alg)
}

/// Whether running `alg` first needs the commit's code switched in and compiled.
pub fn needs_compile(alg: Algorithm, switched_in: Option<Algorithm>) -> (r: bool)
    ensures
        r == must_compile(alg, switched_in),
{
    match switched_in {
        Some(s) => alg.is_commit() && s != alg,
        None => alg.is_commit(),
    }
}

/// The first error among the results of the charts, in order.
pub open spec fn report_outcome(charts: Seq<Seq<Result<(), TeeBenchWebError>>>) -> Option<TeeBenchWebError>
    decreases charts.len(),
{
    if charts.len() == 0 {
        None
    } else {
        match first_error(charts[0]) {
            Some(e) => Some(e),
            None => report_outcome(charts.drop_first()),
        }
    }
}

/// The first error among `runs`.
pub open spec fn first_error(runs: Seq<Result<(), TeeBenchWebError>>) -> Option<TeeBenchWebError>
    decreases runs.len(),
{
    if runs.len() == 0 {
        None
    } else {
        match runs[0] {
            Err(e) => Some(e),
            Ok(_) => first_error(runs.drop_first()),
        }
    }
}

/// A run of a chart with its raw results or its error.
pub type RunResult = (TeebenchArgs, Result<HashMap<String, String>, TeeBenchWebError>);

/// The text of an optional string.
pub open spec fn text_view(o: Option<String>) -> Option<Seq<char>> {
    match o {
        Some(s) => Some(s@),
        None => None,
    }
}

/// Whether two runs have the same arguments, field by field (paths by their text).
pub open spec fn same_args(a: TeebenchArgs, b: TeebenchArgs) -> bool {
    &&& a.app_name == b.app_name
    &&& a.dataset == b.dataset
    &&& a.algorithm == b.algorithm
    &&& a.threads == b.threads
    &&& a.selectivity == b.selectivity
    &&& a.data_skew == b.data_skew
    &&& a.seal_chunk_size == b.seal_chunk_size
    &&& a.r_tuples == b.r_tuples
    &&& a.s_tuples == b.s_tuples
    &&& text_view(a.r_path) == text_view(b.r_path)
    &&& text_view(a.s_path) == text_view(b.s_path)
    &&& a.r_size == b.r_size
    &&& a.s_size == b.s_size
    &&& a.seal == b.seal
    &&& a.sort_r == b.sort_r
    &&& a.sort_s == b.sort_s
    &&& a.csv == b.csv
}

/// Whether two optional strings hold the same text.
fn same_text(a: &Option<String>, b: &Option<String>) -> (r: bool)
    ensures
        r == (text_view(*a) == text_view(*b)),
{
    match (a, b) {
        (Some(x), Some(y)) => crate::text::str_eq(x.as_str(), y.as_str()),
        (None, None) => true,
        _ => false,
    }
}

/// Whether two runs have the same arguments.
pub fn args_match(a: &TeebenchArgs, b: &TeebenchArgs) -> (r: bool)
    ensures
        r == same_args(*a, *b),
{
    a.app_name == b.app_name && a.dataset == b.dataset && a.algorithm == b.algorithm && a.threads == b.threads
        && a.selectivity == b.selectivity && a.data_skew == b.data_skew && a.seal_chunk_size == b.seal_chunk_size
        && a.r_tuples == b.r_tuples && a.s_tuples == b.s_tuples && same_text(&a.r_path, &b.r_path)
        && same_text(&a.s_path, &b.s_path) && opt_u32_eq(a.r_size, b.r_size) && opt_u32_eq(a.s_size, b.s_size)
        && a.seal == b.seal && a.sort_r == b.sort_r && a.sort_s == b.sort_s && a.csv == b.csv
}

/// Whether two optional numbers are equal.
fn opt_u32_eq(a: Option<u32>, b: Option<u32>) -> (r: bool)
    ensures
        r == (a == b),
{
    match (a, b) {
        (Some(x), Some(y)) => x == y,
        (None, None) => true,
        _ => false,
    }
}

/// Position of the first run in `runs` with the same arguments as `a`.
pub open spec fn position_of_args(runs: Seq<RunResult>, a: TeebenchArgs) -> Option<int>
    decreases runs.len(),
{
    if runs.len() == 0 {
        None
    } else {
        match position_of_args(runs.drop_last(), a) {
            Some(p) => Some(p),
            None => if same_args(runs.last().0, a) { Some(runs.len() - 1) } else { None },
        }
    }
}

/// Where `position_of_args` finds a run, it has the same arguments and none before it
/// does; it finds none exactly where no run has them.
proof fn lemma_position_of_args(runs: Seq<RunResult>, a: TeebenchArgs)
    ensures
        position_of_args(runs, a) matches Some(p) ==> 0 <= p < runs.len() && same_args(runs[p].0, a)
            && forall|m: int| 0 <= m < p ==> !same_args((#[trigger] runs[m]).0, a),
        position_of_args(runs, a) is None <==> forall|m: int| 0 <= m < runs.len() ==> !same_args((#[trigger] runs[m]).0, a),
    decreases runs.len(),
{
    if runs.len() > 0 {
        let q = runs.drop_last();
        let n = runs.len() - 1;
        lemma_position_of_args(q, a);
        assert(forall|m: int| 0 <= m < q.len() ==> (#[trigger] runs[m]) == q[m]);
        match position_of_args(q, a) {
            Some(p) => {
                assert(runs[p] == q[p]);
            },
            None => {
                if same_args(runs[n].0, a) {
                    assert(runs.last() == runs[n]);
                } else {
                    assert forall|m: int| 0 <= m < runs.len() implies !same_args((#[trigger] runs[m]).0, a) by {
                        if m < n {
                            assert(runs[m] == q[m]);
                        }
                    }
                }
            },
        }
    }
}

/// The runs of a chart as a map keyed by their arguments holds them: a run whose arguments
/// came before takes the place of the earlier one, others are added in order.
pub open spec fn keyed(runs: Seq<RunResult>) -> Seq<RunResult>
    decreases runs.len(),
{
    if runs.len() == 0 {
        Seq::empty()
    } else {
        let k = keyed(runs.drop_last());
        match position_of_args(k, runs.last().0) {
            Some(p) => k.update(p, runs.last()),
            None => k.push(runs.last()),
        }
    }
}

/// The runs of a chart kept by their arguments: one per arguments, in the order the
/// arguments first came, each with the last result given for them.
pub fn keyed_runs(runs: Vec<RunResult>) -> (r: Vec<RunResult>)
    ensures
        r@ == keyed(runs@),
{
    let ghost all = runs@;
    let mut runs = runs;
    let n = runs.len();
    let mut kept: Vec<RunResult> = Vec::new();
    let mut i: usize = 0;
    while i < n
        invariant
            i <= n,
            n == all.len(),
            runs@ == all.subrange(i as int, n as int),
            kept@ == keyed(all.subrange(0, i as int)),
        decreases n - i,
    {
        assert(runs@[0] == all[i as int]);
        let run = runs.remove(0);
        let ghost pre = kept@;
        let mut p: usize = 0;
        let mut found = false;
        while p < kept.len()
            invariant_except_break
                p <= kept@.len(),
                !found,
                forall|m: int| 0 <= m < p ==> !same_args((#[trigger] kept@[m]).0, run.0),
            invariant
                kept@ == pre,
            ensures
                found ==> p < kept@.len() && same_args(kept@[p as int].0, run.0)
                    && forall|m: int| 0 <= m < p ==> !same_args((#[trigger] kept@[m]).0, run.0),
                !found ==> forall|m: int| 0 <= m < kept@.len() ==> !same_args((#[trigger] kept@[m]).0, run.0),
            decreases kept@.len() - p,
        {
            if args_match(&kept[p].0, &run.0) {
                found = true;
                break;
            }
            p = p + 1;
        }
        proof {
            lemma_position_of_args(pre, run.0);
            let s = all.subrange(0, i + 1);
            assert(s.drop_last() =~= all.subrange(0, i as int));
            assert(s.last() == run);
            if found {
                if let Some(q) = position_of_args(pre, run.0) {
                    if q < p {
                        assert(!same_args(pre[q].0, run.0));
                    } else if p < q {
                        assert(!same_args(pre[p as int].0, run.0));
                    }
                }
            }
        }
        if found {
            kept.set(p, run);
        } else {
            kept.push(run);
        }
        i = i + 1;
    }
    assert(all.subrange(0, n as int) =~= all);
    kept
}

/// Everything that tells one run from another: every argument, with the paths by their
/// text.
pub open spec fn run_key(a: TeebenchArgs) -> (
    (crate::data_types::Platform, crate::data_types::Dataset, Algorithm, u8, u8, u32),
    (u32, u32, u32, Option<Seq<char>>, Option<Seq<char>>),
    (Option<u32>, Option<u32>, bool, bool, bool, bool),
) {
    (
        (a.app_name, a.dataset, a.algorithm, a.threads, a.selectivity, a.data_skew),
        (a.seal_chunk_size, a.r_tuples, a.s_tuples, text_view(a.r_path), text_view(a.s_path)),
        (a.r_size, a.s_size, a.seal, a.sort_r, a.sort_s, a.csv),
    )
}

/// Law: two runs count as the same run exactly when they agree on every argument (the
/// platform, dataset, algorithm, thread count, selectivity, skew, chunk size, tuple
/// counts, paths, sizes and flags); runs that differ in any one of them, the thread
/// count included, are different runs.
pub proof fn law_same_args_is_every_argument(a: TeebenchArgs, b: TeebenchArgs)
    ensures
        same_args(a, b) <==> run_key(a) == run_key(b),
        same_args(a, b) ==> a.threads == b.threads && a.algorithm == b.algorithm && a.dataset == b.dataset
            && a.app_name == b.app_name && a.selectivity == b.selectivity && a.data_skew == b.data_skew
            && a.r_tuples == b.r_tuples && a.s_tuples == b.s_tuples,
        same_args(a, a),
{
}

/// Whether some run of `kept` has the arguments of `a`.
pub open spec fn keeps_args(kept: Seq<RunResult>, a: TeebenchArgs) -> bool {
    exists|j: int| 0 <= j < kept.len() && run_key((#[trigger] kept[j]).0) == run_key(a)
}

/// Whether `r` is one of `runs`, and no run after it has its arguments.
pub open spec fn is_last_with_its_args(runs: Seq<RunResult>, r: RunResult) -> bool {
    exists|m: int| 0 <= m < runs.len() && #[trigger] runs[m] == r
        && forall|m2: int| m < m2 < runs.len() ==> run_key((#[trigger] runs[m2]).0) != run_key(r.0)
}

/// Law: the runs of a chart kept by their arguments keep every run's arguments, each kept
/// run is the last of the given runs with its arguments, and no two kept runs have the
/// same arguments: a chart holds exactly one result for each distinct set of arguments
/// among its runs, the one given last.
pub proof fn law_keyed_keeps_each_distinct_run(runs: Seq<RunResult>)
    ensures
        forall|i: int| 0 <= i < runs.len() ==> keeps_args(keyed(runs), (#[trigger] runs[i]).0),
        forall|j: int| 0 <= j < keyed(runs).len() ==> is_last_with_its_args(runs, #[trigger] keyed(runs)[j]),
        forall|j: int, k: int| 0 <= j < k < keyed(runs).len()
            ==> run_key((#[trigger] keyed(runs)[j]).0) != run_key((#[trigger] keyed(runs)[k]).0),
    decreases runs.len(),
{
    if runs.len() > 0 {
        let q = runs.drop_last();
        let last = runs.last();
        let n = runs.len() - 1;
        let kq = keyed(q);
        let kr = keyed(runs);
        law_keyed_keeps_each_distinct_run(q);
        lemma_position_of_args(kq, last.0);
        assert(runs[n] == last);
        assert forall|m: int| 0 <= m < n implies #[trigger] runs[m] == q[m] by {}
        match position_of_args(kq, last.0) {
            Some(p) => {
                assert(kr == kq.update(p, last));
                assert(run_key(kq[p].0) == run_key(last.0));
                assert forall|i: int| 0 <= i < runs.len() implies keeps_args(kr, (#[trigger] runs[i]).0) by {
                    if i == n {
                        assert(kr[p] == last);
                    } else {
                        assert(runs[i] == q[i]);
                        assert(keeps_args(kq, q[i].0));
                        let j = choose|j: int| 0 <= j < kq.len() && run_key((#[trigger] kq[j]).0) == run_key(q[i].0);
                        assert(run_key(kr[j].0) == run_key(q[i].0));
                    }
                }
                assert forall|j: int| 0 <= j < kr.len() implies is_last_with_its_args(runs, #[trigger] kr[j]) by {
                    if j == p {
                        assert(runs[n] == kr[j]);
                    } else {
                        assert(kr[j] == kq[j]);
                        assert(is_last_with_its_args(q, kq[j]));
                        let m = choose|m: int| 0 <= m < q.len() && #[trigger] q[m] == kq[j]
                            && forall|m2: int| m < m2 < q.len() ==> run_key((#[trigger] q[m2]).0) != run_key(kq[j].0);
                        assert(runs[m] == q[m]);
                        assert(run_key(kq[j].0) != run_key(kq[p].0));
                        assert forall|m2: int| m < m2 < runs.len() implies run_key((#[trigger] runs[m2]).0) != run_key(kr[j].0) by {
                            if m2 < n {
                                assert(runs[m2] == q[m2]);
                            }
                        }
                    }
                }
                assert forall|j: int, k: int| 0 <= j < k < kr.len()
                    implies run_key((#[trigger] kr[j]).0) != run_key((#[trigger] kr[k]).0) by {
                    assert(run_key(kr[j].0) == run_key(kq[j].0));
                    assert(run_key(kr[k].0) == run_key(kq[k].0));
                }
            },
            None => {
                assert(kr == kq.push(last));
                assert forall|m: int| 0 <= m < kq.len() implies run_key((#[trigger] kq[m]).0) != run_key(last.0) by {
                    assert(!same_args(kq[m].0, last.0));
                }
                assert forall|i: int| 0 <= i < runs.len() implies keeps_args(kr, (#[trigger] runs[i]).0) by {
                    if i == n {
                        assert(kr[kq.len() as int] == last);
                    } else {
                        assert(runs[i] == q[i]);
                        assert(keeps_args(kq, q[i].0));
                        let j = choose|j: int| 0 <= j < kq.len() && run_key((#[trigger] kq[j]).0) == run_key(q[i].0);
                        assert(kr[j] == kq[j]);
                    }
                }
                assert forall|j: int| 0 <= j < kr.len() implies is_last_with_its_args(runs, #[trigger] kr[j]) by {
                    if j == kq.len() {
                        assert(runs[n] == kr[j]);
                    } else {
                        assert(kr[j] == kq[j]);
                        assert(is_last_with_its_args(q, kq[j]));
                        let m = choose|m: int| 0 <= m < q.len() && #[trigger] q[m] == kq[j]
                            && forall|m2: int| m < m2 < q.len() ==> run_key((#[trigger] q[m2]).0) != run_key(kq[j].0);
                        assert(runs[m] == q[m]);
                        assert(run_key(kq[j].0) != run_key(last.0));
                        assert forall|m2: int| m < m2 < runs.len() implies run_key((#[trigger] runs[m2]).0) != run_key(kr[j].0) by {
                            if m2 < n {
                                assert(runs[m2] == q[m2]);
                            }
                        }
                    }
                }
                assert forall|j: int, k: int| 0 <= j < k < kr.len()
                    implies run_key((#[trigger] kr[j]).0) != run_key((#[trigger] kr[k]).0) by {
                    assert(kr[j] == kq[j]);
                    if k < kq.len() {
                        assert(kr[k] == kq[k]);
                    } else {
                        assert(kr[k] == last);
                    }
                }
            },
        }
    }
}

/// Law: only a commit is ever compiled, and only when its code is not the one switched
/// in: a built-in algorithm never needs a compile, whatever is switched in; a commit
/// needs one when nothing or another commit is switched in, and not once it is.
pub proof fn law_only_commits_compile(alg: Algorithm, switched_in: Option<Algorithm>)
    ensures
        !(alg is Commit) ==> !must_compile(alg, switched_in),
        alg is Commit && switched_in is None ==> must_compile(alg, switched_in),
        forall|s: Algorithm| alg is Commit && switched_in == Some(s) && s != alg ==> must_compile(alg, switched_in),
        !must_compile(alg, Some(alg)),
{
}

/// Whether each run succeeded.
pub open spec fn outcomes(runs: Seq<RunResult>) -> Seq<Result<(), TeeBenchWebError>> {
    runs.map_values(|r: RunResult| match r.1 {
        Ok(_) => Ok(()),
        Err(e) => Err(e),
    })
}

/// The outcomes of the runs of each chart, kept by their arguments.
pub open spec fn chart_outcomes(charts: Seq<(JobConfig, Vec<RunResult>)>) -> Seq<Seq<Result<(), TeeBenchWebError>>> {
    charts.map_values(|c: (JobConfig, Vec<RunResult>)| outcomes(keyed(c.1@)))
}

/// Whether the first `n` of `results` are the results of the first `n` of `runs`, all of
/// which succeeded.
pub open spec fn results_of(results: Seq<(TeebenchArgs, HashMap<String, String>)>, runs: Seq<RunResult>, n: int) -> bool {
    forall|j: int| #![trigger results[j]] 0 <= j < n ==> results[j].0 == runs[j].0 && runs[j].1 == Ok::<HashMap<String, String>, TeeBenchWebError>(results[j].1)
}

/// Pushing the result of the next successful run keeps `results_of`.
proof fn lemma_results_push(before: Seq<(TeebenchArgs, HashMap<String, String>)>, runs: Seq<RunResult>, k: int, item: (TeebenchArgs, HashMap<String, String>))
    requires
        0 <= k < runs.len(),
        before.len() == k,
        results_of(before, runs, k),
        item.0 == runs[k].0,
        runs[k].1 == Ok::<HashMap<String, String>, TeeBenchWebError>(item.1),
    ensures
        results_of(before.push(item), runs, k + 1),
{
    let after = before.push(item);
    assert forall|j: int| #![trigger after[j]] 0 <= j < k + 1 implies after[j].0 == runs[j].0 && runs[j].1 == Ok::<HashMap<String, String>, TeeBenchWebError>(after[j].1) by {
        if j < k {
            assert(after[j] == before[j]);
        }
    }
}

/// Whether `chart` is the chart drawn from `conf` and the successful `runs`, kept by their
/// arguments.
pub open spec fn chart_of(chart: ExperimentChart, conf: JobConfig, runs: Seq<RunResult>) -> bool {
    &&& chart.config == conf
    &&& chart.findings@.len() == 0
    &&& chart.results@.len() == keyed(runs).len()
    &&& results_of(chart.results@, keyed(runs), keyed(runs).len() as int)
}

/// The report of an experiment from the results of the runs of each chart. The runs of a
/// chart are kept by their arguments (see `keyed_runs`); the first failed run so kept (in
/// chart order, then run order) fails the experiment with its error; otherwise each chart
/// holds its configuration and the results of its kept runs in order, without findings yet.
#[verifier::loop_isolation(false)]
pub fn assemble_report(charts: Vec<(JobConfig, Vec<RunResult>)>) -> (r: JobResult)
    ensures
        match r {
            JobResult::Exp(Err(e)) => report_outcome(chart_outcomes(charts@)) == Some(e),
            JobResult::Exp(Ok(rep)) => {
                &&& report_outcome(chart_outcomes(charts@)) is None
                &&& rep.findings@.len() == 0
                &&& rep.charts@.len() == charts@.len()
                &&& forall|i: int| 0 <= i < charts@.len() ==> #[trigger] chart_of(rep.charts@[i], charts@[i].0, charts@[i].1@)
            },
            JobResult::Compile(_) => false,
        },
{
    let ghost all = charts@;
    let mut charts = charts;
    let mut out: Vec<ExperimentChart> = Vec::new();
    let n = charts.len();
    let mut i: usize = 0;
    while i < n
        invariant
            i <= n,
            n == all.len(),
            charts@ == all.subrange(i as int, n as int),
            out@.len() == i,
            report_outcome(chart_outcomes(all)) == report_outcome(chart_outcomes(charts@)),
            forall|j: int| 0 <= j < i ==> #[trigger] chart_of(out@[j], all[j].0, all[j].1@),
        decreases n - i,
    {
        assert(charts@[0] == all[i as int]);
        assert(chart_outcomes(charts@).drop_first() =~= chart_outcomes(charts@.drop_first()));
        let ghost pre = charts@;
        let item = charts.remove(0);
        assert(item == all[i as int]);
        assert(chart_outcomes(pre)[0] == outcomes(keyed(item.1@)));
        let (conf, runs) = item;
        let runs = keyed_runs(runs);
        let ghost all_runs = runs@;
        assert(all_runs == keyed(all[i as int].1@));
        let mut runs = runs;
        let mut results: Vec<(TeebenchArgs, HashMap<String, String>)> = Vec::new();
        let m = runs.len();
        let mut k: usize = 0;
        while k < m
            invariant
                k <= m,
                m == all_runs.len(),
                runs@ == all_runs.subrange(k as int, m as int),
                results@.len() == k,
                first_error(outcomes(all_runs)) == first_error(outcomes(runs@)),
                results_of(results@, all_runs, k as int),
            decreases m - k,
        {
            assert(runs@[0] == all_runs[k as int]);
            assert(outcomes(runs@).drop_first() =~= outcomes(runs@.drop_first()));
            let run = runs.remove(0);
            assert(run == all_runs[k as int]);
            let (args, res) = run;
            match res {
                Ok(mm) => {
                    let ghost before = results@;
                    results.push((args, mm));
                    assert(results@[k as int] == (args, mm));
                    assert(args == all_runs[k as int].0);
                    assert(all_runs[k as int].1 == Ok::<HashMap<String, String>, TeeBenchWebError>(mm));
                    proof {
                        lemma_results_push(before, all_runs, k as int, (args, mm));
                    }
                },
                Err(e) => {
                    assert(first_error(outcomes(all_runs)) == Some(e));
                    return JobResult::Exp(Err(e));
                },
            }
            k = k + 1;
        }
        assert(first_error(outcomes(all_runs)) is None);
        let chart = ExperimentChart::new(conf, results, Vec::new());
        assert(chart_of(chart, all[i as int].0, all[i as int].1@));
        out.push(chart);
        i = i + 1;
    }
    JobResult::Exp(Ok(Report { charts: out, findings: Vec::new() }))
}

} // verus!
