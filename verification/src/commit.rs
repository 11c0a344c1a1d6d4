//! Uploaded commits (operators with their code, compilation state and performance
//! report) and the list of them that the server keeps.

use vstd::prelude::*;
use crate::data_types::{Algorithm, CommitIdType, CompilationStatus, JobResult, Operator};
use crate::datetime::{day_month_description, format_datetime, formatted_datetime, time_of_day_description, two_digits, DateTime};

verus! {

/// Identifier of a job.
pub type JobIdType = usize;

/// Whether a performance report job is running for a commit, and how the last one ended.
#[derive(Debug, Clone, Copy, PartialEq, Eq, Structural)]
pub enum PerfReportStatus {
    Idle,
    Running(JobIdType),
    Successful,
    Failed,
}

/// An operator uploaded by a user, with its performance report.
#[derive(Debug, PartialEq)]
pub struct Commit {
    /// What the user entered as the commit message.
    pub title: String,
    /// Version of the commit, eg. `0.3`.
    pub version: String,
    /// Type of the operator.
    pub operator: Operator,
    /// When the operator was uploaded.
    pub datetime: DateTime,
    /// C or C++ code.
    pub code: String,
    /// The finished performance report experiments.
    pub report: Option<JobResult>,
    /// Identifier set by the client, incremented with each commit.
    pub id: CommitIdType,
    /// Compilation status.
    pub compilation: CompilationStatus,
    /// Whether a performance report job is running for this commit.
    pub perf_report_running: PerfReportStatus,
    /// The algorithm or commit to compare against.
    pub baseline: Algorithm,
}

impl Commit {
    /// The title shown for the commit: its title, `_v` and its version.
    pub open spec fn display_title(&self) -> Seq<char> {
        self.title@ + "_v"@ + self.version@
    }

    /// A commit that is not compiled yet and has no performance report running.
    pub fn new(
        title: String,
        version: String,
        operator: Operator,
        datetime: DateTime,
        code: String,
        reports: Option<JobResult>,
        id: usize,
        baseline: Algorithm,
    ) -> (r: Self)
        ensures
            r.title == title,
            r.version == version,
            r.operator == operator,
            r.datetime == datetime,
            r.code == code,
            r.report == reports,
            r.id == id,
            r.compilation == CompilationStatus::Uncompiled,
            r.perf_report_running == PerfReportStatus::Idle,
            r.baseline == baseline,
    {
        Commit {
            title,
            version,
            operator,
            datetime,
            code,
            report: reports,
            id,
            compilation: CompilationStatus::Uncompiled,
            perf_report_running: PerfReportStatus::Idle,
            baseline,
        }
    }

    /// The title shown for the commit: its title, `_v` and its version.
    pub fn get_title(&self) -> (s: String)
        ensures
            s@ == self.display_title(),
    {
        let s = self.title.clone().concat("_v").concat(self.version.as_str());
        s
    }

    /// The time of day the commit was uploaded at, in the offset it was uploaded in, as `HH:MM`.
    pub fn get_time_of_day(&self) -> (r: String)
        requires
            self.datetime.valid(),
        ensures
            r@ == two_digits(self.datetime.hour()) + seq![':'] + two_digits(self.datetime.minute()),
    {
        proof {
            reveal_strlit("[hour]:[minute]");
            assert("[hour]:[minute]"@ =~= time_of_day_description());
        }
        format_datetime(self.datetime, "[hour]:[minute]")
    }

    /// The day and month the commit was uploaded on, in the offset it was uploaded in, as `DD.MM`.
    pub fn get_date(&self) -> (r: String)
        requires
            self.datetime.valid(),
        ensures
            r@ == formatted_datetime(self.datetime.unix_timestamp as int, self.datetime.offset_seconds as int, day_month_description()),
            r@.len() == 5,
            r@[2] == '.',
    {
        proof {
            reveal_strlit("[day].[month]");
            assert("[day].[month]"@ =~= day_month_description());
        }
        format_datetime(self.datetime, "[day].[month]")
    }
}

/// Position of the first commit with identifier `id`.
pub open spec fn first_with_id(s: Seq<Commit>, id: CommitIdType) -> Option<int>
    decreases s.len(),
{
    if s.len() == 0 {
        None
    } else {
        match first_with_id(s.drop_last(), id) {
            Some(k) => Some(k),
            None => if s.last().id == id { Some(s.len() - 1) } else { None },
        }
    }
}

/// Where `first_with_id` finds a commit, it holds the identifier and none before it does;
/// it finds none exactly where no commit holds the identifier.
pub proof fn lemma_first_with_id_spec(s: Seq<Commit>, id: CommitIdType)
    ensures
        first_with_id(s, id) matches Some(k) ==> 0 <= k < s.len() && s[k].id == id
            && forall|m: int| 0 <= m < k ==> (#[trigger] s[m]).id != id,
        first_with_id(s, id) is None <==> forall|m: int| 0 <= m < s.len() ==> (#[trigger] s[m]).id != id,
    decreases s.len(),
{
    if s.len() > 0 {
        let p = s.drop_last();
        let n = s.len() - 1;
        lemma_first_with_id_spec(p, id);
        assert(forall|m: int| 0 <= m < p.len() ==> (#[trigger] s[m]) == p[m]);
        match first_with_id(p, id) {
            Some(k) => {
                assert(s[k] == p[k]);
            },
            None => {
                if s[n].id == id {
                    assert(s.last() == s[n]);
                } else {
                    assert forall|m: int| 0 <= m < s.len() implies (#[trigger] s[m]).id != id by {
                        if m < n {
                            assert(s[m] == p[m]);
                        }
                    }
                }
            },
        }
    }
}

/// The first commit with identifier `id` stands at `k` when `k` holds that identifier and
/// no commit before it does.
pub proof fn lemma_first_with_id_at(s: Seq<Commit>, id: CommitIdType, k: int)
    requires
        0 <= k < s.len(),
        s[k].id == id,
        forall|m: int| 0 <= m < k ==> (#[trigger] s[m]).id != id,
    ensures
        first_with_id(s, id) == Some(k),
{
    lemma_first_with_id_spec(s, id);
    if let Some(j) = first_with_id(s, id) {
        if j < k {
            assert(s[j].id != id);
        } else if k < j {
            assert(s[k].id != id);
        }
    }
}

/// Whether `k` is the position of the last of the commits with the largest identifier.
pub open spec fn is_latest(s: Seq<Commit>, k: int) -> bool {
    &&& 0 <= k < s.len()
    &&& forall|m: int| 0 <= m < s.len() ==> s[m].id <= s[k].id
    &&& forall|m: int| k < m < s.len() ==> s[m].id < s[k].id
}

/// The unified diff, by lines, that the histogram algorithm of `imara_diff` finds between
/// `before` and `after`.
pub uninterp spec fn histogram_unified_diff(before: Seq<char>, after: Seq<char>) -> Seq<char>;

/// Calls `imara_diff::diff` with `Algorithm::Histogram` on the lines of `before` and `after`,
/// interned by `InternedInput::new`, and a `UnifiedDiffBuilder`. Claimed: the text returned is
/// a function of the two texts alone, named `histogram_unified_diff`. What that text is, is not
/// stated. The call panics on inputs of `i32::MAX` lines or more, which the length bound keeps out.
#[verifier::external_body]
fn unified_diff(before: &str, after: &str) -> (r: String)
    requires
        before@.len() < 0x7fff_fffe,
        after@.len() < 0x7fff_fffe,
    ensures
        r@ == histogram_unified_diff(before@, after@),
{
    let input = imara_diff::intern::InternedInput::new(before, after);
    imara_diff::diff(imara_diff::Algorithm::Histogram, &input, imara_diff::UnifiedDiffBuilder::new(&input))
}

/// The code of the commit that a commit algorithm stands for.
pub open spec fn code_of(s: Seq<Commit>, a: Algorithm) -> Seq<char> {
    match a {
        Algorithm::Commit(id) => match first_with_id(s, id) {
            Some(k) => s[k].code@,
            None => Seq::empty(),
        },
        _ => Seq::empty(),
    }
}

/// Whether every commit among `algs` is one of the commits `s`.
pub open spec fn commits_known(s: Seq<Commit>, algs: Seq<Algorithm>) -> bool {
    forall|i: int| 0 <= i < algs.len() ==> (#[trigger] algs[i] matches Algorithm::Commit(id) ==> first_with_id(s, id) is Some)
}

/// Filtering keeps only items of the sequence, and keeps a sequence without repetitions
/// free of them.
pub proof fn lemma_filter_no_duplicates<A>(s: Seq<A>, pred: spec_fn(A) -> bool)
    ensures
        forall|i: int| 0 <= i < s.filter(pred).len() ==> s.contains(#[trigger] s.filter(pred)[i]),
        s.no_duplicates() ==> s.filter(pred).no_duplicates(),
    decreases s.len(),
{
    reveal(Seq::filter);
    if s.len() > 0 {
        let p = s.drop_last();
        lemma_filter_no_duplicates(p, pred);
        let fp = p.filter(pred);
        let f = s.filter(pred);
        assert forall|i: int| 0 <= i < f.len() implies s.contains(#[trigger] f[i]) by {
            if i < fp.len() {
                assert(f[i] == fp[i]);
                let k = choose|k: int| 0 <= k < p.len() && p[k] == fp[i];
                assert(s[k] == p[k]);
            } else {
                assert(f[i] == s.last());
                assert(s[s.len() - 1] == s.last());
            }
        }
        if s.no_duplicates() {
            assert(p.no_duplicates()) by {
                assert forall|i: int, j: int| 0 <= i < p.len() && 0 <= j < p.len() && i != j implies p[i] != p[j] by {
                    assert(p[i] == s[i] && p[j] == s[j]);
                }
            }
            if pred(s.last()) {
                assert forall|i: int| 0 <= i < fp.len() implies fp[i] != s.last() by {
                    let k = choose|k: int| 0 <= k < p.len() && p[k] == fp[i];
                    assert(s[k] == p[k]);
                    assert(s[s.len() - 1] == s.last());
                }
                assert forall|i: int, j: int| 0 <= i < f.len() && 0 <= j < f.len() && i != j implies f[i] != f[j] by {
                    if i < fp.len() && j < fp.len() {
                        assert(f[i] == fp[i] && f[j] == fp[j]);
                    } else if i < fp.len() {
                        assert(f[i] == fp[i] && f[j] == s.last());
                    } else if j < fp.len() {
                        assert(f[j] == fp[j] && f[i] == s.last());
                    }
                }
            } else {
                assert(f == fp);
            }
        }
    }
}

/// The commits known to the server, in upload order.
#[derive(Debug, PartialEq)]
pub struct CommitState(pub Vec<Commit>);

impl CommitState {
    /// The state holding `commits`.
    pub fn new(commits: Vec<Commit>) -> (r: Self)
        ensures
            r.0 == commits,
    {
        Self(commits)
    }

    /// Position of the first commit with identifier `id`.
    pub fn position_by_id(&self, id: &CommitIdType) -> (r: Option<usize>)
        ensures
            match r {
                Some(k) => k < self.0@.len() && first_with_id(self.0@, *id) == Some(k as int),
                None => first_with_id(self.0@, *id) is None,
            },
    {
        let mut k: usize = 0;
        while k < self.0.len()
            invariant
                k <= self.0@.len(),
                forall|m: int| 0 <= m < k ==> (#[trigger] self.0@[m]).id != *id,
            decreases self.0@.len() - k,
        {
            if self.0[k].id == *id {
                proof {
                    lemma_first_with_id_at(self.0@, *id, k as int);
                }
                return Some(k);
            }
            k = k + 1;
        }
        proof {
            lemma_first_with_id_spec(self.0@, *id);
        }
        None
    }

    /// The first commit with identifier `id`.
    pub fn get_by_id(&self, id: &CommitIdType) -> (r: Option<&Commit>)
        ensures
            match r {
                Some(c) => first_with_id(self.0@, *id) matches Some(k) && *c == self.0@[k],
                None => first_with_id(self.0@, *id) is None,
            },
    {
        match self.position_by_id(id) {
            Some(k) => Some(&self.0[k]),
            None => None,
        }
    }

    /// The first commit with identifier `id`, to be changed in place.
    pub fn get_by_id_mut(&mut self, id: &CommitIdType) -> (r: Option<&mut Commit>)
        ensures
            match r {
                Some(c) => first_with_id(old(self).0@, *id) matches Some(k) && *c == old(self).0@[k]
                    && final(self).0@ == old(self).0@.update(k, *final(c)),
                None => first_with_id(old(self).0@, *id) is None && *final(self) == *old(self),
            },
    {
        match self.position_by_id(id) {
            Some(k) => Some(&mut self.0[k]),
            None => None,
        }
    }

    /// The commits with the title `title`, in upload order.
    pub fn get_by_title(&self, title: &str) -> (r: Vec<&Commit>)
        ensures
            r@.map_values(|c: &Commit| *c) == self.0@.filter(|c: Commit| c.title@ == title@),
    {
        let ghost pred = |c: Commit| c.title@ == title@;
        let mut r: Vec<&Commit> = Vec::new();
        let mut i: usize = 0;
        while i < self.0.len()
            invariant
                i <= self.0@.len(),
                pred == (|c: Commit| c.title@ == title@),
                r@.map_values(|c: &Commit| *c) == self.0@.subrange(0, i as int).filter(pred),
            decreases self.0@.len() - i,
        {
            proof {
                reveal(Seq::filter);
                assert(self.0@.subrange(0, i + 1).drop_last() =~= self.0@.subrange(0, i as int));
            }
            let ghost before = r@;
            let c = &self.0[i];
            if crate::text::str_eq(c.title.as_str(), title) {
                r.push(c);
                assert(r@.map_values(|c: &Commit| *c) =~= before.map_values(|c: &Commit| *c).push(*c));
            }
            i = i + 1;
            proof {
                reveal(Seq::filter);
                assert(self.0@.subrange(0, i as int).drop_last() =~= self.0@.subrange(0, i - 1));
                assert(self.0@.subrange(0, i as int).last() == *c);
            }
        }
        assert(self.0@.subrange(0, self.0@.len() as int) =~= self.0@);
        r
    }

    /// The commit with the largest identifier (the last of them where several share it).
    pub fn get_latest(&self) -> (r: Option<&Commit>)
        ensures
            match r {
                Some(c) => exists|k: int| is_latest(self.0@, k) && *c == self.0@[k],
                None => self.0@.len() == 0,
            },
    {
        if self.0.len() == 0 {
            return None;
        }
        let mut best: usize = 0;
        let mut i: usize = 1;
        while i < self.0.len()
            invariant
                1 <= i <= self.0@.len(),
                best < i,
                forall|m: int| 0 <= m < i ==> self.0@[m].id <= self.0@[best as int].id,
                forall|m: int| best < m < i ==> self.0@[m].id < self.0@[best as int].id,
            decreases self.0@.len() - i,
        {
            if self.0[i].id >= self.0[best].id {
                best = i;
            }
            i = i + 1;
        }
        assert(is_latest(self.0@, best as int));
        Some(&self.0[best])
    }

    /// The shown title of the first commit with identifier `id`.
    pub fn get_title(&self, id: &CommitIdType) -> (r: Option<String>)
        ensures
            match r {
                Some(t) => first_with_id(self.0@, *id) matches Some(k) && t@ == self.0@[k].display_title(),
                None => first_with_id(self.0@, *id) is None,
            },
    {
        match self.get_by_id(id) {
            Some(c) => Some(c.get_title()),
            None => None,
        }
    }

    /// The shown title of an algorithm: the commit's title for a commit, the algorithm's
    /// printed name otherwise.
    pub fn get_title_by_algorithm(&self, alg: &Algorithm) -> (r: Option<String>)
        ensures
            match *alg {
                Algorithm::Commit(id) => match r {
                    Some(t) => first_with_id(self.0@, id) matches Some(k) && t@ == self.0@[k].display_title(),
                    None => first_with_id(self.0@, id) is None,
                },
                _ => r matches Some(t) && t@ == alg.display(),
            },
    {
        match alg {
            Algorithm::Commit(id) => self.get_title(id),
            _ => Some(alg.to_string()),
        }
    }

    /// For every pair of consecutive commits, the diff of the second's code against the
    /// first's; `None` stands first, for the first commit (and alone where there is none).
    pub fn get_diffs(&self) -> (r: Vec<Option<String>>)
        requires
            forall|i: int| 0 <= i < self.0@.len() ==> (#[trigger] self.0@[i]).code@.len() < 0x7fff_fffe,
        ensures
            r@.len() == if self.0@.len() == 0 { 1 } else { self.0@.len() },
            r@[0] is None,
            forall|i: int| #![trigger r@[i]] 1 <= i < self.0@.len() ==> (r@[i] matches Some(d)
                && d@ == histogram_unified_diff(self.0@[i - 1].code@, self.0@[i].code@)),
    {
        let mut res: Vec<Option<String>> = Vec::new();
        res.push(None);
        let mut i: usize = 1;
        while i < self.0.len()
            invariant
                1 <= i,
                i <= self.0@.len() || (i == 1 && self.0@.len() == 0),
                res@.len() == i,
                res@[0] is None,
                forall|i: int| 0 <= i < self.0@.len() ==> (#[trigger] self.0@[i]).code@.len() < 0x7fff_fffe,
                forall|k: int| #![trigger res@[k]] 1 <= k < i ==> (res@[k] matches Some(d)
                    && d@ == histogram_unified_diff(self.0@[k - 1].code@, self.0@[k].code@)),
            decreases self.0@.len() - i,
        {
            let old_code = self.0[i - 1].code.as_str();
            let new_code = self.0[i].code.as_str();
            let d = unified_diff(old_code, new_code);
            res.push(Some(d));
            i = i + 1;
        }
        res
    }

    /// The code of every commit among `algorithms`, in their order.
    pub fn get_used_code(&self, algorithms: &Vec<Algorithm>) -> (r: Vec<(Algorithm, String)>)
        requires
            commits_known(self.0@, algorithms@),
        ensures
            r@.map_values(|p: (Algorithm, String)| (p.0, p.1@)) == algorithms@.filter(|a: Algorithm| a is Commit).map_values(
                |a: Algorithm| (a, code_of(self.0@, a)),
            ),
            algorithms@.no_duplicates() ==> r@.map_values(|p: (Algorithm, String)| p.0).no_duplicates(),
    {
        let ghost pred = |a: Algorithm| a is Commit;
        let ghost f = |a: Algorithm| (a, code_of(self.0@, a));
        let ghost pv = |p: (Algorithm, String)| (p.0, p.1@);
        let mut r: Vec<(Algorithm, String)> = Vec::new();
        let mut i: usize = 0;
        while i < algorithms.len()
            invariant
                i <= algorithms@.len(),
                commits_known(self.0@, algorithms@),
                pred == (|a: Algorithm| a is Commit),
                f == (|a: Algorithm| (a, code_of(self.0@, a))),
                pv == (|p: (Algorithm, String)| (p.0, p.1@)),
                r@.map_values(pv) == algorithms@.subrange(0, i as int).filter(pred).map_values(f),
            decreases algorithms@.len() - i,
        {
            let a = algorithms[i];
            let ghost before = r@;
            proof {
                reveal(Seq::filter);
                assert(algorithms@.subrange(0, i + 1).drop_last() =~= algorithms@.subrange(0, i as int));
                assert(algorithms@.subrange(0, i + 1).last() == a);
            }
            match a {
                Algorithm::Commit(id) => {
                    assert(algorithms@[i as int] == a);
                    let c = self.get_by_id(&id);
                    match c {
                        Some(c) => {
                            r.push((a, c.code.clone()));
                            assert(r@.map_values(pv) =~= before.map_values(pv).push(f(a)));
                        },
                        None => {
                            assert(false);
                        },
                    }
                },
                _ => {},
            }
            i = i + 1;
            assert(algorithms@.subrange(0, i as int).filter(pred).map_values(f) =~= if pred(a) {
                algorithms@.subrange(0, i - 1).filter(pred).map_values(f).push(f(a))
            } else {
                algorithms@.subrange(0, i - 1).filter(pred).map_values(f)
            });
        }
        assert(algorithms@.subrange(0, algorithms@.len() as int) =~= algorithms@);
        proof {
            let fl = algorithms@.filter(pred);
            lemma_filter_no_duplicates(algorithms@, pred);
            assert(r@.map_values(|p: (Algorithm, String)| p.0) =~= fl) by {
                assert forall|i: int| 0 <= i < r@.len() implies #[trigger] r@[i].0 == fl[i] by {
                    assert(r@.map_values(pv)[i] == fl.map_values(f)[i]);
                }
            }
        }
        r
    }

    /// Marks the first commit with identifier `id` as being compiled; `false` where there
    /// is no such commit.
    pub fn start_compiling(&mut self, id: &CommitIdType) -> (found: bool)
        ensures
            match first_with_id(old(self).0@, *id) {
                Some(k) => found && final(self).0@ == old(self).0@.update(
                    k,
                    Commit { compilation: CompilationStatus::Compiling, ..old(self).0@[k] },
                ),
                None => !found && *final(self) == *old(self),
            },
    {
        match self.get_by_id_mut(id) {
            Some(c) => {
                c.compilation = CompilationStatus::Compiling;
                true
            },
            None => false,
        }
    }

    /// Records how compiling the first commit with identifier `id` ended: successful with
    /// the build log, or failed with the error; `false` where there is no such commit.
    pub fn finish_compiling(&mut self, id: &CommitIdType, result: Result<String, String>) -> (found: bool)
        ensures
            match first_with_id(old(self).0@, *id) {
                Some(k) => found && final(self).0@ == old(self).0@.update(
                    k,
                    Commit {
                        compilation: match result {
                            Ok(log) => CompilationStatus::Successful(log),
                            Err(e) => CompilationStatus::Failed(e),
                        },
                        ..old(self).0@[k]
                    },
                ),
                None => !found && *final(self) == *old(self),
            },
    {
        match self.get_by_id_mut(id) {
            Some(c) => {
                c.compilation = match result {
                    Ok(log) => CompilationStatus::Successful(log),
                    Err(e) => CompilationStatus::Failed(e),
                };
                true
            },
            None => false,
        }
    }

    /// Stores the performance report of the first commit with identifier `id`, which is
    /// then no longer running; `false` where there is no such commit.
    pub fn store_report(&mut self, id: &CommitIdType, report: JobResult) -> (found: bool)
        ensures
            match first_with_id(old(self).0@, *id) {
                Some(k) => found && final(self).0@ == old(self).0@.update(
                    k,
                    Commit { report: Some(report), perf_report_running: PerfReportStatus::Idle, ..old(self).0@[k] },
                ),
                None => !found && *final(self) == *old(self),
            },
    {
        match self.get_by_id_mut(id) {
            Some(c) => {
                c.report = Some(report);
                c.perf_report_running = PerfReportStatus::Idle;
                true
            },
            None => false,
        }
    }

    /// The baseline of the first commit with identifier `id`, which its performance report
    /// is compared against.
    pub fn baseline_of(&self, id: &CommitIdType) -> (r: Option<Algorithm>)
        ensures
            match first_with_id(self.0@, *id) {
                Some(k) => r == Some(self.0@[k].baseline),
                None => r is None,
            },
    {
        match self.get_by_id(id) {
            Some(c) => Some(c.baseline),
            None => None,
        }
    }

    /// Appends a commit.
    pub fn push_commit(&mut self, c: Commit)
        ensures
            final(self).0@ == old(self).0@.push(c),
    {
        self.0.push(c);
    }
}

} // verus!
