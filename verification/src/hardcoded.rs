//! The fixed experiments of a performance report.

use vstd::prelude::*;
use crate::commandline::{cmds_view, Commandline, CommandlineView};
use crate::data_types::{Algorithm, CommitIdType, Dataset, ExperimentType, PerfReportConfig, Platform, REPLACE_ALG};
use crate::profiling::JobConfig;
use crate::text::{decimal, u64_to_string};

verus! {

/// A run of TeeBench on `app` with algorithm argument `alg`, dataset argument `ds`,
/// `threads` threads and CSV output.
pub open spec fn fixed_run(app: Platform, alg: Seq<char>, ds: Seq<char>, threads: nat) -> CommandlineView {
    (app, seq!["-a"@, alg, "-d"@, ds, "-n"@, decimal(threads), "--csv"@])
}

/// The runs of a scalability experiment of `alg` on `ds`: SGX with one to eight threads.
pub open spec fn scalability_runs(alg: Seq<char>, ds: Seq<char>) -> Seq<CommandlineView> {
    Seq::new(8, |k: int| fixed_run(Platform::Sgx, alg, ds, (k + 1) as nat))
}

/// The runs of a throughput experiment of `alg` on `ds`: SGX, then native, with two threads.
pub open spec fn throughput_runs(alg: Seq<char>, ds: Seq<char>) -> Seq<CommandlineView> {
    seq![fixed_run(Platform::Sgx, alg, ds, 2), fixed_run(Platform::Native, alg, ds, 2)]
}

/// The experiments of the performance report of commit `id` against `baseline`:
/// throughput on each dataset, then scalability on each dataset.
pub fn hardcoded_perf_report_configs(id: CommitIdType, baseline: Algorithm) -> (r: Vec<JobConfig>)
    ensures
        r@ == seq![
            JobConfig::PerfReport(PerfReportConfig { id, exp_type: ExperimentType::Throughput, dataset: Dataset::CacheFit, baseline }),
            JobConfig::PerfReport(PerfReportConfig { id, exp_type: ExperimentType::Throughput, dataset: Dataset::CacheExceed, baseline }),
            JobConfig::PerfReport(PerfReportConfig { id, exp_type: ExperimentType::Scalability, dataset: Dataset::CacheFit, baseline }),
            JobConfig::PerfReport(PerfReportConfig { id, exp_type: ExperimentType::Scalability, dataset: Dataset::CacheExceed, baseline }),
        ],
{
    let (throughput_fit, throughput_exceed) = PerfReportConfig::for_throughput(id, baseline);
    let (scalability_fit, scalability_exceed) = PerfReportConfig::for_scalability(id, baseline);
    let mut v: Vec<JobConfig> = Vec::new();
    v.push(JobConfig::PerfReport(throughput_fit));
    v.push(JobConfig::PerfReport(throughput_exceed));
    v.push(JobConfig::PerfReport(scalability_fit));
    v.push(JobConfig::PerfReport(scalability_exceed));
    v
}

/// One fixed run of TeeBench.
fn fixed_command(app: Platform, alg: &str, ds: &str, threads: u64) -> (r: Commandline)
    requires
        threads < 10,
    ensures
        r@ == fixed_run(app, alg@, ds@, threads as nat),
{
    let t = u64_to_string(threads);
    let r = Commandline::with_args(app, &["-a", alg, "-d", ds, "-n", t.as_str(), "--csv"]);
    assert(r@.1 =~= fixed_run(app, alg@, ds@, threads as nat).1);
    r
}

/// The runs of a throughput experiment of the algorithm selected by `alg_cmd_string` on
/// the dataset selected by `dataset_cmd_string`: on SGX, then natively, with two threads.
pub fn hardcoded_throughput_commands(
    alg: Algorithm,
    alg_cmd_string: &str,
    dataset_cmd_string: &str,
) -> (r: Vec<Commandline>)
    ensures
        cmds_view(r@) == throughput_runs(alg_cmd_string@, dataset_cmd_string@),
{
    let mut v: Vec<Commandline> = Vec::new();
    v.push(fixed_command(Platform::Sgx, alg_cmd_string, dataset_cmd_string, 2));
    v.push(fixed_command(Platform::Native, alg_cmd_string, dataset_cmd_string, 2));
    assert(cmds_view(v@) =~= throughput_runs(alg_cmd_string@, dataset_cmd_string@));
    v
}

/// The runs of a scalability experiment of the algorithm selected by `alg_cmd_string` on
/// the dataset selected by `dataset_cmd_string`: on SGX with one to eight threads.
pub fn hardcoded_scalability_commands(
    alg: Algorithm,
    alg_cmd_string: &str,
    dataset_cmd_string: &str,
) -> (r: Vec<Commandline>)
    ensures
        cmds_view(r@) == scalability_runs(alg_cmd_string@, dataset_cmd_string@),
{
    let mut v: Vec<Commandline> = Vec::new();
    let mut t: u64 = 1;
    while t <= 8
        invariant
            1 <= t <= 9,
            v@.len() == t - 1,
            forall|k: int| 0 <= k < t - 1 ==> #[trigger] v@[k]@ == fixed_run(Platform::Sgx, alg_cmd_string@, dataset_cmd_string@, (k + 1) as nat),
        decreases 9 - t,
    {
        v.push(fixed_command(Platform::Sgx, alg_cmd_string, dataset_cmd_string, t));
        t = t + 1;
    }
    assert(cmds_view(v@) =~= scalability_runs(alg_cmd_string@, dataset_cmd_string@));
    v
}

/// `a` followed by `b`.
fn joined(a: Vec<Commandline>, b: Vec<Commandline>) -> (r: Vec<Commandline>)
    ensures
        cmds_view(r@) == cmds_view(a@) + cmds_view(b@),
{
    let mut a = a;
    let mut b = b;
    let ghost av = a@;
    let ghost bv = b@;
    a.append(&mut b);
    assert(a@ == av + bv);
    assert(cmds_view(a@) =~= cmds_view(av) + cmds_view(bv));
    a
}

/// The views of a list of lists of command lines.
pub open spec fn groups_view(v: Seq<Vec<Commandline>>) -> Seq<Seq<CommandlineView>> {
    v.map_values(|g: Vec<Commandline>| cmds_view(g@))
}

/// The command lines of the performance report of commit `id` against `baseline_t`, one list
/// per chart: throughput on the dataset that fits the cache (the commit first), throughput on
/// the one that exceeds it (the baseline first), then scalability on each of them (the commit
/// first on the one that fits, the baseline first on the other). The commit is selected by
/// the placeholder `___`, the baseline by its command line argument.
pub fn hardcoded_perf_report_commands(id: CommitIdType, baseline_t: &Algorithm) -> (r: Vec<Vec<Commandline>>)
    ensures
        groups_view(r@) == ({
            let b = baseline_t.cmd_arg();
            let c = REPLACE_ALG@;
            seq![
                throughput_runs(c, "cache-fit"@) + throughput_runs(b, "cache-fit"@),
                throughput_runs(b, "cache-exceed"@) + throughput_runs(c, "cache-exceed"@),
                scalability_runs(c, "cache-fit"@) + scalability_runs(b, "cache-fit"@),
                scalability_runs(b, "cache-exceed"@) + scalability_runs(c, "cache-exceed"@),
            ]
        }),
{
    let baseline = baseline_t.to_cmd_arg();
    let b = baseline.as_str();
    let g0 = joined(
        hardcoded_throughput_commands(Algorithm::Commit(id), REPLACE_ALG, "cache-fit"),
        hardcoded_throughput_commands(*baseline_t, b, "cache-fit"),
    );
    let g1 = joined(
        hardcoded_throughput_commands(*baseline_t, b, "cache-exceed"),
        hardcoded_throughput_commands(Algorithm::Commit(id), REPLACE_ALG, "cache-exceed"),
    );
    let g2 = joined(
        hardcoded_scalability_commands(Algorithm::Commit(id), REPLACE_ALG, "cache-fit"),
        hardcoded_scalability_commands(*baseline_t, b, "cache-fit"),
    );
    let g3 = joined(
        hardcoded_scalability_commands(*baseline_t, b, "cache-exceed"),
        hardcoded_scalability_commands(Algorithm::Commit(id), REPLACE_ALG, "cache-exceed"),
    );
    let ghost v = seq![cmds_view(g0@), cmds_view(g1@), cmds_view(g2@), cmds_view(g3@)];
    let mut res: Vec<Vec<Commandline>> = Vec::new();
    res.push(g0);
    res.push(g1);
    res.push(g2);
    res.push(g3);
    assert(groups_view(res@) =~= v);
    res
}

} // verus!
