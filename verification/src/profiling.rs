//! Profiling configurations and the TeeBench command lines they expand into.

use vstd::prelude::*;
use crate::commandline::{block_index, cmds_view, lemma_doubled, Commandline, CommandlineView};
use crate::text::{decimal, decimal_int, i64_to_string, join_strings, joined, lemma_decimal_reads_back, lemma_parse_decimal, u64_to_string};
use crate::args::{
    algorithm_value, args_from_occurrences, dashed, dataset_value, has_option, lemma_occurrence_at,
    lemma_occurrence_none, lemma_read_long_flag, lemma_read_short, lemma_scan_step, number_value,
    occurrence, optional_number, option_by_long, option_by_short, parse_args, scan, text_matches,
    ArgOption, Occurrence,
};
use crate::data_types::{all_algorithms, algorithm_from_arg, algorithm_named, dataset_from_arg, TeebenchArgs, Algorithm, CommitIdType, Dataset, ExperimentType, Measurement, Parameter, PerfReportConfig, Platform};

verus! {

/// A job of the backend: a profiling experiment, a performance report, or compiling a commit.
#[derive(Debug, Clone, PartialEq)]
pub enum JobConfig {
    Profiling(ProfilingConfiguration),
    PerfReport(PerfReportConfig),
    Compile(CommitIdType),
}

/// Step type of the varied parameter.
pub type StepType = i64;

/// A profiling experiment: the algorithms, datasets and platforms to run, and the
/// parameter varied from `min` to `max` in steps of `step`.
#[derive(Debug, Clone, PartialEq)]
pub struct ProfilingConfiguration {
    pub algorithm: Vec<Algorithm>,
    pub experiment_type: ExperimentType,
    pub parameter: Parameter,
    pub measurement: Measurement,
    pub min: StepType,
    pub max: StepType,
    pub step: StepType,
    pub dataset: Vec<Dataset>,
    pub platform: Vec<Platform>,
    pub sort_data: bool,
}


/// `s` without repetitions: each item in the place of its first occurrence.
pub open spec fn dedup<A>(s: Seq<A>) -> Seq<A>
    decreases s.len(),
{
    if s.len() == 0 {
        s
    } else {
        let r = dedup(s.drop_last());
        if r.contains(s.last()) { r } else { r.push(s.last()) }
    }
}

/// The values the varied parameter takes: `min`, `min + step`, ... up to `max`; only
/// `min` for a negative step, and none when `min > max`.
pub open spec fn param_values(min: int, max: int, step: int) -> Seq<int>
    decreases (if min <= max { max - min + 1 } else { 0 }),
{
    if min > max {
        seq![]
    } else if step <= 0 {
        seq![min]
    } else {
        seq![min] + param_values(min + step, max, step)
    }
}

/// The arguments of the TeeBench run of one point of a profiling experiment.
pub open spec fn run_args(alg: Algorithm, sort: bool, ds: Dataset, param: Parameter, val: int) -> Seq<Seq<char>> {
    seq!["-a"@, alg.display()]
        + (if sort { seq!["--sort-r"@, "--sort-s"@] } else { Seq::<Seq<char>>::empty() })
        + seq!["-d"@, ds.cmd_arg(), param.flag(), decimal_int(val), "--csv"@]
}

/// The flags that ask TeeBench to pre-sort both relations, where `sort` is set.
pub open spec fn sort_args(sort: bool) -> Seq<Seq<char>> {
    if sort { seq!["--sort-r"@, "--sort-s"@] } else { Seq::<Seq<char>>::empty() }
}

/// Item `i` of block `j` lies within `n` blocks of `l` items.
pub proof fn lemma_block_bound(j: int, l: int, i: int, n: int)
    requires
        0 <= i < l,
        0 <= j < n,
    ensures
        0 <= block_index(j, l, i) < n * l,
{
    assert(0 <= j * l + i < n * l) by (nonlinear_arith)
        requires 0 <= i < l, 0 <= j < n;
}

/// Where the run for platform `pi`, algorithm `ai`, dataset `di` and value `vi` stands among
/// the commands of an experiment with `np` platforms, `na` algorithms and `nd` datasets:
/// platforms vary fastest, then algorithms, then datasets, then values.
pub open spec fn cmd_index(np: int, na: int, nd: int, pi: int, ai: int, di: int, vi: int) -> int {
    block_index(vi, nd * (na * np), block_index(di, na * np, block_index(ai, np, pi)))
}

/// Whether `cmds` is the expansion of the experiment `cfg` that `to_teebench_cmd` returns:
/// one command line per combination of platform, algorithm, dataset and parameter value,
/// at that combination's position.
pub open spec fn is_experiment_expansion(cfg: ProfilingConfiguration, cmds: Seq<CommandlineView>) -> bool {
    let np = cfg.platform@.len() as int;
    let na = cfg.algorithm@.len() as int;
    let nd = cfg.dataset@.len() as int;
    let vals = param_values(cfg.min as int, cfg.max as int, cfg.step as int);
    &&& cmds.len() == vals.len() * (nd * (na * np))
    &&& forall|pi: int, ai: int, di: int, vi: int|
        0 <= pi < np && 0 <= ai < na && 0 <= di < nd && 0 <= vi < vals.len()
            ==> #[trigger] cmds[cmd_index(np, na, nd, pi, ai, di, vi)] == (
            cfg.platform@[pi],
            run_args(cfg.algorithm@[ai], cfg.sort_data, cfg.dataset@[di], cfg.parameter, vals[vi]),
        )
}

/// Keeps the first occurrence of each algorithm.
fn dedup_algorithms(v: Vec<Algorithm>) -> (r: Vec<Algorithm>)
    ensures
        r@ == dedup(v@),
{
    let mut r: Vec<Algorithm> = Vec::new();
    let mut i: usize = 0;
    while i < v.len()
        invariant
            i <= v.len(),
            r@ == dedup(v@.subrange(0, i as int)),
        decreases v.len() - i,
    {
        let x = v[i];
        let mut found = false;
        let mut k: usize = 0;
        while k < r.len()
            invariant
                k <= r.len(),
                found == (exists|m: int| 0 <= m < k && r@[m] == x),
            decreases r.len() - k,
        {
            if r[k] == x {
                found = true;
            }
            k = k + 1;
        }
        assert(v@.subrange(0, i + 1).drop_last() =~= v@.subrange(0, i as int));
        if !found {
            r.push(x);
        } else {
            assert(r@.contains(x));
        }
        i = i + 1;
    }
    assert(v@.subrange(0, v.len() as int) =~= v@);
    r
}

/// Keeps the first occurrence of each dataset.
fn dedup_datasets(v: Vec<Dataset>) -> (r: Vec<Dataset>)
    ensures
        r@ == dedup(v@),
{
    let mut r: Vec<Dataset> = Vec::new();
    let mut i: usize = 0;
    while i < v.len()
        invariant
            i <= v.len(),
            r@ == dedup(v@.subrange(0, i as int)),
        decreases v.len() - i,
    {
        let x = v[i];
        let mut found = false;
        let mut k: usize = 0;
        while k < r.len()
            invariant
                k <= r.len(),
                found == (exists|m: int| 0 <= m < k && r@[m] == x),
            decreases r.len() - k,
        {
            if r[k] == x {
                found = true;
            }
            k = k + 1;
        }
        assert(v@.subrange(0, i + 1).drop_last() =~= v@.subrange(0, i as int));
        if !found {
            r.push(x);
        } else {
            assert(r@.contains(x));
        }
        i = i + 1;
    }
    assert(v@.subrange(0, v.len() as int) =~= v@);
    r
}

/// Keeps the first occurrence of each platform.
fn dedup_platforms(v: Vec<Platform>) -> (r: Vec<Platform>)
    ensures
        r@ == dedup(v@),
{
    let mut r: Vec<Platform> = Vec::new();
    let mut i: usize = 0;
    while i < v.len()
        invariant
            i <= v.len(),
            r@ == dedup(v@.subrange(0, i as int)),
        decreases v.len() - i,
    {
        let x = v[i];
        let mut found = false;
        let mut k: usize = 0;
        while k < r.len()
            invariant
                k <= r.len(),
                found == (exists|m: int| 0 <= m < k && r@[m] == x),
            decreases r.len() - k,
        {
            if r[k] == x {
                found = true;
            }
            k = k + 1;
        }
        assert(v@.subrange(0, i + 1).drop_last() =~= v@.subrange(0, i as int));
        if !found {
            r.push(x);
        } else {
            assert(r@.contains(x));
        }
        i = i + 1;
    }
    assert(v@.subrange(0, v.len() as int) =~= v@);
    r
}

impl ProfilingConfiguration {
    /// Whether the algorithms, datasets and platforms are sets: none occurs twice.
    pub open spec fn well_formed(&self) -> bool {
        &&& self.algorithm@.no_duplicates()
        &&& self.dataset@.no_duplicates()
        &&& self.platform@.no_duplicates()
    }

    /// A configuration with the given fields; repeated algorithms, datasets and platforms
    /// are kept once, where they first occur.
    pub fn new(
        algorithm: Vec<Algorithm>,
        experiment_type: ExperimentType,
        parameter: Parameter,
        measurement: Measurement,
        min: StepType,
        max: StepType,
        step: StepType,
        d: Vec<Dataset>,
        p: Vec<Platform>,
        sort_data: bool,
    ) -> (r: Self)
        ensures
            r.algorithm@ == dedup(algorithm@),
            r.experiment_type == experiment_type,
            r.parameter == parameter,
            r.measurement == measurement,
            r.min == min,
            r.max == max,
            r.step == step,
            r.dataset@ == dedup(d@),
            r.platform@ == dedup(p@),
            r.sort_data == sort_data,
    {
        Self {
            algorithm: dedup_algorithms(algorithm),
            experiment_type,
            parameter,
            measurement,
            min,
            max,
            step,
            dataset: dedup_datasets(d),
            platform: dedup_platforms(p),
            sort_data,
        }
    }

    /// The values the varied parameter takes, from `min` to `max` in steps of `step`.
    pub fn param_value_iter(&self) -> (r: Vec<StepType>)
        requires
            self.step != 0,
        ensures
            r@.map_values(|v: i64| v as int) == param_values(self.min as int, self.max as int, self.step as int),
    {
        let mut r: Vec<StepType> = Vec::new();
        let min = self.min;
        let max = self.max;
        let step = self.step;
        if min > max {
            assert(r@.map_values(|v: i64| v as int) =~= Seq::<int>::empty());
            return r;
        }
        if step < 0 {
            r.push(min);
            assert(r@.map_values(|v: i64| v as int) =~= seq![min as int]);
            return r;
        }
        let mut cur = min;
        loop
            invariant_except_break
                r@.map_values(|v: i64| v as int) + param_values(cur as int, max as int, step as int)
                    == param_values(min as int, max as int, step as int),
            invariant
                min <= cur <= max,
                step > 0,
            ensures
                r@.map_values(|v: i64| v as int) == param_values(min as int, max as int, step as int),
            decreases max - cur,
        {
            let ghost before = r@;
            r.push(cur);
            assert(r@.map_values(|v: i64| v as int) =~= before.map_values(|v: i64| v as int).push(cur as int));
            let next = cur.checked_add(step);
            match next {
                Some(n) => {
                    if n <= max {
                        assert(param_values(cur as int, max as int, step as int)
                            =~= seq![cur as int] + param_values(n as int, max as int, step as int));
                        assert(r@.map_values(|v: i64| v as int) + param_values(n as int, max as int, step as int)
                            =~= before.map_values(|v: i64| v as int) + param_values(cur as int, max as int, step as int));
                        cur = n;
                    } else {
                        assert(param_values(n as int, max as int, step as int) =~= Seq::<int>::empty());
                        assert(param_values(cur as int, max as int, step as int) =~= seq![cur as int]);
                        assert(r@.map_values(|v: i64| v as int)
                            =~= before.map_values(|v: i64| v as int) + param_values(cur as int, max as int, step as int));
                        break;
                    }
                },
                None => {
                    assert(param_values(cur + step, max as int, step as int) =~= Seq::<int>::empty());
                    assert(param_values(cur as int, max as int, step as int) =~= seq![cur as int]);
                    assert(r@.map_values(|v: i64| v as int)
                        =~= before.map_values(|v: i64| v as int) + param_values(cur as int, max as int, step as int));
                    break;
                },
            }
        }
        r
    }

    /// The TeeBench command lines of the experiment: one for every combination of
    /// platform, algorithm, dataset and parameter value, each with the algorithm, the
    /// pre-sort flags if `sort_data` is set, the dataset, the parameter and `--csv`.
    pub fn to_teebench_cmd(&self) -> (r: Vec<Commandline>)
        requires
            self.platform.len() > 0,
            self.algorithm.len() > 0,
            self.dataset.len() > 0,
            self.step != 0,
            self.min <= self.max,
        ensures
            is_experiment_expansion(*self, cmds_view(r@)),
    {
        let ghost np = self.platform@.len() as int;
        let ghost na = self.algorithm@.len() as int;
        let ghost nd = self.dataset@.len() as int;
        let ghost sort = sort_args(self.sort_data);
        let ghost pre = |ai: int| seq!["-a"@, self.algorithm@[ai].display()] + sort;

        // One command line per platform.
        let mut res: Vec<Commandline> = Vec::new();
        let mut k: usize = 0;
        while k < self.platform.len()
            invariant
                k <= self.platform@.len(),
                res@.len() == k,
                forall|i: int| 0 <= i < k ==> #[trigger] res@[i]@ == (self.platform@[i], Seq::<Seq<char>>::empty()),
            decreases self.platform@.len() - k,
        {
            res.push(Commandline::new(self.platform[k]));
            k = k + 1;
        }

        // The first algorithm, then a copy of everything for each further algorithm.
        let a0 = self.algorithm[0].to_string();
        Commandline::add_args_to_all(&mut res, "-a", a0.as_str());
        let mut names: Vec<String> = Vec::new();
        let mut k: usize = 1;
        while k < self.algorithm.len()
            invariant
                1 <= k <= self.algorithm@.len(),
                names@.len() == k - 1,
                forall|m: int| 0 <= m < k - 1 ==> #[trigger] names@[m]@ == self.algorithm@[m + 1].display(),
            decreases self.algorithm@.len() - k,
        {
            names.push(self.algorithm[k].to_string());
            k = k + 1;
        }
        let ghost v1 = cmds_view(res@);
        assert forall|i: int| 0 <= i < res@.len() implies #[trigger] res@[i].args.len() > 0 by {
            assert(res@[i]@.1.len() == 2);
        }
        Commandline::double_cmds_with_different_arg_value(&mut res, &names);
        proof {
            lemma_doubled(v1, names.deep_view());
            assert(np * (na - 1 + 1) == na * np) by (nonlinear_arith);
            assert forall|pi: int, ai: int| 0 <= pi < np && 0 <= ai < na
                implies #[trigger] cmds_view(res@)[block_index(ai, np, pi)] == (
                    self.platform@[pi], seq!["-a"@, self.algorithm@[ai].display()]) by {
                assert(v1[pi] == (self.platform@[pi], seq!["-a"@, self.algorithm@[0].display()]));
                if ai > 0 {
                    assert(names.deep_view()[ai - 1] == self.algorithm@[ai].display());
                    assert(seq!["-a"@, self.algorithm@[0].display()].update(1, self.algorithm@[ai].display())
                        =~= seq!["-a"@, self.algorithm@[ai].display()]);
                }
            }
        }

        // Pre-sorting flags.
        let ghost v2 = cmds_view(res@);
        if self.sort_data {
            Commandline::add_args_to_all(&mut res, "--sort-r", "--sort-s");
        }
        proof {
            assert forall|pi: int, ai: int| 0 <= pi < np && 0 <= ai < na
                implies #[trigger] cmds_view(res@)[block_index(ai, np, pi)] == (self.platform@[pi], pre(ai)) by {
                lemma_block_bound(ai, np, pi, na);
                let k = block_index(ai, np, pi);
                assert(v2[k] == (self.platform@[pi], seq!["-a"@, self.algorithm@[ai].display()]));
                if self.sort_data {
                    assert(res@[k]@.1 =~= pre(ai));
                } else {
                    assert(pre(ai) =~= seq!["-a"@, self.algorithm@[ai].display()]);
                }
            }
        }

        // The first dataset, then a copy of everything for each further dataset.
        let d0 = self.dataset[0].to_cmd_arg();
        let ghost v3 = cmds_view(res@);
        Commandline::add_args_to_all(&mut res, "-d", d0.as_str());
        let mut dnames: Vec<String> = Vec::new();
        let mut k: usize = 1;
        while k < self.dataset.len()
            invariant
                1 <= k <= self.dataset@.len(),
                dnames@.len() == k - 1,
                forall|m: int| 0 <= m < k - 1 ==> #[trigger] dnames@[m]@ == self.dataset@[m + 1].cmd_arg(),
            decreases self.dataset@.len() - k,
        {
            dnames.push(self.dataset[k].to_cmd_arg());
            k = k + 1;
        }
        let ghost v4 = cmds_view(res@);
        assert forall|i: int| 0 <= i < res@.len() implies #[trigger] res@[i].args.len() > 0 by {
            assert(res@[i]@.1.len() == v3[i].1.len() + 2);
        }
        Commandline::double_cmds_with_different_arg_value(&mut res, &dnames);
        proof {
            lemma_doubled(v4, dnames.deep_view());
            assert((na * np) * (nd - 1 + 1) == nd * (na * np)) by (nonlinear_arith);
            assert forall|pi: int, ai: int, di: int| 0 <= pi < np && 0 <= ai < na && 0 <= di < nd
                implies #[trigger] cmds_view(res@)[block_index(di, na * np, block_index(ai, np, pi))] == (
                    self.platform@[pi], pre(ai) + seq!["-d"@, self.dataset@[di].cmd_arg()]) by {
                lemma_block_bound(ai, np, pi, na);
                let k = block_index(ai, np, pi);
                assert(v3[k] == (self.platform@[pi], pre(ai)));
                assert(v4[k] == (self.platform@[pi], pre(ai).push("-d"@).push(self.dataset@[0].cmd_arg())));
                if di == 0 {
                    assert(pre(ai).push("-d"@).push(self.dataset@[0].cmd_arg())
                        =~= pre(ai) + seq!["-d"@, self.dataset@[0].cmd_arg()]);
                } else {
                    assert(dnames.deep_view()[di - 1] == self.dataset@[di].cmd_arg());
                    assert(pre(ai).push("-d"@).push(self.dataset@[0].cmd_arg()).update(
                        pre(ai).len() as int + 1, self.dataset@[di].cmd_arg())
                        =~= pre(ai) + seq!["-d"@, self.dataset@[di].cmd_arg()]);
                }
            }
        }

        // The first parameter value, then a copy of everything for each further value.
        let vals = self.param_value_iter();
        let ghost gvals = param_values(self.min as int, self.max as int, self.step as int);
        assert(gvals.len() > 0 && gvals[0] == self.min);
        assert(vals@.len() == gvals.len());
        assert(vals@[0] as int == gvals[0]);
        let flag = self.parameter.to_flag();
        let v0 = i64_to_string(vals[0]);
        let ghost v5 = cmds_view(res@);
        Commandline::add_args_to_all(&mut res, flag, v0.as_str());
        let mut vnames: Vec<String> = Vec::new();
        let mut k: usize = 1;
        while k < vals.len()
            invariant
                1 <= k <= vals@.len(),
                vals@.map_values(|v: i64| v as int) == gvals,
                vnames@.len() == k - 1,
                forall|m: int| 0 <= m < k - 1 ==> #[trigger] vnames@[m]@ == decimal_int(gvals[m + 1]),
            decreases vals@.len() - k,
        {
            assert(vals@[k as int] as int == gvals[k as int]);
            vnames.push(i64_to_string(vals[k]));
            k = k + 1;
        }
        let ghost v6 = cmds_view(res@);
        assert forall|i: int| 0 <= i < res@.len() implies #[trigger] res@[i].args.len() > 0 by {
            assert(res@[i]@.1.len() == v5[i].1.len() + 2);
        }
        Commandline::double_cmds_with_different_arg_value(&mut res, &vnames);
        let ghost nv = gvals.len() as int;
        proof {
            lemma_doubled(v6, vnames.deep_view());
            assert((nd * (na * np)) * (nv - 1 + 1) == nv * (nd * (na * np))) by (nonlinear_arith);
            assert forall|pi: int, ai: int, di: int, vi: int|
                0 <= pi < np && 0 <= ai < na && 0 <= di < nd && 0 <= vi < nv
                implies #[trigger] cmds_view(res@)[cmd_index(np, na, nd, pi, ai, di, vi)] == (
                    self.platform@[pi],
                    pre(ai) + seq!["-d"@, self.dataset@[di].cmd_arg(), self.parameter.flag(), decimal_int(gvals[vi])]) by {
                lemma_block_bound(ai, np, pi, na);
                lemma_block_bound(di, na * np, block_index(ai, np, pi), nd);
                let k = block_index(di, na * np, block_index(ai, np, pi));
                let base = pre(ai) + seq!["-d"@, self.dataset@[di].cmd_arg()];
                assert(v5[k] == (self.platform@[pi], base));
                assert(v6[k] == (self.platform@[pi], base.push(self.parameter.flag()).push(decimal_int(gvals[0]))));
                if vi == 0 {
                    assert(base.push(self.parameter.flag()).push(decimal_int(gvals[0]))
                        =~= pre(ai) + seq!["-d"@, self.dataset@[di].cmd_arg(), self.parameter.flag(), decimal_int(gvals[0])]);
                } else {
                    assert(vnames.deep_view()[vi - 1] == decimal_int(gvals[vi]));
                    assert(base.push(self.parameter.flag()).push(decimal_int(gvals[0])).update(
                        base.len() as int + 1, decimal_int(gvals[vi]))
                        =~= pre(ai) + seq!["-d"@, self.dataset@[di].cmd_arg(), self.parameter.flag(), decimal_int(gvals[vi])]);
                }
            }
        }

        // CSV output for every run.
        let ghost v7 = cmds_view(res@);
        Commandline::add_flag_to_all(&mut res, "--csv");
        proof {
            assert forall|pi: int, ai: int, di: int, vi: int|
                0 <= pi < np && 0 <= ai < na && 0 <= di < nd && 0 <= vi < nv
                implies #[trigger] cmds_view(res@)[cmd_index(np, na, nd, pi, ai, di, vi)] == (
                    self.platform@[pi],
                    run_args(self.algorithm@[ai], self.sort_data, self.dataset@[di], self.parameter, gvals[vi])) by {
                lemma_block_bound(ai, np, pi, na);
                lemma_block_bound(di, na * np, block_index(ai, np, pi), nd);
                lemma_block_bound(vi, nd * (na * np), block_index(di, na * np, block_index(ai, np, pi)), nv);
                let k = cmd_index(np, na, nd, pi, ai, di, vi);
                let body = pre(ai) + seq!["-d"@, self.dataset@[di].cmd_arg(), self.parameter.flag(), decimal_int(gvals[vi])];
                assert(v7[k] == (self.platform@[pi], body));
                assert(body.push("--csv"@) =~= run_args(self.algorithm@[ai], self.sort_data, self.dataset@[di], self.parameter, gvals[vi]));
            }
        }
        res
    }

    /// The configuration with the measurement and parameter that its preconfigured
    /// experiment type fixes: throughput experiments measure throughput, EPC paging
    /// experiments measure EPC paging, scalability experiments measure throughput over the
    /// number of threads; a custom experiment keeps its own.
    pub open spec fn preconfigured(self) -> Self {
        match self.experiment_type {
            ExperimentType::Throughput => ProfilingConfiguration { measurement: Measurement::Throughput, ..self },
            ExperimentType::EpcPaging => ProfilingConfiguration { measurement: Measurement::EpcPaging, ..self },
            ExperimentType::Scalability => ProfilingConfiguration {
                measurement: Measurement::Throughput,
                parameter: Parameter::Threads,
                ..self
            },
            ExperimentType::Custom => self,
        }
    }

    /// Adjusts the measurement and parameter to the preconfigured experiment type.
    pub fn set_preconfigured_experiment(&mut self)
        ensures
            *final(self) == old(self).preconfigured(),
    {
        match self.experiment_type {
            ExperimentType::Throughput => {
                self.measurement = Measurement::Throughput;
            },
            ExperimentType::EpcPaging => {
                self.measurement = Measurement::EpcPaging;
            },
            ExperimentType::Scalability => {
                self.measurement = Measurement::Throughput;
                self.parameter = Parameter::Threads;
            },
            ExperimentType::Custom => {},
        }
    }
}

/// Law: preconfiguring an experiment sets only what its type fixes. Only a scalability
/// experiment fixes the parameter (to the number of threads); every other type keeps the
/// parameter it was given. Throughput and scalability experiments measure throughput, EPC
/// paging experiments measure EPC paging, and a custom experiment keeps its measurement.
/// The type, algorithms, range, datasets, platforms and sorting are never changed, and
/// preconfiguring twice is preconfiguring once.
pub proof fn law_preconfigured_sets_only_what_the_type_fixes(c: ProfilingConfiguration)
    ensures
        c.experiment_type != ExperimentType::Scalability ==> c.preconfigured().parameter == c.parameter,
        c.experiment_type == ExperimentType::Scalability ==> c.preconfigured().parameter == Parameter::Threads,
        c.preconfigured().measurement == match c.experiment_type {
            ExperimentType::Throughput | ExperimentType::Scalability => Measurement::Throughput,
            ExperimentType::EpcPaging => Measurement::EpcPaging,
            ExperimentType::Custom => c.measurement,
        },
        c.preconfigured().experiment_type == c.experiment_type,
        c.preconfigured().algorithm == c.algorithm,
        c.preconfigured().min == c.min,
        c.preconfigured().max == c.max,
        c.preconfigured().step == c.step,
        c.preconfigured().dataset == c.dataset,
        c.preconfigured().platform == c.platform,
        c.preconfigured().sort_data == c.sort_data,
        c.preconfigured().preconfigured() == c.preconfigured(),
{
}

impl ProfilingConfiguration {
    /// Whether this is the default configuration: all algorithms on SGX, both datasets,
    /// two to eight threads, measuring throughput.
    pub open spec fn is_default(self) -> bool {
        &&& self.algorithm@ == all_algorithms()
        &&& self.experiment_type == ExperimentType::Custom
        &&& self.parameter == Parameter::Threads
        &&& self.measurement == Measurement::Throughput
        &&& self.min == 2
        &&& self.max == 8
        &&& self.step == 1
        &&& self.dataset@ == seq![Dataset::CacheExceed, Dataset::CacheFit]
        &&& self.platform@ == seq![Platform::Sgx]
        &&& !self.sort_data
    }
}

impl Default for ProfilingConfiguration {
    /// All algorithms on SGX, both datasets, two to eight threads.
    fn default() -> (r: Self)
        ensures
            r.is_default(),
    {
        let mut algorithm: Vec<Algorithm> = Vec::new();
        algorithm.push(Algorithm::Rho);
        algorithm.push(Algorithm::Pht);
        algorithm.push(Algorithm::Psm);
        algorithm.push(Algorithm::Mway);
        algorithm.push(Algorithm::Rht);
        algorithm.push(Algorithm::Cht);
        algorithm.push(Algorithm::Rsm);
        algorithm.push(Algorithm::Inl);
        algorithm.push(Algorithm::Crkj);
        algorithm.push(Algorithm::Nlj);
        algorithm.push(Algorithm::Commit(0));
        assert(algorithm@ =~= all_algorithms());
        let mut dataset: Vec<Dataset> = Vec::new();
        dataset.push(Dataset::CacheExceed);
        dataset.push(Dataset::CacheFit);
        let mut platform: Vec<Platform> = Vec::new();
        platform.push(Platform::Sgx);
        assert(dataset@ =~= seq![Dataset::CacheExceed, Dataset::CacheFit]);
        assert(platform@ =~= seq![Platform::Sgx]);
        ProfilingConfiguration {
            algorithm,
            experiment_type: ExperimentType::Custom,
            parameter: Parameter::Threads,
            measurement: Measurement::Throughput,
            min: 2,
            max: 8,
            step: 1,
            dataset,
            platform,
            sort_data: false,
        }
    }
}


impl Default for JobConfig {
    /// A profiling job with the default configuration.
    fn default() -> (r: Self)
        ensures
            r matches JobConfig::Profiling(c) && c.is_default(),
    {
        JobConfig::Profiling(ProfilingConfiguration::default())
    }
}

impl From<ProfilingConfiguration> for JobConfig {
    /// The profiling job of the configuration.
    fn from(c: ProfilingConfiguration) -> (r: JobConfig) {
        JobConfig::Profiling(c)
    }
}

impl vstd::std_specs::convert::FromSpecImpl<ProfilingConfiguration> for JobConfig {
    open spec fn obeys_from_spec() -> bool {
        true
    }

    open spec fn from_spec(c: ProfilingConfiguration) -> JobConfig {
        JobConfig::Profiling(c)
    }
}

/// A set as its debug text shows it: its items between braces, separated by `, `.
pub open spec fn set_text(items: Seq<Seq<char>>) -> Seq<char> {
    seq!['{'] + joined(items, seq![',', ' ']) + seq!['}']
}

/// `true` or `false`.
pub open spec fn bool_text(b: bool) -> Seq<char> {
    if b { "true"@ } else { "false"@ }
}

/// The algorithms' variant names.
pub open spec fn algorithm_debug_names(algs: Seq<Algorithm>) -> Seq<Seq<char>> {
    algs.map_values(|a: Algorithm| a.debug_name(false))
}

/// The datasets' variant names.
pub open spec fn dataset_debug_names(ds: Seq<Dataset>) -> Seq<Seq<char>> {
    ds.map_values(|d: Dataset| d.debug_name())
}

/// The platforms' variant names.
pub open spec fn platform_debug_names(ps: Seq<Platform>) -> Seq<Seq<char>> {
    ps.map_values(|p: Platform| p.debug_name())
}

/// How a configuration is shown: one line per field, the parameter's range indented below it.
pub open spec fn configuration_text(c: ProfilingConfiguration) -> Seq<char> {
    "Configuration:\n    Algorithm(s): "@ + set_text(algorithm_debug_names(c.algorithm@))
        + "\n    Experiment Type: "@ + c.experiment_type.display()
        + "\n    Parameter: "@ + c.parameter.display()
        + "\n        min: "@ + decimal_int(c.min as int)
        + "\n        max: "@ + decimal_int(c.max as int)
        + "\n        step: "@ + decimal_int(c.step as int)
        + "\n    Measurement: "@ + c.measurement.display()
        + "\n    Dataset: "@ + set_text(dataset_debug_names(c.dataset@))
        + "\n    Platform: "@ + set_text(platform_debug_names(c.platform@))
        + "\n    Pre-sort data: "@ + bool_text(c.sort_data) + "\n"@
}

/// How a job is shown: the configuration of a profiling job, `PerfReport`, or `Compile`
/// and the commit's identifier.
pub open spec fn job_config_text(j: JobConfig) -> Seq<char> {
    match j {
        JobConfig::Profiling(c) => configuration_text(c),
        JobConfig::PerfReport(_) => "PerfReport"@,
        JobConfig::Compile(id) => "Compile "@ + decimal(id as nat),
    }
}

/// `items` between braces, separated by `, `.
fn set_string(items: &Vec<String>) -> (r: String)
    ensures
        r@ == set_text(items.deep_view()),
{
    let inner = join_strings(items, ", ");
    proof {
        reveal_strlit("{");
        reveal_strlit("}");
        reveal_strlit(", ");
        assert(", "@ =~= seq![',', ' ']);
    }
    let r = String::from_str("{").concat(inner.as_str()).concat("}");
    r
}

impl JobConfig {
    /// How the job is shown.
    pub fn to_string(&self) -> (r: String)
        ensures
            r@ == job_config_text(*self),
    {
        match self {
            JobConfig::Profiling(c) => c.to_string(),
            JobConfig::PerfReport(_) => String::from_str("PerfReport"),
            JobConfig::Compile(id) => {
                let n = u64_to_string(*id as u64);
                String::from_str("Compile ").concat(n.as_str())
            },
        }
    }
}

impl ProfilingConfiguration {
    /// The configuration of a profiling job.
    pub fn from(jc: JobConfig) -> (r: Self)
        requires
            jc is Profiling,
        ensures
            jc == JobConfig::Profiling(r),
    {
        match jc {
            JobConfig::Profiling(c) => c,
            _ => {
                proof {
                    assert(false);
                }
                ProfilingConfiguration::default()
            },
        }
    }

    /// How the configuration is shown.
    pub fn to_string(&self) -> (r: String)
        ensures
            r@ == configuration_text(*self),
    {
        let mut algs: Vec<String> = Vec::new();
        let mut i: usize = 0;
        while i < self.algorithm.len()
            invariant
                i <= self.algorithm@.len(),
                algs.deep_view() == algorithm_debug_names(self.algorithm@).subrange(0, i as int),
            decreases self.algorithm@.len() - i,
        {
            let ghost before = algs.deep_view();
            let name = self.algorithm[i].to_debug_string(false);
            algs.push(name);
            assert(algs.deep_view() =~= before.push(name@));
            assert(algorithm_debug_names(self.algorithm@).subrange(0, i + 1) =~= algorithm_debug_names(self.algorithm@).subrange(0, i as int).push(name@));
            i = i + 1;
        }
        let mut dss: Vec<String> = Vec::new();
        let mut i: usize = 0;
        while i < self.dataset.len()
            invariant
                i <= self.dataset@.len(),
                dss.deep_view() == dataset_debug_names(self.dataset@).subrange(0, i as int),
            decreases self.dataset@.len() - i,
        {
            let ghost before = dss.deep_view();
            let name = self.dataset[i].to_debug_string();
            dss.push(name);
            assert(dss.deep_view() =~= before.push(name@));
            assert(dataset_debug_names(self.dataset@).subrange(0, i + 1) =~= dataset_debug_names(self.dataset@).subrange(0, i as int).push(name@));
            i = i + 1;
        }
        let mut pls: Vec<String> = Vec::new();
        let mut i: usize = 0;
        while i < self.platform.len()
            invariant
                i <= self.platform@.len(),
                pls.deep_view() == platform_debug_names(self.platform@).subrange(0, i as int),
            decreases self.platform@.len() - i,
        {
            let ghost before = pls.deep_view();
            let name = self.platform[i].to_debug_string();
            pls.push(name);
            assert(pls.deep_view() =~= before.push(name@));
            assert(platform_debug_names(self.platform@).subrange(0, i + 1) =~= platform_debug_names(self.platform@).subrange(0, i as int).push(name@));
            i = i + 1;
        }
        assert(algorithm_debug_names(self.algorithm@).subrange(0, self.algorithm@.len() as int) =~= algorithm_debug_names(self.algorithm@));
        assert(dataset_debug_names(self.dataset@).subrange(0, self.dataset@.len() as int) =~= dataset_debug_names(self.dataset@));
        assert(platform_debug_names(self.platform@).subrange(0, self.platform@.len() as int) =~= platform_debug_names(self.platform@));
        let a = set_string(&algs);
        let d = set_string(&dss);
        let p = set_string(&pls);
        let sort = if self.sort_data { String::from_str("true") } else { String::from_str("false") };
        let r = String::from_str("Configuration:\n    Algorithm(s): ").concat(a.as_str())
            .concat("\n    Experiment Type: ").concat(self.experiment_type.to_string().as_str())
            .concat("\n    Parameter: ").concat(self.parameter.to_string().as_str())
            .concat("\n        min: ").concat(i64_to_string(self.min).as_str())
            .concat("\n        max: ").concat(i64_to_string(self.max).as_str())
            .concat("\n        step: ").concat(i64_to_string(self.step).as_str())
            .concat("\n    Measurement: ").concat(self.measurement.to_string().as_str())
            .concat("\n    Dataset: ").concat(d.as_str())
            .concat("\n    Platform: ").concat(p.as_str())
            .concat("\n    Pre-sort data: ").concat(sort.as_str()).concat("\n");
        r
    }

    /// Whether two configurations hold the same settings.
    pub open spec fn same_as(self, o: Self) -> bool {
        &&& self.algorithm@ == o.algorithm@
        &&& self.experiment_type == o.experiment_type
        &&& self.parameter == o.parameter
        &&& self.measurement == o.measurement
        &&& self.min == o.min
        &&& self.max == o.max
        &&& self.step == o.step
        &&& self.dataset@ == o.dataset@
        &&& self.platform@ == o.platform@
        &&& self.sort_data == o.sort_data
    }

    /// A copy of the configuration.
    pub fn duplicate(&self) -> (r: Self)
        ensures
            r.same_as(*self),
    {
        let mut algorithm: Vec<Algorithm> = Vec::new();
        let mut i: usize = 0;
        while i < self.algorithm.len()
            invariant
                i <= self.algorithm@.len(),
                algorithm@ == self.algorithm@.subrange(0, i as int),
            decreases self.algorithm@.len() - i,
        {
            algorithm.push(self.algorithm[i]);
            i = i + 1;
        }
        let mut dataset: Vec<Dataset> = Vec::new();
        let mut i: usize = 0;
        while i < self.dataset.len()
            invariant
                i <= self.dataset@.len(),
                dataset@ == self.dataset@.subrange(0, i as int),
            decreases self.dataset@.len() - i,
        {
            dataset.push(self.dataset[i]);
            i = i + 1;
        }
        let mut platform: Vec<Platform> = Vec::new();
        let mut i: usize = 0;
        while i < self.platform.len()
            invariant
                i <= self.platform@.len(),
                platform@ == self.platform@.subrange(0, i as int),
            decreases self.platform@.len() - i,
        {
            platform.push(self.platform[i]);
            i = i + 1;
        }
        assert(algorithm@ =~= self.algorithm@);
        assert(dataset@ =~= self.dataset@);
        assert(platform@ =~= self.platform@);
        ProfilingConfiguration {
            algorithm,
            experiment_type: self.experiment_type,
            parameter: self.parameter,
            measurement: self.measurement,
            min: self.min,
            max: self.max,
            step: self.step,
            dataset,
            platform,
            sort_data: self.sort_data,
        }
    }

    /// Whether `cmds` are the command lines of the chart of dataset `k` of the experiment:
    /// one for every combination of platform, algorithm and parameter value on that dataset,
    /// in the order of `to_teebench_cmd`.
    pub open spec fn is_chart_commands(self, k: int, cmds: Seq<CommandlineView>) -> bool {
        let np = self.platform@.len() as int;
        let na = self.algorithm@.len() as int;
        let vals = param_values(self.min as int, self.max as int, self.step as int);
        &&& cmds.len() == vals.len() * (1 * (na * np))
        &&& forall|pi: int, ai: int, vi: int|
            0 <= pi < np && 0 <= ai < na && 0 <= vi < vals.len()
                ==> #[trigger] cmds[cmd_index(np, na, 1, pi, ai, 0, vi)] == (
                self.platform@[pi],
                run_args(self.algorithm@[ai], self.sort_data, self.dataset@[k], self.parameter, vals[vi]),
            )
    }

    /// The command lines of the experiment, grouped by dataset: the commands of each
    /// chart, in the order of the datasets.
    pub fn chart_commands(&self) -> (r: Vec<Vec<Commandline>>)
        requires
            self.platform.len() > 0,
            self.algorithm.len() > 0,
            self.dataset.len() > 0,
            self.step != 0,
            self.min <= self.max,
        ensures
            r@.len() == self.dataset@.len(),
            forall|k: int| 0 <= k < r@.len() ==> self.is_chart_commands(k, cmds_view(#[trigger] r@[k]@)),
    {
        let mut r: Vec<Vec<Commandline>> = Vec::new();
        let mut k: usize = 0;
        while k < self.dataset.len()
            invariant
                k <= self.dataset@.len(),
                self.platform.len() > 0,
                self.algorithm.len() > 0,
                self.step != 0,
                self.min <= self.max,
                r@.len() == k,
                forall|j: int| 0 <= j < k ==> self.is_chart_commands(j, cmds_view(#[trigger] r@[j]@)),
            decreases self.dataset@.len() - k,
        {
            let mut c = self.duplicate();
            let mut ds: Vec<Dataset> = Vec::new();
            ds.push(self.dataset[k]);
            c.dataset = ds;
            let cmds = c.to_teebench_cmd();
            proof {
                let np = self.platform@.len() as int;
                let na = self.algorithm@.len() as int;
                let vals = param_values(self.min as int, self.max as int, self.step as int);
                assert forall|pi: int, ai: int, vi: int|
                    0 <= pi < np && 0 <= ai < na && 0 <= vi < vals.len()
                    implies #[trigger] cmds_view(cmds@)[cmd_index(np, na, 1, pi, ai, 0, vi)] == (
                        self.platform@[pi],
                        run_args(self.algorithm@[ai], self.sort_data, self.dataset@[k as int], self.parameter, vals[vi])) by {
                    assert(c.dataset@[0] == self.dataset@[k as int]);
                }
            }
            r.push(cmds);
            k = k + 1;
        }
        r
    }

    /// Whether `c` configures the chart of dataset `ds` of this experiment: this
    /// configuration adjusted to its preconfigured experiment, with `ds` as its only dataset.
    pub open spec fn is_chart_config(self, c: ProfilingConfiguration, ds: Dataset) -> bool {
        &&& c.dataset@ == seq![ds]
        &&& ProfilingConfiguration { dataset: self.dataset, ..c }.same_as(self.preconfigured())
    }

    /// The configurations of the charts of the experiment, one per dataset in order.
    pub fn chart_configs(&self) -> (r: Vec<JobConfig>)
        ensures
            r@.len() == self.dataset@.len(),
            forall|i: int| 0 <= i < r@.len() ==> (#[trigger] r@[i] matches JobConfig::Profiling(c)
                && self.is_chart_config(c, self.dataset@[i])),
    {
        let mut r: Vec<JobConfig> = Vec::new();
        let mut i: usize = 0;
        while i < self.dataset.len()
            invariant
                i <= self.dataset@.len(),
                r@.len() == i,
                forall|k: int| 0 <= k < i ==> (#[trigger] r@[k] matches JobConfig::Profiling(c)
                    && self.is_chart_config(c, self.dataset@[k])),
            decreases self.dataset@.len() - i,
        {
            let mut c = self.duplicate();
            c.set_preconfigured_experiment();
            let mut ds: Vec<Dataset> = Vec::new();
            ds.push(self.dataset[i]);
            c.dataset = ds;
            r.push(JobConfig::Profiling(c));
            i = i + 1;
        }
        r
    }
}

/// The TeeBench option that sets `param`.
pub open spec fn param_option(param: Parameter) -> ArgOption {
    match param {
        Parameter::Threads => ArgOption::Threads,
        Parameter::DataSkew => ArgOption::DataSkew,
        Parameter::JoinSelectivity => ArgOption::Selectivity,
    }
}

/// The largest value that the TeeBench option for `param` accepts.
pub open spec fn param_max(param: Parameter) -> nat {
    match param {
        Parameter::Threads => 255,
        Parameter::DataSkew => u32::MAX as nat,
        Parameter::JoinSelectivity => 255,
    }
}

/// Whether the arguments `a` are those of the run of `alg` on `app` and `ds` with `param` set
/// to `val`, the relations pre-sorted where `sort` is set, CSV output, and TeeBench's
/// defaults for everything else.
pub open spec fn is_run_of(a: TeebenchArgs, app: Platform, alg: Algorithm, sort: bool, ds: Dataset, param: Parameter, val: int) -> bool {
    &&& a.app_name == app
    &&& a.algorithm == alg
    &&& a.dataset == ds
    &&& a.threads == (if param == Parameter::Threads { val } else { 2 })
    &&& a.selectivity == (if param == Parameter::JoinSelectivity { val } else { 100 })
    &&& a.data_skew == (if param == Parameter::DataSkew { val } else { 0 })
    &&& a.seal_chunk_size == 0
    &&& a.r_tuples == 2097152
    &&& a.s_tuples == 2097152
    &&& a.r_path is None
    &&& a.s_path is None
    &&& a.r_size is None
    &&& a.s_size is None
    &&& !a.seal
    &&& a.sort_r == sort
    &&& a.sort_s == sort
    &&& a.csv
}

/// The characters of the names and arguments that command lines are made of.
pub(crate) proof fn reveal_names()
    ensures
        "-a"@ == seq!['-', 'a'],
        "-d"@ == seq!['-', 'd'],
        "-n"@ == seq!['-', 'n'],
        "-z"@ == seq!['-', 'z'],
        "-l"@ == seq!['-', 'l'],
        "--sort-r"@ == seq!['-', '-', 's', 'o', 'r', 't', '-', 'r'],
        "--sort-s"@ == seq!['-', '-', 's', 'o', 'r', 't', '-', 's'],
        "--csv"@ == seq!['-', '-', 'c', 's', 'v'],
        "sort-r"@ == seq!['s', 'o', 'r', 't', '-', 'r'],
        "sort-s"@ == seq!['s', 'o', 'r', 't', '-', 's'],
        "csv"@ == seq!['c', 's', 'v'],
        "help"@ == seq!['h', 'e', 'l', 'p'],
        "version"@ == seq!['v', 'e', 'r', 's', 'i', 'o', 'n'],
        "RHO"@ == seq!['R', 'H', 'O'],
        "PHT"@ == seq!['P', 'H', 'T'],
        "PSM"@ == seq!['P', 'S', 'M'],
        "MWAY"@ == seq!['M', 'W', 'A', 'Y'],
        "RHT"@ == seq!['R', 'H', 'T'],
        "CHT"@ == seq!['C', 'H', 'T'],
        "RSM"@ == seq!['R', 'S', 'M'],
        "INL"@ == seq!['I', 'N', 'L'],
        "CRKJ"@ == seq!['C', 'R', 'K', 'J'],
        "NLJ"@ == seq!['N', 'L', 'J'],
        "Latest Operator"@ == seq!['L', 'a', 't', 'e', 's', 't', ' ', 'O', 'p', 'e', 'r', 'a', 't', 'o', 'r'],
        "cache-fit"@ == seq!['c', 'a', 'c', 'h', 'e', '-', 'f', 'i', 't'],
        "cache-exceed"@ == seq!['c', 'a', 'c', 'h', 'e', '-', 'e', 'x', 'c', 'e', 'e', 'd'],
        "Cache Fit"@ == seq!['C', 'a', 'c', 'h', 'e', ' ', 'F', 'i', 't'],
        "Cache Exceed"@ == seq!['C', 'a', 'c', 'h', 'e', ' ', 'E', 'x', 'c', 'e', 'e', 'd'],
        "CacheFit"@ == seq!['C', 'a', 'c', 'h', 'e', 'F', 'i', 't'],
        "CacheExceed"@ == seq!['C', 'a', 'c', 'h', 'e', 'E', 'x', 'c', 'e', 'e', 'd'],
        "___"@ == seq!['_', '_', '_'],
        "dataset"@ == seq!['d', 'a', 't', 'a', 's', 'e', 't'],
        "algorithm"@ == seq!['a', 'l', 'g', 'o', 'r', 'i', 't', 'h', 'm'],
        "threads"@ == seq!['t', 'h', 'r', 'e', 'a', 'd', 's'],
        "selectivity"@ == seq!['s', 'e', 'l', 'e', 'c', 't', 'i', 'v', 'i', 't', 'y'],
        "data-skew"@ == seq!['d', 'a', 't', 'a', '-', 's', 'k', 'e', 'w'],
        "seal-chunk-size"@ == seq!['s', 'e', 'a', 'l', '-', 'c', 'h', 'u', 'n', 'k', '-', 's', 'i', 'z', 'e'],
        "r-tuples"@ == seq!['r', '-', 't', 'u', 'p', 'l', 'e', 's'],
        "s-tuples"@ == seq!['s', '-', 't', 'u', 'p', 'l', 'e', 's'],
        "r-path"@ == seq!['r', '-', 'p', 'a', 't', 'h'],
        "s-path"@ == seq!['s', '-', 'p', 'a', 't', 'h'],
        "r-size"@ == seq!['r', '-', 's', 'i', 'z', 'e'],
        "s-size"@ == seq!['s', '-', 's', 'i', 'z', 'e'],
        "seal"@ == seq!['s', 'e', 'a', 'l'],
{
    reveal_strlit("-a");
    reveal_strlit("-d");
    reveal_strlit("-n");
    reveal_strlit("-z");
    reveal_strlit("-l");
    reveal_strlit("--sort-r");
    reveal_strlit("--sort-s");
    reveal_strlit("--csv");
    reveal_strlit("sort-r");
    reveal_strlit("sort-s");
    reveal_strlit("csv");
    reveal_strlit("help");
    reveal_strlit("version");
    reveal_strlit("RHO");
    reveal_strlit("PHT");
    reveal_strlit("PSM");
    reveal_strlit("MWAY");
    reveal_strlit("RHT");
    reveal_strlit("CHT");
    reveal_strlit("RSM");
    reveal_strlit("INL");
    reveal_strlit("CRKJ");
    reveal_strlit("NLJ");
    reveal_strlit("Latest Operator");
    reveal_strlit("cache-fit");
    reveal_strlit("cache-exceed");
    reveal_strlit("Cache Fit");
    reveal_strlit("Cache Exceed");
    reveal_strlit("CacheFit");
    reveal_strlit("CacheExceed");
    reveal_strlit("___");
    reveal_strlit("dataset");
    reveal_strlit("algorithm");
    reveal_strlit("threads");
    reveal_strlit("selectivity");
    reveal_strlit("data-skew");
    reveal_strlit("seal-chunk-size");
    reveal_strlit("r-tuples");
    reveal_strlit("s-tuples");
    reveal_strlit("r-path");
    reveal_strlit("s-path");
    reveal_strlit("r-size");
    reveal_strlit("s-size");
    reveal_strlit("seal");
}

/// Each algorithm's printed name reads back as that algorithm (a commit as commit `0`).
pub proof fn lemma_algorithm_name_reads_back(alg: Algorithm)
    requires
        alg is Commit ==> alg == Algorithm::Commit(0),
    ensures
        algorithm_named(alg.display()) == Some(alg),
        algorithm_from_arg(alg.display()) == Some(alg),
        !dashed(alg.display()),
{
    reveal_names();
}

/// Each dataset's command line argument reads back as that dataset.
pub proof fn lemma_dataset_arg_reads_back(ds: Dataset)
    ensures
        dataset_from_arg(ds.cmd_arg()) == Some(ds),
        !dashed(ds.cmd_arg()),
{
    reveal_names();
}

/// The options that the arguments of a run amount to.
pub open spec fn run_occurrences(alg: Algorithm, sort: bool, ds: Dataset, param: Parameter, val: int) -> Seq<Occurrence> {
    seq![(ArgOption::Algorithm, alg.display())]
        + (if sort { seq![(ArgOption::SortR, Seq::<char>::empty()), (ArgOption::SortS, Seq::<char>::empty())] } else { Seq::<Occurrence>::empty() })
        + seq![(ArgOption::Dataset, ds.cmd_arg()), (param_option(param), decimal_int(val)), (ArgOption::Csv, Seq::<char>::empty())]
}

/// The arguments of a run read as its options.
proof fn lemma_run_args_scan(alg: Algorithm, sort: bool, ds: Dataset, param: Parameter, val: int)
    requires
        alg is Commit ==> alg == Algorithm::Commit(0),
        0 <= val,
    ensures
        scan(run_args(alg, sort, ds, param, val), 0, Seq::empty()) == Ok::<Seq<Occurrence>, crate::args::ArgsError>(run_occurrences(alg, sort, ds, param, val)),
{
    reveal_names();
    let ts = run_args(alg, sort, ds, param, val);
    let pc = match param { Parameter::Threads => 'n', Parameter::DataSkew => 'z', Parameter::JoinSelectivity => 'l' };
    let po = param_option(param);
    lemma_algorithm_name_reads_back(alg);
    lemma_dataset_arg_reads_back(ds);
    lemma_decimal_reads_back(val as nat);
    assert(decimal_int(val) == decimal(val as nat));
    assert(!dashed(decimal_int(val)));
    assert(param.flag() == seq!['-', pc]);
    assert(option_by_short(pc) == Some(po));
    let e = Seq::<char>::empty();
    let a1 = seq![(ArgOption::Algorithm, alg.display())];
    lemma_read_short(ts, 0, 'a', ArgOption::Algorithm);
    lemma_scan_step(ts, 0, Seq::empty(), ArgOption::Algorithm, alg.display(), 2);
    assert(Seq::<Occurrence>::empty().push((ArgOption::Algorithm, alg.display())) =~= a1);
    let k: int = if sort { 4 } else { 2 };
    let a2 = if sort {
        seq![(ArgOption::Algorithm, alg.display()), (ArgOption::SortR, e), (ArgOption::SortS, e)]
    } else {
        a1
    };
    if sort {
        assert("--sort-r"@ =~= seq!['-', '-'] + "sort-r"@);
        assert("--sort-s"@ =~= seq!['-', '-'] + "sort-s"@);
        lemma_read_long_flag(ts, 2, "sort-r"@, ArgOption::SortR);
        assert(!has_option(a1, ArgOption::SortR));
        lemma_scan_step(ts, 2, a1, ArgOption::SortR, e, 3);
        let a15 = a1.push((ArgOption::SortR, e));
        lemma_read_long_flag(ts, 3, "sort-s"@, ArgOption::SortS);
        assert(!has_option(a15, ArgOption::SortS));
        lemma_scan_step(ts, 3, a15, ArgOption::SortS, e, 4);
        assert(a15.push((ArgOption::SortS, e)) =~= a2);
    }
    assert(ts[k] == "-d"@ && ts[k + 1] == ds.cmd_arg());
    assert(ts[k + 2] == param.flag() && ts[k + 3] == decimal_int(val));
    assert(ts[k + 4] == "--csv"@);
    assert(ts.len() == k + 5);
    lemma_read_short(ts, k, 'd', ArgOption::Dataset);
    assert(!has_option(a2, ArgOption::Dataset));
    lemma_scan_step(ts, k, a2, ArgOption::Dataset, ds.cmd_arg(), k + 2);
    let a3 = a2.push((ArgOption::Dataset, ds.cmd_arg()));
    lemma_read_short(ts, k + 2, pc, po);
    assert(!has_option(a3, po));
    lemma_scan_step(ts, k + 2, a3, po, decimal_int(val), k + 4);
    let a4 = a3.push((po, decimal_int(val)));
    assert("--csv"@ =~= seq!['-', '-'] + "csv"@);
    lemma_read_long_flag(ts, k + 4, "csv"@, ArgOption::Csv);
    assert(!has_option(a4, ArgOption::Csv));
    lemma_scan_step(ts, k + 4, a4, ArgOption::Csv, e, k + 5);
    assert(a4.push((ArgOption::Csv, e)) =~= run_occurrences(alg, sort, ds, param, val));
}

/// Law: the arguments of every run of a profiling experiment read back, by the TeeBench
/// grammar, as exactly that run: its algorithm, dataset, parameter value and pre-sorting,
/// CSV output and TeeBench's defaults otherwise. It holds for every algorithm except
/// commits other than commit `0` (all commits print alike), and for parameter values
/// that the option accepts.
pub proof fn law_run_args_read_back(app: Platform, alg: Algorithm, sort: bool, ds: Dataset, param: Parameter, val: int)
    requires
        alg is Commit ==> alg == Algorithm::Commit(0),
        0 <= val <= param_max(param),
    ensures
        parse_args(run_args(alg, sort, ds, param, val)) matches Ok(occs) && forall|a: TeebenchArgs|
            #[trigger] args_from_occurrences(a, app, occs) ==> is_run_of(a, app, alg, sort, ds, param, val),
{
    reveal_names();
    lemma_run_args_scan(alg, sort, ds, param, val);
    lemma_algorithm_name_reads_back(alg);
    lemma_dataset_arg_reads_back(ds);
    let occs = run_occurrences(alg, sort, ds, param, val);
    let po = param_option(param);
    let k: int = if sort { 3 } else { 1 };
    assert(occs.len() == k + 3);
    assert(occs[0] == (ArgOption::Algorithm, alg.display()));
    assert(occs[k] == (ArgOption::Dataset, ds.cmd_arg()));
    assert(occs[k + 1] == (po, decimal_int(val)));
    assert(occs[k + 2] == (ArgOption::Csv, Seq::<char>::empty()));
    if sort {
        assert(occs[1].0 == ArgOption::SortR);
        assert(occs[2].0 == ArgOption::SortS);
    }
    lemma_occurrence_at(occs, ArgOption::Algorithm, 0);
    lemma_occurrence_at(occs, ArgOption::Dataset, k);
    lemma_occurrence_at(occs, po, k + 1);
    lemma_parse_decimal(val as nat, param_max(param));
    assert(decimal_int(val) == decimal(val as nat));
    assert forall|o: ArgOption|
        o != ArgOption::Algorithm && o != ArgOption::Dataset && o != po && o != ArgOption::Csv
            && o != ArgOption::SortR && o != ArgOption::SortS
        implies #[trigger] occurrence(occs, o) is None && !has_option(occs, o) by {
        assert forall|m: int| 0 <= m < occs.len() implies occs[m].0 != o by {
            if sort { assert(m < 6); } else { assert(m < 4); }
        }
        lemma_occurrence_none(occs, o);
    }
    assert(occurrence(occs, ArgOption::SealChunkSize) is None);
    assert(occurrence(occs, ArgOption::RTuples) is None);
    assert(occurrence(occs, ArgOption::STuples) is None);
    assert(occurrence(occs, ArgOption::RPath) is None);
    assert(occurrence(occs, ArgOption::SPath) is None);
    assert(occurrence(occs, ArgOption::RSize) is None);
    assert(occurrence(occs, ArgOption::SSize) is None);
    assert(occurrence(occs, ArgOption::Seal) is None && !has_option(occs, ArgOption::Seal));
    assert(has_option(occs, ArgOption::Csv));
    if sort {
        assert(has_option(occs, ArgOption::SortR));
        assert(has_option(occs, ArgOption::SortS));
    } else {
        assert forall|m: int| 0 <= m < occs.len() implies occs[m].0 != ArgOption::SortR && occs[m].0 != ArgOption::SortS by {
            assert(m < 4);
        }
    }
    if param != Parameter::Threads {
        assert(occurrence(occs, ArgOption::Threads) is None);
    }
    if param != Parameter::JoinSelectivity {
        assert(occurrence(occs, ArgOption::Selectivity) is None);
    }
    if param != Parameter::DataSkew {
        assert(occurrence(occs, ArgOption::DataSkew) is None);
    }
    assert(number_value(occs, po, param_max(param), 0) == Some(val as nat));
    assert(crate::args::first_invalid(occs) is None);
    assert forall|a: TeebenchArgs| #[trigger] args_from_occurrences(a, app, occs) implies is_run_of(a, app, alg, sort, ds, param, val) by {
        assert(text_matches(a.r_path, None));
        assert(text_matches(a.s_path, None));
    }
}

} // verus!
