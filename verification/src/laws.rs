//! Properties that relate several operations of the library: names that read back as
//! what printed them, lookups that find what was stored, adjustments that settle.

use vstd::prelude::*;
use crate::commit::{first_with_id, is_latest, lemma_first_with_id_at, lemma_first_with_id_spec, Commit};
use crate::data_types::{
    algorithm_from_arg, algorithm_named, dataset_from_arg, dataset_named, experiment_type_named, measurement_named,
    operator_named, parameter_named, platform_named, platform_of_app, Algorithm, Dataset, ExperimentType, Measurement,
    Operator, Parameter, Platform,
};
use crate::args::{
    args_from_occurrences, dashed, first_invalid, has_option, lemma_occurrence_at, lemma_occurrence_none, lemma_read_short,
    lemma_scan_step, occurrence, option_by_long, option_by_short, parse_args, read_token, scan, ArgOption, ArgsError, Occurrence,
};
use crate::runner::text_view;
use crate::text::{decimal, lemma_decimal_reads_back, lemma_parse_decimal};
use crate::profiling::{
    cmd_index, is_experiment_expansion, is_run_of, lemma_algorithm_name_reads_back, law_run_args_read_back, param_max, param_values, reveal_names, run_args, ProfilingConfiguration,
};
use crate::commandline::CommandlineView;
use crate::data_types::TeebenchArgs;

verus! {

/// A dataset's printed name reads back as that dataset, both by name and as a
/// command line argument.
pub proof fn law_dataset_name_round_trip(d: Dataset)
    ensures
        dataset_named(d.display()) == Some(d),
        dataset_from_arg(d.display()) == Some(d),
{
    reveal_names();
}

/// The argument that selects a dataset on a command line reads back as that dataset.
pub proof fn law_dataset_arg_round_trip(d: Dataset)
    ensures
        dataset_from_arg(d.cmd_arg()) == Some(d),
{
    reveal_names();
}

/// The argument that selects an algorithm on a command line reads back as that
/// algorithm; every commit reads back as the current commit, commit `1`.
pub proof fn law_algorithm_arg_round_trip(a: Algorithm)
    ensures
        algorithm_from_arg(a.cmd_arg()) == Some(if a is Commit { Algorithm::Commit(1) } else { a }),
{
    reveal_names();
}

/// An algorithm's printed name reads back as that algorithm; every commit reads back as
/// commit `0`.
pub proof fn law_algorithm_name_round_trip(a: Algorithm)
    ensures
        algorithm_named(a.display()) == Some(if a is Commit { Algorithm::Commit(0) } else { a }),
{
    reveal_names();
}

/// The executable that runs a platform's experiments, without its leading `./`, is
/// recognised as that platform.
pub proof fn law_platform_app_name_round_trip(p: Platform)
    ensures
        p.app_name().len() > 2,
        p.app_name().subrange(0, 2) == "./"@,
        platform_of_app(p.app_name().subrange(2, p.app_name().len() as int)) == Some(p),
{
    reveal_strlit("./sgx");
    reveal_strlit("./native");
    reveal_strlit("./");
    reveal_strlit("sgx");
    reveal_strlit("native");
    reveal_strlit("fake_teebench");
    reveal_strlit("app");
    assert("./sgx"@.subrange(2, 5) =~= "sgx"@);
    assert("./native"@.subrange(2, 8) =~= "native"@);
    assert("./sgx"@.subrange(0, 2) =~= "./"@);
    assert("./native"@.subrange(0, 2) =~= "./"@);
}

/// The characters of the printed names of operators, experiment types, parameters,
/// measurements and platforms.
proof fn reveal_printed_names()
    ensures
        "JOIN"@ == seq!['J', 'O', 'I', 'N'],
        "GROUP BY"@ == seq!['G', 'R', 'O', 'U', 'P', ' ', 'B', 'Y'],
        "PROJECTION"@ == seq!['P', 'R', 'O', 'J', 'E', 'C', 'T', 'I', 'O', 'N'],
        "ORDER BY"@ == seq!['O', 'R', 'D', 'E', 'R', ' ', 'B', 'Y'],
        "EPC Paging"@ == seq!['E', 'P', 'C', ' ', 'P', 'a', 'g', 'i', 'n', 'g'],
        "Throughput"@ == seq!['T', 'h', 'r', 'o', 'u', 'g', 'h', 'p', 'u', 't'],
        "Scalability"@ == seq!['S', 'c', 'a', 'l', 'a', 'b', 'i', 'l', 'i', 't', 'y'],
        "Custom"@ == seq!['C', 'u', 's', 't', 'o', 'm'],
        "Threads"@ == seq!['T', 'h', 'r', 'e', 'a', 'd', 's'],
        "Data Skew"@ == seq!['D', 'a', 't', 'a', ' ', 'S', 'k', 'e', 'w'],
        "Join Selectivity"@ == seq!['J', 'o', 'i', 'n', ' ', 'S', 'e', 'l', 'e', 'c', 't', 'i', 'v', 'i', 't', 'y'],
        "Epc Paging"@ == seq!['E', 'p', 'c', ' ', 'P', 'a', 'g', 'i', 'n', 'g'],
        "SGX"@ == seq!['S', 'G', 'X'],
        "Native"@ == seq!['N', 'a', 't', 'i', 'v', 'e'],
{
    reveal_strlit("JOIN");
    reveal_strlit("GROUP BY");
    reveal_strlit("PROJECTION");
    reveal_strlit("ORDER BY");
    reveal_strlit("EPC Paging");
    reveal_strlit("Throughput");
    reveal_strlit("Scalability");
    reveal_strlit("Custom");
    reveal_strlit("Threads");
    reveal_strlit("Data Skew");
    reveal_strlit("Join Selectivity");
    reveal_strlit("Epc Paging");
    reveal_strlit("SGX");
    reveal_strlit("Native");
}

/// The printed names of operators, experiment types, parameters, measurements and
/// platforms read back as what printed them.
pub proof fn law_printed_names_read_back(o: Operator, e: ExperimentType, p: Parameter, m: Measurement, pl: Platform)
    ensures
        operator_named(o.display()) == Some(o),
        experiment_type_named(e.display()) == Some(e),
        parameter_named(p.display()) == Some(p),
        measurement_named(m.display()) == Some(m),
        platform_named(pl.display()) == Some(pl),
{
    reveal_printed_names();
}

/// After a commit with a new identifier is appended, looking that identifier up finds
/// the appended commit, and every identifier found before is found where it was.
pub proof fn law_push_then_find(s: Seq<Commit>, c: Commit, id: usize)
    requires
        first_with_id(s, c.id) is None,
    ensures
        first_with_id(s.push(c), c.id) == Some(s.len() as int),
        id != c.id ==> first_with_id(s.push(c), id) == first_with_id(s, id),
{
    lemma_push_finds_new(s, c);
    if id != c.id {
        lemma_push_keeps_others(s, c, id);
    }
}

proof fn lemma_push_finds_new(s: Seq<Commit>, c: Commit)
    requires
        first_with_id(s, c.id) is None,
    ensures
        first_with_id(s.push(c), c.id) == Some(s.len() as int),
{
    let t = s.push(c);
    lemma_first_with_id_spec(s, c.id);
    assert forall|m: int| 0 <= m < s.len() implies (#[trigger] t[m]).id != c.id by {
        assert(t[m] == s[m]);
    }
    lemma_first_with_id_at(t, c.id, s.len() as int);
}

proof fn lemma_push_keeps_others(s: Seq<Commit>, c: Commit, id: usize)
    requires
        id != c.id,
    ensures
        first_with_id(s.push(c), id) == first_with_id(s, id),
{
    let t = s.push(c);
    lemma_first_with_id_spec(s, id);
    match first_with_id(s, id) {
        Some(k) => {
            assert forall|m: int| 0 <= m < k implies (#[trigger] t[m]).id != id by {
                assert(t[m] == s[m]);
            }
            assert(t[k] == s[k]);
            lemma_first_with_id_at(t, id, k);
        },
        None => {
            assert forall|m: int| 0 <= m < t.len() implies (#[trigger] t[m]).id != id by {
                if m < s.len() {
                    assert(t[m] == s[m]);
                }
            }
            lemma_first_with_id_spec(t, id);
        },
    }
}

/// A commit appended with an identifier above all others is the latest one.
pub proof fn law_push_newest_is_latest(s: Seq<Commit>, c: Commit)
    requires
        forall|m: int| 0 <= m < s.len() ==> s[m].id < c.id,
    ensures
        is_latest(s.push(c), s.len() as int),
{
    let t = s.push(c);
    assert forall|m: int| 0 <= m < t.len() implies #[trigger] t[m].id <= t[s.len() as int].id by {
        if m < s.len() {
            assert(t[m] == s[m]);
        }
    }
}

/// Adjusting a configuration to its preconfigured experiment a second time changes
/// nothing.
pub proof fn law_preconfigured_settles(c: ProfilingConfiguration)
    ensures
        c.preconfigured().preconfigured() == c.preconfigured(),
{
}

/// The values a parameter takes with a positive step: `min`, then each one `step` above
/// the one before, all up to `max`, and the next one would pass `max`.
pub proof fn law_param_values_step(min: int, max: int, step: int)
    requires
        step > 0,
        min <= max,
    ensures
        param_values(min, max, step).len() > 0,
        forall|i: int| 0 <= i < param_values(min, max, step).len() ==> #[trigger] param_values(min, max, step)[i] == min + i * step
            && param_values(min, max, step)[i] <= max,
        min + param_values(min, max, step).len() * step > max,
    decreases max - min,
{
    let vals = param_values(min, max, step);
    if min + step <= max {
        law_param_values_step(min + step, max, step);
        let rest = param_values(min + step, max, step);
        assert(vals == seq![min] + rest);
        assert forall|i: int| 0 <= i < vals.len() implies #[trigger] vals[i] == min + i * step && vals[i] <= max by {
            if i > 0 {
                assert(vals[i] == rest[i - 1]);
                assert(min + step + (i - 1) * step == min + i * step) by (nonlinear_arith);
            } else {
                assert(i * step == 0) by (nonlinear_arith) requires i == 0;
            }
        }
        assert(min + step + rest.len() * step == min + vals.len() * step) by (nonlinear_arith)
            requires vals.len() == rest.len() + 1;
    } else {
        assert(param_values(min + step, max, step).len() == 0);
        assert(vals =~= seq![min]);
        assert forall|i: int| 0 <= i < vals.len() implies #[trigger] vals[i] == min + i * step && vals[i] <= max by {
            assert(i * step == 0) by (nonlinear_arith) requires i == 0;
        }
        assert(min + vals.len() * step > max) by (nonlinear_arith)
            requires vals.len() == 1, min + step > max;
    }
}

/// The value that the arguments `a` give the varied parameter.
pub open spec fn parameter_value(a: TeebenchArgs, param: Parameter) -> int {
    match param {
        Parameter::Threads => a.threads as int,
        Parameter::DataSkew => a.data_skew as int,
        Parameter::JoinSelectivity => a.selectivity as int,
    }
}

/// Whether the arguments `a` belong to the experiment `cfg`: a platform, algorithm and
/// dataset of the experiment, one of its parameter values, its pre-sorting and CSV output.
pub open spec fn within_configuration(a: TeebenchArgs, cfg: ProfilingConfiguration) -> bool {
    &&& cfg.platform@.contains(a.app_name)
    &&& cfg.algorithm@.contains(a.algorithm)
    &&& cfg.dataset@.contains(a.dataset)
    &&& param_values(cfg.min as int, cfg.max as int, cfg.step as int).contains(parameter_value(a, cfg.parameter))
    &&& a.sort_r == cfg.sort_data
    &&& a.sort_s == cfg.sort_data
    &&& a.csv
}

/// The arguments of the run of platform `pi`, algorithm `ai`, dataset `di` and value `vi`
/// of the experiment `cfg` (the command line that `to_teebench_cmd` puts at
/// `cmd_index(.., pi, ai, di, vi)`).
pub open spec fn experiment_run(cfg: ProfilingConfiguration, ai: int, di: int, vi: int) -> Seq<Seq<char>> {
    run_args(
        cfg.algorithm@[ai],
        cfg.sort_data,
        cfg.dataset@[di],
        cfg.parameter,
        param_values(cfg.min as int, cfg.max as int, cfg.step as int)[vi],
    )
}

/// Every command line of a profiling experiment reads back as arguments within that
/// experiment (its platform, one of its algorithms, datasets and parameter values, its
/// pre-sorting and CSV output), and two different command lines never read back as the
/// same arguments, so results kept by their arguments never collide. It holds where the
/// experiment's algorithms, datasets and platforms are sets, the step is positive, the
/// range is not empty and fits the parameter's option, and no algorithm is a commit
/// other than commit `0` (all commits print alike).
pub proof fn law_experiment_commands_read_back(
    cfg: ProfilingConfiguration,
    pi: int, ai: int, di: int, vi: int,
    pj: int, aj: int, dj: int, vj: int,
)
    requires
        cfg.well_formed(),
        forall|k: int| 0 <= k < cfg.algorithm@.len() ==> (#[trigger] cfg.algorithm@[k] is Commit ==> cfg.algorithm@[k] == Algorithm::Commit(0)),
        cfg.step > 0,
        0 <= cfg.min <= cfg.max,
        cfg.max <= param_max(cfg.parameter),
        0 <= pi < cfg.platform@.len(),
        0 <= pj < cfg.platform@.len(),
        0 <= ai < cfg.algorithm@.len(),
        0 <= aj < cfg.algorithm@.len(),
        0 <= di < cfg.dataset@.len(),
        0 <= dj < cfg.dataset@.len(),
        0 <= vi < param_values(cfg.min as int, cfg.max as int, cfg.step as int).len(),
        0 <= vj < param_values(cfg.min as int, cfg.max as int, cfg.step as int).len(),
    ensures
        parse_args(experiment_run(cfg, ai, di, vi)) is Ok,
        forall|a: TeebenchArgs| #[trigger] args_from_occurrences(a, cfg.platform@[pi], parse_args(experiment_run(cfg, ai, di, vi))->Ok_0)
            ==> a.app_name == cfg.platform@[pi] && within_configuration(a, cfg),
        (pi, ai, di, vi) != (pj, aj, dj, vj) ==> forall|a: TeebenchArgs, b: TeebenchArgs|
            args_from_occurrences(a, cfg.platform@[pi], parse_args(experiment_run(cfg, ai, di, vi))->Ok_0)
            && args_from_occurrences(b, cfg.platform@[pj], parse_args(experiment_run(cfg, aj, dj, vj))->Ok_0) ==> a != b,
{
    let vals = param_values(cfg.min as int, cfg.max as int, cfg.step as int);
    law_param_values_step(cfg.min as int, cfg.max as int, cfg.step as int);
    assert(vals[vi] == cfg.min + vi * cfg.step && vals[vi] <= cfg.max);
    assert(vals[vj] == cfg.min + vj * cfg.step && vals[vj] <= cfg.max);
    assert(0 <= vi * cfg.step) by (nonlinear_arith) requires 0 <= vi, cfg.step > 0;
    assert(0 <= vj * cfg.step) by (nonlinear_arith) requires 0 <= vj, cfg.step > 0;
    let alg_i = cfg.algorithm@[ai];
    let alg_j = cfg.algorithm@[aj];
    law_run_args_read_back(cfg.platform@[pi], alg_i, cfg.sort_data, cfg.dataset@[di], cfg.parameter, vals[vi]);
    law_run_args_read_back(cfg.platform@[pj], alg_j, cfg.sort_data, cfg.dataset@[dj], cfg.parameter, vals[vj]);
    assert forall|a: TeebenchArgs| #[trigger] args_from_occurrences(a, cfg.platform@[pi], parse_args(experiment_run(cfg, ai, di, vi))->Ok_0)
        implies a.app_name == cfg.platform@[pi] && within_configuration(a, cfg) by {
        assert(is_run_of(a, cfg.platform@[pi], alg_i, cfg.sort_data, cfg.dataset@[di], cfg.parameter, vals[vi]));
        assert(cfg.platform@[pi] == a.app_name);
        assert(cfg.algorithm@[ai] == a.algorithm);
        assert(cfg.dataset@[di] == a.dataset);
        assert(vals[vi] == parameter_value(a, cfg.parameter));
    }
    if (pi, ai, di, vi) != (pj, aj, dj, vj) {
        assert forall|a: TeebenchArgs, b: TeebenchArgs|
            args_from_occurrences(a, cfg.platform@[pi], parse_args(experiment_run(cfg, ai, di, vi))->Ok_0)
            && args_from_occurrences(b, cfg.platform@[pj], parse_args(experiment_run(cfg, aj, dj, vj))->Ok_0) implies a != b by {
            assert(is_run_of(a, cfg.platform@[pi], alg_i, cfg.sort_data, cfg.dataset@[di], cfg.parameter, vals[vi]));
            assert(is_run_of(b, cfg.platform@[pj], alg_j, cfg.sort_data, cfg.dataset@[dj], cfg.parameter, vals[vj]));
            if a == b {
                assert(vals[vi] == parameter_value(a, cfg.parameter));
                assert(vals[vj] == parameter_value(b, cfg.parameter));
                assert(vi == vj) by (nonlinear_arith)
                    requires cfg.min + vi * cfg.step == cfg.min + vj * cfg.step, cfg.step > 0;
            }
        }
    }
}


/// Every position of an expansion of `nv` values, `nd` datasets, `na` algorithms and `np`
/// platforms is the position of one combination of them.
pub proof fn lemma_cmd_index_onto(np: int, na: int, nd: int, nv: int, i: int) -> (t: (int, int, int, int))
    requires
        np > 0,
        na > 0,
        nd > 0,
        0 <= i < nv * (nd * (na * np)),
    ensures
        0 <= t.0 < np,
        0 <= t.1 < na,
        0 <= t.2 < nd,
        0 <= t.3 < nv,
        cmd_index(np, na, nd, t.0, t.1, t.2, t.3) == i,
{
    let m2 = na * np;
    let m1 = nd * m2;
    assert(na * np > 0) by (nonlinear_arith) requires na > 0, np > 0;
    assert(nd * m2 > 0) by (nonlinear_arith) requires nd > 0, m2 > 0;
    let vi = i / m1;
    let r1 = i % m1;
    let di = r1 / m2;
    let r2 = r1 % m2;
    let ai = r2 / np;
    let pi = r2 % np;
    vstd::arithmetic::div_mod::lemma_fundamental_div_mod(i, m1);
    vstd::arithmetic::div_mod::lemma_fundamental_div_mod(r1, m2);
    vstd::arithmetic::div_mod::lemma_fundamental_div_mod(r2, np);
    vstd::arithmetic::div_mod::lemma_mod_bound(i, m1);
    vstd::arithmetic::div_mod::lemma_mod_bound(r1, m2);
    vstd::arithmetic::div_mod::lemma_mod_bound(r2, np);
    assert(0 <= vi < nv) by (nonlinear_arith)
        requires i == m1 * vi + r1, 0 <= r1 < m1, 0 <= i < nv * m1;
    assert(0 <= di < nd) by (nonlinear_arith)
        requires r1 == m2 * di + r2, 0 <= r2 < m2, 0 <= r1 < m1, m1 == nd * m2;
    assert(0 <= ai < na) by (nonlinear_arith)
        requires r2 == np * ai + pi, 0 <= pi < np, 0 <= r2 < m2, m2 == na * np;
    assert(vi * m1 == m1 * vi) by (nonlinear_arith);
    assert(di * m2 == m2 * di) by (nonlinear_arith);
    assert(ai * np == np * ai) by (nonlinear_arith);
    (pi, ai, di, vi)
}

/// Every command line of an experiment's expansion reads back: its arguments parse, the
/// run they describe is on the command's platform and within the experiment (one of its
/// platforms, algorithms, datasets and parameter values, sorted as it says, with CSV
/// output), and two different command lines of the expansion never describe the same
/// run, so results kept by their arguments never collide.
pub proof fn law_experiment_expansion_reads_back(cfg: ProfilingConfiguration, cmds: Seq<CommandlineView>)
    requires
        cfg.well_formed(),
        cfg.platform@.len() > 0,
        cfg.algorithm@.len() > 0,
        cfg.dataset@.len() > 0,
        forall|k: int| 0 <= k < cfg.algorithm@.len() ==> (#[trigger] cfg.algorithm@[k] is Commit ==> cfg.algorithm@[k] == Algorithm::Commit(0)),
        cfg.step > 0,
        0 <= cfg.min <= cfg.max,
        cfg.max <= param_max(cfg.parameter),
        is_experiment_expansion(cfg, cmds),
    ensures
        forall|i: int| 0 <= i < cmds.len() ==> (#[trigger] parse_args(cmds[i].1)) is Ok,
        forall|i: int, a: TeebenchArgs| 0 <= i < cmds.len()
            && #[trigger] args_from_occurrences(a, cmds[i].0, parse_args(cmds[i].1)->Ok_0)
            ==> a.app_name == cmds[i].0 && within_configuration(a, cfg),
        forall|i: int, j: int, a: TeebenchArgs, b: TeebenchArgs| 0 <= i < cmds.len() && 0 <= j < cmds.len() && i != j
            && #[trigger] args_from_occurrences(a, cmds[i].0, parse_args(cmds[i].1)->Ok_0)
            && #[trigger] args_from_occurrences(b, cmds[j].0, parse_args(cmds[j].1)->Ok_0) ==> a != b,
{
    let np = cfg.platform@.len() as int;
    let na = cfg.algorithm@.len() as int;
    let nd = cfg.dataset@.len() as int;
    let nv = param_values(cfg.min as int, cfg.max as int, cfg.step as int).len() as int;
    assert forall|i: int| 0 <= i < cmds.len() implies (#[trigger] parse_args(cmds[i].1)) is Ok by {
        let t = lemma_cmd_index_onto(np, na, nd, nv, i);
        law_experiment_commands_read_back(cfg, t.0, t.1, t.2, t.3, t.0, t.1, t.2, t.3);
    }
    assert forall|i: int, a: TeebenchArgs| 0 <= i < cmds.len()
        && #[trigger] args_from_occurrences(a, cmds[i].0, parse_args(cmds[i].1)->Ok_0)
        implies a.app_name == cmds[i].0 && within_configuration(a, cfg) by {
        let t = lemma_cmd_index_onto(np, na, nd, nv, i);
        law_experiment_commands_read_back(cfg, t.0, t.1, t.2, t.3, t.0, t.1, t.2, t.3);
    }
    assert forall|i: int, j: int, a: TeebenchArgs, b: TeebenchArgs| 0 <= i < cmds.len() && 0 <= j < cmds.len() && i != j
        && #[trigger] args_from_occurrences(a, cmds[i].0, parse_args(cmds[i].1)->Ok_0)
        && #[trigger] args_from_occurrences(b, cmds[j].0, parse_args(cmds[j].1)->Ok_0) implies a != b by {
        let t = lemma_cmd_index_onto(np, na, nd, nv, i);
        let u = lemma_cmd_index_onto(np, na, nd, nv, j);
        law_experiment_commands_read_back(cfg, t.0, t.1, t.2, t.3, u.0, u.1, u.2, u.3);
    }
}


/// The arguments that name the algorithm `alg` and then give `rest`.
pub open spec fn with_algorithm(alg: Algorithm, rest: Seq<Seq<char>>) -> Seq<Seq<char>> {
    seq![seq!['-', 'a'], alg.display()] + rest
}

/// The options of `-a <alg>` followed by option `o` with the value `v`.
pub open spec fn algorithm_and(alg: Algorithm, o: ArgOption, v: Seq<char>) -> Seq<Occurrence> {
    seq![(ArgOption::Algorithm, alg.display()), (o, v)]
}

/// The settings of a run besides its platform and algorithm: dataset, threads,
/// selectivity and skew; seal chunk size and the tuple counts of R and S; the sizes of R
/// and S and their paths by their text; and the flags to seal, to pre-sort R and S, and to
/// print CSV.
pub type RunSettings = (
    (Dataset, u8, u8, u32),
    (u32, u32, u32),
    (Option<u32>, Option<u32>, Option<Seq<char>>, Option<Seq<char>>),
    (bool, bool, bool, bool),
);

/// The settings of the run `a`.
pub open spec fn run_settings(a: TeebenchArgs) -> RunSettings {
    (
        (a.dataset, a.threads, a.selectivity, a.data_skew),
        (a.seal_chunk_size, a.r_tuples, a.s_tuples),
        (a.r_size, a.s_size, text_view(a.r_path), text_view(a.s_path)),
        (a.seal, a.sort_r, a.sort_s, a.csv),
    )
}

/// Whether the argument list `ts` parses, and every run it reads back as on `app` has the
/// algorithm `alg` and the settings `st`.
pub open spec fn reads_as(ts: Seq<Seq<char>>, app: Platform, alg: Algorithm, st: RunSettings) -> bool {
    parse_args(ts) matches Ok(occs) && forall|a: TeebenchArgs|
        #[trigger] args_from_occurrences(a, app, occs) ==> a.algorithm == alg && run_settings(a) == st
}

/// The largest value a numeric option accepts.
pub open spec fn option_max(o: ArgOption) -> nat {
    if o == ArgOption::Threads || o == ArgOption::Selectivity { 255 } else { u32::MAX as nat }
}

/// Whether `o` takes a number.
pub open spec fn numeric(o: ArgOption) -> bool {
    o == ArgOption::Threads || o == ArgOption::Selectivity || o == ArgOption::DataSkew || o == ArgOption::SealChunkSize
        || o == ArgOption::RTuples || o == ArgOption::STuples || o == ArgOption::RSize || o == ArgOption::SSize
}

/// What `-a <alg>` and option `o` with the value `v` say of the run `a`: the algorithm,
/// the option's own argument read from `v`, and every other argument at its default.
pub open spec fn reads_one(a: TeebenchArgs, alg: Algorithm, o: ArgOption, v: Seq<char>) -> bool {
    &&& a.algorithm == alg
    &&& a.dataset == (if o == ArgOption::Dataset { dataset_from_arg(v)->Some_0 } else { Dataset::CacheFit })
    &&& a.threads as nat == (if o == ArgOption::Threads { crate::text::parse_unsigned(v, 255)->Some_0 } else { 2 })
    &&& a.selectivity as nat == (if o == ArgOption::Selectivity { crate::text::parse_unsigned(v, 255)->Some_0 } else { 100 })
    &&& a.data_skew as nat == (if o == ArgOption::DataSkew { crate::text::parse_unsigned(v, u32::MAX as nat)->Some_0 } else { 0 })
    &&& a.seal_chunk_size as nat == (if o == ArgOption::SealChunkSize { crate::text::parse_unsigned(v, u32::MAX as nat)->Some_0 } else { 0 })
    &&& a.r_tuples as nat == (if o == ArgOption::RTuples { crate::text::parse_unsigned(v, u32::MAX as nat)->Some_0 } else { 2097152 })
    &&& a.s_tuples as nat == (if o == ArgOption::STuples { crate::text::parse_unsigned(v, u32::MAX as nat)->Some_0 } else { 2097152 })
    &&& (if o == ArgOption::RSize { a.r_size matches Some(x) && x as nat == crate::text::parse_unsigned(v, u32::MAX as nat)->Some_0 } else { a.r_size is None })
    &&& (if o == ArgOption::SSize { a.s_size matches Some(x) && x as nat == crate::text::parse_unsigned(v, u32::MAX as nat)->Some_0 } else { a.s_size is None })
    &&& text_view(a.r_path) == (if o == ArgOption::RPath { Some(v) } else { None })
    &&& text_view(a.s_path) == (if o == ArgOption::SPath { Some(v) } else { None })
    &&& a.seal == (o == ArgOption::Seal)
    &&& a.sort_r == (o == ArgOption::SortR)
    &&& a.sort_s == (o == ArgOption::SortS)
    &&& a.csv == (o == ArgOption::Csv)
}

/// A command line made of `-a <alg>` and one more option `o` with the value `v` (empty for
/// a flag) reads as those two options.
proof fn lemma_algorithm_and_one(app: Platform, alg: Algorithm, ts: Seq<Seq<char>>, o: ArgOption, v: Seq<char>)
    requires
        alg is Commit ==> alg == Algorithm::Commit(0),
        ts.len() >= 3,
        ts[0] == seq!['-', 'a'],
        ts[1] == alg.display(),
        read_token(ts, 2) == Ok::<Option<(ArgOption, Seq<char>, int)>, ArgsError>(Some((o, v, ts.len() as int))),
        o != ArgOption::Algorithm,
        numeric(o) ==> crate::text::parse_unsigned(v, option_max(o)) is Some,
        o == ArgOption::Dataset ==> dataset_from_arg(v) is Some,
    ensures
        parse_args(ts) == Ok::<Seq<Occurrence>, ArgsError>(algorithm_and(alg, o, v)),
        forall|a: TeebenchArgs| #[trigger] args_from_occurrences(a, app, algorithm_and(alg, o, v)) ==> reads_one(a, alg, o, v),
{
    let occs = algorithm_and(alg, o, v);
    let a1 = seq![(ArgOption::Algorithm, alg.display())];
    lemma_algorithm_name_reads_back(alg);
    lemma_read_short(ts, 0, 'a', ArgOption::Algorithm);
    lemma_scan_step(ts, 0, Seq::empty(), ArgOption::Algorithm, alg.display(), 2);
    assert(Seq::<Occurrence>::empty().push((ArgOption::Algorithm, alg.display())) =~= a1);
    assert(!has_option(a1, o)) by {
        assert forall|k: int| 0 <= k < a1.len() implies (#[trigger] a1[k]).0 != o by {}
    }
    lemma_scan_step(ts, 2, a1, o, v, ts.len() as int);
    assert(a1.push((o, v)) =~= occs);
    assert(scan(ts, 0, Seq::empty()) == Ok::<Seq<Occurrence>, ArgsError>(occs));
    lemma_occurrence_at(occs, ArgOption::Algorithm, 0);
    lemma_occurrence_at(occs, o, 1);
    assert forall|o2: ArgOption| o2 != ArgOption::Algorithm && o2 != o implies #[trigger] occurrence(occs, o2) is None
        && !has_option(occs, o2) by {
        assert forall|m: int| 0 <= m < occs.len() implies occs[m].0 != o2 by {}
        lemma_occurrence_none(occs, o2);
    }
    assert(has_option(occs, o)) by { assert(occs[1].0 == o); }
    assert(crate::args::algorithm_value(occs) == Some(alg));
    assert(first_invalid(occs) is None);
    assert forall|a: TeebenchArgs| #[trigger] args_from_occurrences(a, app, occs) implies {
        &&& a.algorithm == alg
        &&& text_view(a.r_path) == (if o == ArgOption::RPath { Some(v) } else { None })
        &&& text_view(a.s_path) == (if o == ArgOption::SPath { Some(v) } else { None })
    } by {
        assert(crate::args::text_matches(a.r_path, occurrence(occs, ArgOption::RPath)));
        assert(crate::args::text_matches(a.s_path, occurrence(occs, ArgOption::SPath)));
    }
}

/// `-c <v>` read at position 2 of `-a <alg> -c <v>`.
proof fn lemma_read_short_at_2(alg: Algorithm, c: char, o: ArgOption, v: Seq<char>)
    requires
        option_by_short(c) == Some(o),
        !dashed(v),
    ensures
        read_token(with_algorithm(alg, seq![seq!['-', c], v]), 2)
            == Ok::<Option<(ArgOption, Seq<char>, int)>, ArgsError>(Some((o, v, 4))),
{
    lemma_read_short(with_algorithm(alg, seq![seq!['-', c], v]), 2, c, o);
}

/// `--<name> <v>` read at position 2 of `-a <alg> --<name> <v>`, for an option that takes
/// a value.
proof fn lemma_read_long_at_2(alg: Algorithm, name: Seq<char>, o: ArgOption, v: Seq<char>)
    requires
        option_by_long(name) == Some(o),
        o.takes_value(),
        name.len() > 0,
        forall|k: int| 0 <= k < name.len() ==> name[k] != '=',
        name != "help"@,
        name != "version"@,
        !dashed(v),
    ensures
        read_token(with_algorithm(alg, seq![long_option(name), v]), 2)
            == Ok::<Option<(ArgOption, Seq<char>, int)>, ArgsError>(Some((o, v, 4))),
{
    reveal_strlit("--");
    let ts = with_algorithm(alg, seq![long_option(name), v]);
    assert(ts[2] == seq!['-', '-'] + name);
    assert(ts[3] == v);
    assert(ts[2].len() > 2);
    assert(ts[2] != "--"@);
    let body = ts[2].subrange(2, ts[2].len() as int);
    assert(body =~= name);
    crate::args::lemma_index_of_eq(name, name.len() as int);
    assert(name.subrange(0, name.len() as int) =~= name);
}

/// `--<name>` read at position 2 of `-a <alg> --<name>`, for a flag.
proof fn lemma_read_flag_at_2(alg: Algorithm, name: Seq<char>, o: ArgOption)
    requires
        option_by_long(name) == Some(o),
        !o.takes_value(),
        name.len() > 0,
        forall|k: int| 0 <= k < name.len() ==> name[k] != '=',
        name != "help"@,
        name != "version"@,
    ensures
        read_token(with_algorithm(alg, seq![long_option(name)]), 2)
            == Ok::<Option<(ArgOption, Seq<char>, int)>, ArgsError>(Some((o, Seq::<char>::empty(), 3))),
{
    crate::args::lemma_read_long_flag(with_algorithm(alg, seq![long_option(name)]), 2, name, o);
}

/// Law: each short option of a TeeBench command line sets its own argument and leaves the
/// others at TeeBench's defaults: `-d` the dataset, `-n` the threads, `-l` the
/// selectivity, `-z` the data skew, `-c` the seal chunk size, `-r` the number of tuples of
/// R, `-s` that of S, `-x` the size of R, `-y` that of S, `-t` the path of R and `-u` that
/// of S.
#[verifier::spinoff_prover]
#[verifier::rlimit(40)]
pub proof fn law_short_options_set_their_own_arguments(app: Platform, alg: Algorithm, ds: Dataset, t: u8, n: u32, p: Seq<char>)
    requires
        alg is Commit ==> alg == Algorithm::Commit(0),
        p.len() > 0,
        !dashed(p),
    ensures
        reads_as(with_algorithm(alg, seq![seq!['-', 'd'], ds.cmd_arg()]), app, alg,
            ((ds, 2, 100, 0), (0, 2097152, 2097152), (None, None, None, None), (false, false, false, false))),
        reads_as(with_algorithm(alg, seq![seq!['-', 'n'], decimal(t as nat)]), app, alg,
            ((Dataset::CacheFit, t, 100, 0), (0, 2097152, 2097152), (None, None, None, None), (false, false, false, false))),
        reads_as(with_algorithm(alg, seq![seq!['-', 'l'], decimal(t as nat)]), app, alg,
            ((Dataset::CacheFit, 2, t, 0), (0, 2097152, 2097152), (None, None, None, None), (false, false, false, false))),
        reads_as(with_algorithm(alg, seq![seq!['-', 'z'], decimal(n as nat)]), app, alg,
            ((Dataset::CacheFit, 2, 100, n), (0, 2097152, 2097152), (None, None, None, None), (false, false, false, false))),
        reads_as(with_algorithm(alg, seq![seq!['-', 'c'], decimal(n as nat)]), app, alg,
            ((Dataset::CacheFit, 2, 100, 0), (n, 2097152, 2097152), (None, None, None, None), (false, false, false, false))),
        reads_as(with_algorithm(alg, seq![seq!['-', 'r'], decimal(n as nat)]), app, alg,
            ((Dataset::CacheFit, 2, 100, 0), (0, n, 2097152), (None, None, None, None), (false, false, false, false))),
        reads_as(with_algorithm(alg, seq![seq!['-', 's'], decimal(n as nat)]), app, alg,
            ((Dataset::CacheFit, 2, 100, 0), (0, 2097152, n), (None, None, None, None), (false, false, false, false))),
        reads_as(with_algorithm(alg, seq![seq!['-', 'x'], decimal(n as nat)]), app, alg,
            ((Dataset::CacheFit, 2, 100, 0), (0, 2097152, 2097152), (Some(n), None, None, None), (false, false, false, false))),
        reads_as(with_algorithm(alg, seq![seq!['-', 'y'], decimal(n as nat)]), app, alg,
            ((Dataset::CacheFit, 2, 100, 0), (0, 2097152, 2097152), (None, Some(n), None, None), (false, false, false, false))),
        reads_as(with_algorithm(alg, seq![seq!['-', 't'], p]), app, alg,
            ((Dataset::CacheFit, 2, 100, 0), (0, 2097152, 2097152), (None, None, Some(p), None), (false, false, false, false))),
        reads_as(with_algorithm(alg, seq![seq!['-', 'u'], p]), app, alg,
            ((Dataset::CacheFit, 2, 100, 0), (0, 2097152, 2097152), (None, None, None, Some(p)), (false, false, false, false))),
{
    reveal_names();
    crate::profiling::lemma_dataset_arg_reads_back(ds);
    lemma_decimal_reads_back(n as nat);
    lemma_decimal_reads_back(t as nat);
    lemma_parse_decimal(n as nat, u32::MAX as nat);
    lemma_parse_decimal(t as nat, 255);
    let dn = decimal(n as nat);
    let dt = decimal(t as nat);
    assert(!dashed(dn));
    assert(!dashed(dt));
    assert(reads_as(with_algorithm(alg, seq![seq!['-', 'd'], ds.cmd_arg()]), app, alg,
            ((ds, 2, 100, 0), (0, 2097152, 2097152), (None, None, None, None), (false, false, false, false)))) by {
        lemma_short(app, alg, 'd', ArgOption::Dataset, ds.cmd_arg());
    }
    assert(reads_as(with_algorithm(alg, seq![seq!['-', 'n'], decimal(t as nat)]), app, alg,
            ((Dataset::CacheFit, t, 100, 0), (0, 2097152, 2097152), (None, None, None, None), (false, false, false, false)))) by {
        lemma_short(app, alg, 'n', ArgOption::Threads, dt);
    }
    assert(reads_as(with_algorithm(alg, seq![seq!['-', 'l'], decimal(t as nat)]), app, alg,
            ((Dataset::CacheFit, 2, t, 0), (0, 2097152, 2097152), (None, None, None, None), (false, false, false, false)))) by {
        lemma_short(app, alg, 'l', ArgOption::Selectivity, dt);
    }
    assert(reads_as(with_algorithm(alg, seq![seq!['-', 'z'], decimal(n as nat)]), app, alg,
            ((Dataset::CacheFit, 2, 100, n), (0, 2097152, 2097152), (None, None, None, None), (false, false, false, false)))) by {
        lemma_short(app, alg, 'z', ArgOption::DataSkew, dn);
    }
    assert(reads_as(with_algorithm(alg, seq![seq!['-', 'c'], decimal(n as nat)]), app, alg,
            ((Dataset::CacheFit, 2, 100, 0), (n, 2097152, 2097152), (None, None, None, None), (false, false, false, false)))) by {
        lemma_short(app, alg, 'c', ArgOption::SealChunkSize, dn);
    }
    assert(reads_as(with_algorithm(alg, seq![seq!['-', 'r'], decimal(n as nat)]), app, alg,
            ((Dataset::CacheFit, 2, 100, 0), (0, n, 2097152), (None, None, None, None), (false, false, false, false)))) by {
        lemma_short(app, alg, 'r', ArgOption::RTuples, dn);
    }
    assert(reads_as(with_algorithm(alg, seq![seq!['-', 's'], decimal(n as nat)]), app, alg,
            ((Dataset::CacheFit, 2, 100, 0), (0, 2097152, n), (None, None, None, None), (false, false, false, false)))) by {
        lemma_short(app, alg, 's', ArgOption::STuples, dn);
    }
    assert(reads_as(with_algorithm(alg, seq![seq!['-', 'x'], decimal(n as nat)]), app, alg,
            ((Dataset::CacheFit, 2, 100, 0), (0, 2097152, 2097152), (Some(n), None, None, None), (false, false, false, false)))) by {
        lemma_short(app, alg, 'x', ArgOption::RSize, dn);
    }
    assert(reads_as(with_algorithm(alg, seq![seq!['-', 'y'], decimal(n as nat)]), app, alg,
            ((Dataset::CacheFit, 2, 100, 0), (0, 2097152, 2097152), (None, Some(n), None, None), (false, false, false, false)))) by {
        lemma_short(app, alg, 'y', ArgOption::SSize, dn);
    }
    assert(reads_as(with_algorithm(alg, seq![seq!['-', 't'], p]), app, alg,
            ((Dataset::CacheFit, 2, 100, 0), (0, 2097152, 2097152), (None, None, Some(p), None), (false, false, false, false)))) by {
        lemma_short(app, alg, 't', ArgOption::RPath, p);
    }
    assert(reads_as(with_algorithm(alg, seq![seq!['-', 'u'], p]), app, alg,
            ((Dataset::CacheFit, 2, 100, 0), (0, 2097152, 2097152), (None, None, None, Some(p)), (false, false, false, false)))) by {
        lemma_short(app, alg, 'u', ArgOption::SPath, p);
    }
}

/// `-a <alg> -c <v>` reads as `-a <alg>` and the option `o` that `-c` names.
proof fn lemma_short(app: Platform, alg: Algorithm, c: char, o: ArgOption, v: Seq<char>)
    requires
        alg is Commit ==> alg == Algorithm::Commit(0),
        option_by_short(c) == Some(o),
        o != ArgOption::Algorithm,
        !dashed(v),
        numeric(o) ==> crate::text::parse_unsigned(v, option_max(o)) is Some,
        o == ArgOption::Dataset ==> dataset_from_arg(v) is Some,
    ensures
        parse_args(with_algorithm(alg, seq![seq!['-', c], v])) == Ok::<Seq<Occurrence>, ArgsError>(algorithm_and(alg, o, v)),
        forall|a: TeebenchArgs| #[trigger] args_from_occurrences(a, app, algorithm_and(alg, o, v)) ==> reads_one(a, alg, o, v),
{
    lemma_read_short_at_2(alg, c, o, v);
    lemma_algorithm_and_one(app, alg, with_algorithm(alg, seq![seq!['-', c], v]), o, v);
}

/// An option written by its long name.
pub open spec fn long_option(name: Seq<char>) -> Seq<char> {
    seq!['-', '-'] + name
}

/// Law: each long option of a TeeBench command line sets its own argument and leaves the
/// others at TeeBench's defaults, as its short form does: `--dataset`, `--threads`,
/// `--selectivity`, `--data-skew`, `--seal-chunk-size`, `--r-tuples`, `--s-tuples`,
/// `--r-size`, `--s-size`, `--r-path` and `--s-path` take the value after them, and the
/// flags `--seal`, `--sort-r`, `--sort-s` and `--csv` set only their own flag.
#[verifier::spinoff_prover]
#[verifier::rlimit(40)]
pub proof fn law_long_options_set_their_own_arguments(app: Platform, alg: Algorithm, ds: Dataset, t: u8, n: u32, p: Seq<char>)
    requires
        alg is Commit ==> alg == Algorithm::Commit(0),
        p.len() > 0,
        !dashed(p),
    ensures
        reads_as(with_algorithm(alg, seq![long_option("dataset"@), ds.cmd_arg()]), app, alg,
            ((ds, 2, 100, 0), (0, 2097152, 2097152), (None, None, None, None), (false, false, false, false))),
        reads_as(with_algorithm(alg, seq![long_option("threads"@), decimal(t as nat)]), app, alg,
            ((Dataset::CacheFit, t, 100, 0), (0, 2097152, 2097152), (None, None, None, None), (false, false, false, false))),
        reads_as(with_algorithm(alg, seq![long_option("selectivity"@), decimal(t as nat)]), app, alg,
            ((Dataset::CacheFit, 2, t, 0), (0, 2097152, 2097152), (None, None, None, None), (false, false, false, false))),
        reads_as(with_algorithm(alg, seq![long_option("data-skew"@), decimal(n as nat)]), app, alg,
            ((Dataset::CacheFit, 2, 100, n), (0, 2097152, 2097152), (None, None, None, None), (false, false, false, false))),
        reads_as(with_algorithm(alg, seq![long_option("seal-chunk-size"@), decimal(n as nat)]), app, alg,
            ((Dataset::CacheFit, 2, 100, 0), (n, 2097152, 2097152), (None, None, None, None), (false, false, false, false))),
        reads_as(with_algorithm(alg, seq![long_option("r-tuples"@), decimal(n as nat)]), app, alg,
            ((Dataset::CacheFit, 2, 100, 0), (0, n, 2097152), (None, None, None, None), (false, false, false, false))),
        reads_as(with_algorithm(alg, seq![long_option("s-tuples"@), decimal(n as nat)]), app, alg,
            ((Dataset::CacheFit, 2, 100, 0), (0, 2097152, n), (None, None, None, None), (false, false, false, false))),
        reads_as(with_algorithm(alg, seq![long_option("r-size"@), decimal(n as nat)]), app, alg,
            ((Dataset::CacheFit, 2, 100, 0), (0, 2097152, 2097152), (Some(n), None, None, None), (false, false, false, false))),
        reads_as(with_algorithm(alg, seq![long_option("s-size"@), decimal(n as nat)]), app, alg,
            ((Dataset::CacheFit, 2, 100, 0), (0, 2097152, 2097152), (None, Some(n), None, None), (false, false, false, false))),
        reads_as(with_algorithm(alg, seq![long_option("r-path"@), p]), app, alg,
            ((Dataset::CacheFit, 2, 100, 0), (0, 2097152, 2097152), (None, None, Some(p), None), (false, false, false, false))),
        reads_as(with_algorithm(alg, seq![long_option("s-path"@), p]), app, alg,
            ((Dataset::CacheFit, 2, 100, 0), (0, 2097152, 2097152), (None, None, None, Some(p)), (false, false, false, false))),
        reads_as(with_algorithm(alg, seq![long_option("seal"@)]), app, alg,
            ((Dataset::CacheFit, 2, 100, 0), (0, 2097152, 2097152), (None, None, None, None), (true, false, false, false))),
        reads_as(with_algorithm(alg, seq![long_option("sort-r"@)]), app, alg,
            ((Dataset::CacheFit, 2, 100, 0), (0, 2097152, 2097152), (None, None, None, None), (false, true, false, false))),
        reads_as(with_algorithm(alg, seq![long_option("sort-s"@)]), app, alg,
            ((Dataset::CacheFit, 2, 100, 0), (0, 2097152, 2097152), (None, None, None, None), (false, false, true, false))),
        reads_as(with_algorithm(alg, seq![long_option("csv"@)]), app, alg,
            ((Dataset::CacheFit, 2, 100, 0), (0, 2097152, 2097152), (None, None, None, None), (false, false, false, true))),
{
    reveal_names();
    crate::profiling::lemma_dataset_arg_reads_back(ds);
    lemma_decimal_reads_back(n as nat);
    lemma_decimal_reads_back(t as nat);
    lemma_parse_decimal(n as nat, u32::MAX as nat);
    lemma_parse_decimal(t as nat, 255);
    let dn = decimal(n as nat);
    let dt = decimal(t as nat);
    assert(!dashed(dn));
    assert(!dashed(dt));
    assert(reads_as(with_algorithm(alg, seq![long_option("dataset"@), ds.cmd_arg()]), app, alg,
            ((ds, 2, 100, 0), (0, 2097152, 2097152), (None, None, None, None), (false, false, false, false)))) by {
        lemma_long(app, alg, "dataset"@, ArgOption::Dataset, ds.cmd_arg());
    }
    assert(reads_as(with_algorithm(alg, seq![long_option("threads"@), decimal(t as nat)]), app, alg,
            ((Dataset::CacheFit, t, 100, 0), (0, 2097152, 2097152), (None, None, None, None), (false, false, false, false)))) by {
        lemma_long(app, alg, "threads"@, ArgOption::Threads, dt);
    }
    assert(reads_as(with_algorithm(alg, seq![long_option("selectivity"@), decimal(t as nat)]), app, alg,
            ((Dataset::CacheFit, 2, t, 0), (0, 2097152, 2097152), (None, None, None, None), (false, false, false, false)))) by {
        lemma_long(app, alg, "selectivity"@, ArgOption::Selectivity, dt);
    }
    assert(reads_as(with_algorithm(alg, seq![long_option("data-skew"@), decimal(n as nat)]), app, alg,
            ((Dataset::CacheFit, 2, 100, n), (0, 2097152, 2097152), (None, None, None, None), (false, false, false, false)))) by {
        lemma_long(app, alg, "data-skew"@, ArgOption::DataSkew, dn);
    }
    assert(reads_as(with_algorithm(alg, seq![long_option("seal-chunk-size"@), decimal(n as nat)]), app, alg,
            ((Dataset::CacheFit, 2, 100, 0), (n, 2097152, 2097152), (None, None, None, None), (false, false, false, false)))) by {
        lemma_long(app, alg, "seal-chunk-size"@, ArgOption::SealChunkSize, dn);
    }
    assert(reads_as(with_algorithm(alg, seq![long_option("r-tuples"@), decimal(n as nat)]), app, alg,
            ((Dataset::CacheFit, 2, 100, 0), (0, n, 2097152), (None, None, None, None), (false, false, false, false)))) by {
        lemma_long(app, alg, "r-tuples"@, ArgOption::RTuples, dn);
    }
    assert(reads_as(with_algorithm(alg, seq![long_option("s-tuples"@), decimal(n as nat)]), app, alg,
            ((Dataset::CacheFit, 2, 100, 0), (0, 2097152, n), (None, None, None, None), (false, false, false, false)))) by {
        lemma_long(app, alg, "s-tuples"@, ArgOption::STuples, dn);
    }
    assert(reads_as(with_algorithm(alg, seq![long_option("r-size"@), decimal(n as nat)]), app, alg,
            ((Dataset::CacheFit, 2, 100, 0), (0, 2097152, 2097152), (Some(n), None, None, None), (false, false, false, false)))) by {
        lemma_long(app, alg, "r-size"@, ArgOption::RSize, dn);
    }
    assert(reads_as(with_algorithm(alg, seq![long_option("s-size"@), decimal(n as nat)]), app, alg,
            ((Dataset::CacheFit, 2, 100, 0), (0, 2097152, 2097152), (None, Some(n), None, None), (false, false, false, false)))) by {
        lemma_long(app, alg, "s-size"@, ArgOption::SSize, dn);
    }
    assert(reads_as(with_algorithm(alg, seq![long_option("r-path"@), p]), app, alg,
            ((Dataset::CacheFit, 2, 100, 0), (0, 2097152, 2097152), (None, None, Some(p), None), (false, false, false, false)))) by {
        lemma_long(app, alg, "r-path"@, ArgOption::RPath, p);
    }
    assert(reads_as(with_algorithm(alg, seq![long_option("s-path"@), p]), app, alg,
            ((Dataset::CacheFit, 2, 100, 0), (0, 2097152, 2097152), (None, None, None, Some(p)), (false, false, false, false)))) by {
        lemma_long(app, alg, "s-path"@, ArgOption::SPath, p);
    }
    assert(reads_as(with_algorithm(alg, seq![long_option("seal"@)]), app, alg,
            ((Dataset::CacheFit, 2, 100, 0), (0, 2097152, 2097152), (None, None, None, None), (true, false, false, false)))) by {
        lemma_flag(app, alg, "seal"@, ArgOption::Seal);
    }
    assert(reads_as(with_algorithm(alg, seq![long_option("sort-r"@)]), app, alg,
            ((Dataset::CacheFit, 2, 100, 0), (0, 2097152, 2097152), (None, None, None, None), (false, true, false, false)))) by {
        lemma_flag(app, alg, "sort-r"@, ArgOption::SortR);
    }
    assert(reads_as(with_algorithm(alg, seq![long_option("sort-s"@)]), app, alg,
            ((Dataset::CacheFit, 2, 100, 0), (0, 2097152, 2097152), (None, None, None, None), (false, false, true, false)))) by {
        lemma_flag(app, alg, "sort-s"@, ArgOption::SortS);
    }
    assert(reads_as(with_algorithm(alg, seq![long_option("csv"@)]), app, alg,
            ((Dataset::CacheFit, 2, 100, 0), (0, 2097152, 2097152), (None, None, None, None), (false, false, false, true)))) by {
        lemma_flag(app, alg, "csv"@, ArgOption::Csv);
    }
}

/// `-a <alg> --<name> <v>` reads as `-a <alg>` and the option `o` named `name`.
proof fn lemma_long(app: Platform, alg: Algorithm, name: Seq<char>, o: ArgOption, v: Seq<char>)
    requires
        alg is Commit ==> alg == Algorithm::Commit(0),
        option_by_long(name) == Some(o),
        o.takes_value(),
        o != ArgOption::Algorithm,
        name.len() > 0,
        forall|k: int| 0 <= k < name.len() ==> name[k] != '=',
        name != "help"@,
        name != "version"@,
        !dashed(v),
        numeric(o) ==> crate::text::parse_unsigned(v, option_max(o)) is Some,
        o == ArgOption::Dataset ==> dataset_from_arg(v) is Some,
    ensures
        parse_args(with_algorithm(alg, seq![long_option(name), v])) == Ok::<Seq<Occurrence>, ArgsError>(algorithm_and(alg, o, v)),
        forall|a: TeebenchArgs| #[trigger] args_from_occurrences(a, app, algorithm_and(alg, o, v)) ==> reads_one(a, alg, o, v),
{
    lemma_read_long_at_2(alg, name, o, v);
    lemma_algorithm_and_one(app, alg, with_algorithm(alg, seq![long_option(name), v]), o, v);
}

/// `-a <alg> --<name>` reads as `-a <alg>` and the flag `o` named `name`.
proof fn lemma_flag(app: Platform, alg: Algorithm, name: Seq<char>, o: ArgOption)
    requires
        alg is Commit ==> alg == Algorithm::Commit(0),
        option_by_long(name) == Some(o),
        !o.takes_value(),
        name.len() > 0,
        forall|k: int| 0 <= k < name.len() ==> name[k] != '=',
        name != "help"@,
        name != "version"@,
    ensures
        parse_args(with_algorithm(alg, seq![long_option(name)])) == Ok::<Seq<Occurrence>, ArgsError>(algorithm_and(alg, o, Seq::empty())),
        forall|a: TeebenchArgs| #[trigger] args_from_occurrences(a, app, algorithm_and(alg, o, Seq::empty())) ==> reads_one(a, alg, o, Seq::empty()),
{
    lemma_read_flag_at_2(alg, name, o);
    assert(o != ArgOption::Algorithm);
    assert(!numeric(o));
    lemma_algorithm_and_one(app, alg, with_algorithm(alg, seq![long_option(name)]), o, Seq::empty());
}

} // verus!
