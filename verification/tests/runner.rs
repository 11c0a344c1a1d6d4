use std::collections::HashMap;
use teebench_web::data_types::{
    Algorithm, Dataset, ExperimentType, JobResult, PerfReportConfig, Platform, TeeBenchWebError, TeebenchArgs,
};
use teebench_web::profiling::{JobConfig, ProfilingConfiguration};
use teebench_web::runner::{assemble_report, display_command_output, needs_compile, BuildCommand};

#[test]
fn runner_command_output_report() {
    assert_eq!(
        display_command_output(true, Some(0), "out\n", "", "make native"),
        "Command `make native` succeeded with:\n---STDOUT---\nout\n---STDERR---\n---END---\n"
    );
    assert_eq!(
        display_command_output(false, Some(2), "", "err\n", "./sgx -a ___"),
        "Command `./sgx -a ___` failed (returned Some(2)) with:\n---STDOUT---\n---STDERR---\nerr\n---END---\n"
    );
    assert_eq!(
        display_command_output(false, None, "", "", "x"),
        "Command `x` failed (returned None) with:\n---STDOUT---\n---STDERR---\n---END---\n"
    );
    assert_eq!(
        display_command_output(false, Some(-1), "", "", "x"),
        "Command `x` failed (returned Some(-1)) with:\n---STDOUT---\n---STDERR---\n---END---\n"
    );
}

#[test]
fn runner_used_algorithms() {
    let (pr, _) = PerfReportConfig::for_throughput(4, Algorithm::Commit(2));
    assert_eq!(JobConfig::PerfReport(pr).used_algorithms(), vec![Algorithm::Commit(2), Algorithm::Commit(4)]);
    let (pr, _) = PerfReportConfig::for_throughput(4, Algorithm::Rho);
    assert_eq!(JobConfig::PerfReport(pr).used_algorithms(), vec![Algorithm::Commit(4)]);
    assert_eq!(JobConfig::Compile(7).used_algorithms(), vec![Algorithm::Commit(7)]);
    let c = ProfilingConfiguration::default();
    assert_eq!(JobConfig::Profiling(c.clone()).used_algorithms(), c.algorithm);
}

#[test]
fn runner_needs_compile() {
    assert!(needs_compile(Algorithm::Commit(1), None));
    assert!(needs_compile(Algorithm::Commit(1), Some(Algorithm::Commit(2))));
    assert!(!needs_compile(Algorithm::Commit(1), Some(Algorithm::Commit(1))));
    assert!(!needs_compile(Algorithm::Rho, None));
}

fn run(alg: Algorithm, v: &str) -> (TeebenchArgs, Result<HashMap<String, String>, TeeBenchWebError>) {
    let mut m = HashMap::new();
    m.insert("throughput".to_string(), v.to_string());
    (TeebenchArgs::for_throughput(alg, Platform::Sgx, Dataset::CacheFit), Ok(m))
}

#[test]
fn runner_assemble_report_in_order() {
    let (a, b) = PerfReportConfig::for_throughput(1, Algorithm::Rho);
    let charts = vec![
        (JobConfig::PerfReport(a), vec![run(Algorithm::Rho, "1"), run(Algorithm::Cht, "2")]),
        (JobConfig::PerfReport(b), vec![run(Algorithm::Pht, "3")]),
    ];
    match assemble_report(charts) {
        JobResult::Exp(Ok(rep)) => {
            assert_eq!(rep.charts.len(), 2);
            assert!(rep.findings.is_empty());
            assert_eq!(rep.charts[0].config, JobConfig::PerfReport(a));
            assert_eq!(rep.charts[0].results.len(), 2);
            assert_eq!(rep.charts[0].results[1].0.algorithm, Algorithm::Cht);
            assert_eq!(rep.charts[1].results[0].1["throughput"], "3");
        }
        _ => panic!("all runs succeeded"),
    }
}

#[test]
fn runner_assemble_report_first_error() {
    let (a, b) = PerfReportConfig::for_scalability(1, Algorithm::Rho);
    let failed = (TeebenchArgs::default(), Err(TeeBenchWebError::NoResults));
    let other = (TeebenchArgs::default(), Err(TeeBenchWebError::Unknown));
    let charts = vec![
        (JobConfig::PerfReport(a), vec![run(Algorithm::Rho, "1"), failed]),
        (JobConfig::PerfReport(b), vec![other]),
    ];
    match assemble_report(charts) {
        JobResult::Exp(Err(e)) => assert_eq!(e, TeeBenchWebError::NoResults),
        _ => panic!("a run failed"),
    }
    assert_eq!(ExperimentType::Scalability, a.exp_type);
}

#[test]
fn runner_build_commands() {
    assert_eq!(BuildCommand::MakeNative.to_string(), "make native CFLAGS=-DNATIVE_COMPILATION");
    assert_eq!(
        BuildCommand::MakeSgx.to_string(),
        "make sgx SGX_DEBUG=1 SGX_PRERELEASE=0 SGX_MODE=HW CFLAGS=-DPCM_COUNT -DSGX_COUNTERS"
    );
    assert_eq!(BuildCommand::RunSgx.to_words(), vec!["./sgx", "-a", "___"]);
    let ok = BuildCommand::RunNative.log_output("log\n".to_string(), true, Some(0), "fine\n", "").unwrap();
    assert_eq!(ok, "log\nCommand `./native -a ___` succeeded with:\n---STDOUT---\nfine\n---STDERR---\n---END---\n");
    let err = BuildCommand::MakeSgx.log_output(String::new(), false, Some(2), "", "boom\n").unwrap_err();
    assert!(err.starts_with("Failed to compile SGX version:\nCommand `make sgx SGX_DEBUG=1"));
    assert!(err.ends_with("(returned Some(2)) with:\n---STDOUT---\n---STDERR---\nboom\n---END---\n"));
}

#[test]
fn runner_commit_of_placeholder() {
    let (pr, _) = PerfReportConfig::for_throughput(6, Algorithm::Rho);
    assert_eq!(JobConfig::PerfReport(pr).replaced_commit(), Some(Algorithm::Commit(6)));
    assert_eq!(JobConfig::Compile(2).replaced_commit(), Some(Algorithm::Commit(2)));
    let mut c = ProfilingConfiguration::default();
    assert_eq!(JobConfig::Profiling(c.clone()).replaced_commit(), Some(Algorithm::Commit(0)));
    c.algorithm = vec![Algorithm::Rho, Algorithm::Commit(4), Algorithm::Commit(5)];
    assert_eq!(JobConfig::Profiling(c.clone()).replaced_commit(), Some(Algorithm::Commit(4)));
    c.algorithm = vec![Algorithm::Rho];
    assert_eq!(JobConfig::Profiling(c).replaced_commit(), None);
    assert_eq!(teebench_web::runner::run_algorithm(Algorithm::Commit(1), Some(Algorithm::Commit(6))), Algorithm::Commit(6));
    assert_eq!(teebench_web::runner::run_algorithm(Algorithm::Cht, Some(Algorithm::Commit(6))), Algorithm::Cht);
    assert_eq!(teebench_web::runner::run_algorithm(Algorithm::Commit(1), None), Algorithm::Commit(1));
}

#[test]
fn runner_used_algorithms_once() {
    let (pr, _) = PerfReportConfig::for_throughput(4, Algorithm::Commit(4));
    assert_eq!(JobConfig::PerfReport(pr).used_algorithms(), vec![Algorithm::Commit(4)]);
}

#[test]
fn runner_runs_kept_by_arguments() {
    let (a, _) = PerfReportConfig::for_throughput(1, Algorithm::Rho);
    let charts = vec![(
        JobConfig::PerfReport(a),
        vec![run(Algorithm::Rho, "1"), run(Algorithm::Cht, "2"), run(Algorithm::Rho, "3")],
    )];
    match assemble_report(charts) {
        JobResult::Exp(Ok(rep)) => {
            assert_eq!(rep.charts[0].results.len(), 2);
            assert_eq!(rep.charts[0].results[0].0.algorithm, Algorithm::Rho);
            assert_eq!(rep.charts[0].results[0].1["throughput"], "3");
            assert_eq!(rep.charts[0].results[1].0.algorithm, Algorithm::Cht);
        }
        _ => panic!("all runs succeeded"),
    }
    let kept = teebench_web::runner::keyed_runs(vec![run(Algorithm::Pht, "1"), run(Algorithm::Pht, "2")]);
    assert_eq!(kept.len(), 1);
    let mut other = TeebenchArgs::for_throughput(Algorithm::Pht, Platform::Sgx, Dataset::CacheFit);
    assert!(teebench_web::runner::args_match(&other, &kept[0].0));
    other.r_path = Some("r.csv".to_string());
    assert!(!teebench_web::runner::args_match(&other, &kept[0].0));
}
