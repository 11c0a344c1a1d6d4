use teebench_web::commandline::Commandline;
use teebench_web::data_types::{Algorithm, Dataset, ExperimentType, PerfReportConfig, Platform};
use teebench_web::hardcoded::{
    hardcoded_perf_report_commands, hardcoded_perf_report_configs, hardcoded_scalability_commands,
    hardcoded_throughput_commands,
};
use teebench_web::profiling::JobConfig;

#[test]
fn hardcoded_configs_for_commit() {
    let c = hardcoded_perf_report_configs(5, Algorithm::Cht);
    assert_eq!(c.len(), 4);
    assert_eq!(
        c[0],
        JobConfig::PerfReport(PerfReportConfig { id: 5, exp_type: ExperimentType::Throughput, dataset: Dataset::CacheFit, baseline: Algorithm::Cht })
    );
    assert_eq!(
        c[3],
        JobConfig::PerfReport(PerfReportConfig { id: 5, exp_type: ExperimentType::Scalability, dataset: Dataset::CacheExceed, baseline: Algorithm::Cht })
    );
}

#[test]
fn hardcoded_throughput_and_scalability_runs() {
    let t = hardcoded_throughput_commands(Algorithm::Rho, "RHO", "cache-fit");
    assert_eq!(
        t,
        vec![
            Commandline::with_args(Platform::Sgx, &["-a", "RHO", "-d", "cache-fit", "-n", "2", "--csv"]),
            Commandline::with_args(Platform::Native, &["-a", "RHO", "-d", "cache-fit", "-n", "2", "--csv"]),
        ]
    );
    let s = hardcoded_scalability_commands(Algorithm::Commit(1), "___", "cache-exceed");
    assert_eq!(s.len(), 8);
    assert_eq!(s[0], Commandline::with_args(Platform::Sgx, &["-a", "___", "-d", "cache-exceed", "-n", "1", "--csv"]));
    assert_eq!(s[7], Commandline::with_args(Platform::Sgx, &["-a", "___", "-d", "cache-exceed", "-n", "8", "--csv"]));
}

#[test]
fn hardcoded_perf_report_groups() {
    let g = hardcoded_perf_report_commands(3, &Algorithm::Mway);
    assert_eq!(g.len(), 4);
    assert_eq!(g[0].len(), 4);
    assert_eq!(g[2].len(), 16);
    assert_eq!(g[0][0], Commandline::with_args(Platform::Sgx, &["-a", "___", "-d", "cache-fit", "-n", "2", "--csv"]));
    assert_eq!(g[0][2], Commandline::with_args(Platform::Sgx, &["-a", "MWAY", "-d", "cache-fit", "-n", "2", "--csv"]));
    assert_eq!(g[1][0], Commandline::with_args(Platform::Sgx, &["-a", "MWAY", "-d", "cache-exceed", "-n", "2", "--csv"]));
    assert_eq!(g[3][15], Commandline::with_args(Platform::Sgx, &["-a", "___", "-d", "cache-exceed", "-n", "8", "--csv"]));
    let c = hardcoded_perf_report_commands(3, &Algorithm::Commit(2));
    assert_eq!(c[0][2], Commandline::with_args(Platform::Sgx, &["-a", "___", "-d", "cache-fit", "-n", "2", "--csv"]));
}
