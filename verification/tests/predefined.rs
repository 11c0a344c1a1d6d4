use teebench_web::commit::PerfReportStatus;
use teebench_web::data_types::{Algorithm, CompilationStatus, Dataset, ExperimentType, JobResult, Operator, PerfReportConfig, Platform};
use teebench_web::predefined::{predefined_commit, MERGE_EXAMPLE_CODE};
use teebench_web::profiling::JobConfig;

#[test]
fn predefined_commit_fields() {
    let c = predefined_commit();
    assert_eq!(c.get_title(), "merge_example_v0.0.1");
    assert_eq!(c.operator, Operator::Join);
    assert_eq!(c.id, 1);
    assert_eq!(c.baseline, Algorithm::Rho);
    assert_eq!(c.compilation, CompilationStatus::Successful(String::new()));
    assert_eq!(c.perf_report_running, PerfReportStatus::Idle);
    assert_eq!(c.get_time_of_day(), "12:00");
    assert_eq!(c.get_date(), "25.04");
    assert_eq!(c.code, MERGE_EXAMPLE_CODE);
    assert!(c.code.starts_with("#include <JoinCommons.h>\n"));
    assert!(c.code.ends_with("    return joinresult;\n}\n"));
}

#[test]
fn predefined_commit_report() {
    let c = predefined_commit();
    match c.report {
        Some(JobResult::Exp(Ok(rep))) => {
            assert_eq!(rep.charts.len(), 4);
            assert_eq!(
                rep.charts[2].config,
                JobConfig::PerfReport(PerfReportConfig { id: 1, exp_type: ExperimentType::Scalability, dataset: Dataset::CacheFit, baseline: Algorithm::Rho })
            );
            assert_eq!(rep.charts[0].results.len(), 4);
            assert_eq!(rep.charts[3].results.len(), 16);
            let (args, res) = &rep.charts[0].results[0];
            assert_eq!(args.app_name, Platform::Native);
            assert_eq!(args.algorithm, Algorithm::Rho);
            assert_eq!(res["throughput"], "205.3905");
            assert_eq!(res["matches"], "5242880");
        }
        _ => panic!("the example commit has a report"),
    }
}
