use teebench_web::commandline::Commandline;
use teebench_web::data_types::{Algorithm, Dataset, ExperimentType, Measurement, Parameter, Platform};
use teebench_web::profiling::{JobConfig, ProfilingConfiguration};

fn config(exp: ExperimentType, parameter: Parameter, measurement: Measurement) -> ProfilingConfiguration {
    ProfilingConfiguration::new(
        vec![Algorithm::Rho, Algorithm::Cht],
        exp,
        parameter,
        measurement,
        1,
        3,
        1,
        vec![Dataset::CacheFit, Dataset::CacheExceed],
        vec![Platform::Sgx],
        false,
    )
}

#[test]
fn profiling_new_keeps_first_occurrences() {
    let c = ProfilingConfiguration::new(
        vec![Algorithm::Rho, Algorithm::Cht, Algorithm::Rho],
        ExperimentType::Custom,
        Parameter::Threads,
        Measurement::Throughput,
        1,
        2,
        1,
        vec![Dataset::CacheFit, Dataset::CacheFit],
        vec![Platform::Native, Platform::Sgx, Platform::Native],
        true,
    );
    assert_eq!(c.algorithm, vec![Algorithm::Rho, Algorithm::Cht]);
    assert_eq!(c.dataset, vec![Dataset::CacheFit]);
    assert_eq!(c.platform, vec![Platform::Native, Platform::Sgx]);
    assert!(c.sort_data);
}

#[test]
fn profiling_param_values() {
    let mut c = config(ExperimentType::Custom, Parameter::Threads, Measurement::Throughput);
    assert_eq!(c.param_value_iter(), vec![1, 2, 3]);
    c.min = 2;
    c.max = 8;
    c.step = 3;
    assert_eq!(c.param_value_iter(), vec![2, 5, 8]);
    c.step = 4;
    assert_eq!(c.param_value_iter(), vec![2, 6]);
    c.min = 9;
    assert_eq!(c.param_value_iter(), Vec::<i64>::new());
}

#[test]
fn profiling_commands_order_and_count() {
    let c = ProfilingConfiguration::new(
        vec![Algorithm::Cht, Algorithm::Rho],
        ExperimentType::Custom,
        Parameter::Threads,
        Measurement::Throughput,
        1,
        2,
        1,
        vec![Dataset::CacheFit],
        vec![Platform::Sgx, Platform::Native],
        false,
    );
    let cmds = c.to_teebench_cmd();
    let expected = vec![
        Commandline::with_args(Platform::Sgx, &["-a", "CHT", "-d", "cache-fit", "-n", "1", "--csv"]),
        Commandline::with_args(Platform::Native, &["-a", "CHT", "-d", "cache-fit", "-n", "1", "--csv"]),
        Commandline::with_args(Platform::Sgx, &["-a", "RHO", "-d", "cache-fit", "-n", "1", "--csv"]),
        Commandline::with_args(Platform::Native, &["-a", "RHO", "-d", "cache-fit", "-n", "1", "--csv"]),
        Commandline::with_args(Platform::Sgx, &["-a", "CHT", "-d", "cache-fit", "-n", "2", "--csv"]),
        Commandline::with_args(Platform::Native, &["-a", "CHT", "-d", "cache-fit", "-n", "2", "--csv"]),
        Commandline::with_args(Platform::Sgx, &["-a", "RHO", "-d", "cache-fit", "-n", "2", "--csv"]),
        Commandline::with_args(Platform::Native, &["-a", "RHO", "-d", "cache-fit", "-n", "2", "--csv"]),
    ];
    assert_eq!(cmds, expected);
}

#[test]
fn profiling_preconfigured_experiments() {
    let mut t = config(ExperimentType::Throughput, Parameter::DataSkew, Measurement::EpcPaging);
    t.set_preconfigured_experiment();
    assert_eq!(t.measurement, Measurement::Throughput);
    assert_eq!(t.parameter, Parameter::DataSkew);
    let mut e = config(ExperimentType::EpcPaging, Parameter::DataSkew, Measurement::Throughput);
    e.set_preconfigured_experiment();
    assert_eq!(e.measurement, Measurement::EpcPaging);
    let mut s = config(ExperimentType::Scalability, Parameter::DataSkew, Measurement::EpcPaging);
    s.set_preconfigured_experiment();
    assert_eq!(s.measurement, Measurement::Throughput);
    assert_eq!(s.parameter, Parameter::Threads);
    let before = s.clone();
    s.set_preconfigured_experiment();
    assert_eq!(s, before);
    let mut c = config(ExperimentType::Custom, Parameter::DataSkew, Measurement::EpcPaging);
    c.set_preconfigured_experiment();
    assert_eq!(c.measurement, Measurement::EpcPaging);
    assert_eq!(c.parameter, Parameter::DataSkew);
}

#[test]
fn profiling_default_configuration() {
    let d = ProfilingConfiguration::default();
    assert_eq!(d.algorithm.len(), 11);
    assert_eq!(d.algorithm[0], Algorithm::Rho);
    assert_eq!(d.algorithm[10], Algorithm::Commit(0));
    assert_eq!(d.dataset, vec![Dataset::CacheExceed, Dataset::CacheFit]);
    assert_eq!(d.platform, vec![Platform::Sgx]);
    assert_eq!((d.min, d.max, d.step), (2, 8, 1));
    match JobConfig::default() {
        JobConfig::Profiling(c) => assert_eq!(c, d),
        _ => panic!("the default job is a profiling job"),
    }
}

#[test]
fn profiling_configuration_text() {
    let c = ProfilingConfiguration::new(
        vec![Algorithm::Rho, Algorithm::Commit(3)],
        ExperimentType::Custom,
        Parameter::Threads,
        Measurement::Throughput,
        -1,
        8,
        2,
        vec![Dataset::CacheFit],
        vec![Platform::Sgx, Platform::Native],
        true,
    );
    let expected = "Configuration:\n    Algorithm(s): {Rho, Commit(3)}\n    Experiment Type: Custom\n    Parameter: Threads\n        min: -1\n        max: 8\n        step: 2\n    Measurement: Throughput\n    Dataset: {CacheFit}\n    Platform: {Sgx, Native}\n    Pre-sort data: true\n";
    assert_eq!(c.to_string(), expected);
    assert_eq!(JobConfig::Profiling(c).to_string(), expected);
    assert_eq!(JobConfig::Compile(12).to_string(), "Compile 12");
    let (pr, _) = teebench_web::data_types::PerfReportConfig::for_throughput(1, Algorithm::Rho);
    assert_eq!(JobConfig::PerfReport(pr).to_string(), "PerfReport");
}

#[test]
fn profiling_job_config_conversions() {
    let c = config(ExperimentType::Custom, Parameter::Threads, Measurement::Throughput);
    let j: JobConfig = JobConfig::from(c.clone());
    assert_eq!(j, JobConfig::Profiling(c.clone()));
    assert_eq!(ProfilingConfiguration::from(j), c);
}

#[test]
fn profiling_chart_configs_one_per_dataset() {
    let c = config(ExperimentType::Scalability, Parameter::DataSkew, Measurement::EpcPaging);
    let charts = c.chart_configs();
    assert_eq!(charts.len(), 2);
    for (k, j) in charts.iter().enumerate() {
        match j {
            JobConfig::Profiling(p) => {
                assert_eq!(p.dataset, vec![c.dataset[k]]);
                assert_eq!(p.parameter, Parameter::Threads);
                assert_eq!(p.measurement, Measurement::Throughput);
                assert_eq!(p.algorithm, c.algorithm);
                assert_eq!(p.platform, c.platform);
            }
            _ => panic!("charts of a profiling job are profiling charts"),
        }
    }
}

#[test]
fn profiling_chart_commands_per_dataset() {
    let c = ProfilingConfiguration::new(
        vec![Algorithm::Cht],
        ExperimentType::Custom,
        Parameter::DataSkew,
        Measurement::Throughput,
        0,
        5,
        5,
        vec![Dataset::CacheExceed, Dataset::CacheFit],
        vec![Platform::Sgx],
        true,
    );
    let groups = c.chart_commands();
    assert_eq!(
        groups,
        vec![
            vec![
                Commandline::with_args(Platform::Sgx, &["-a", "CHT", "--sort-r", "--sort-s", "-d", "cache-exceed", "-z", "0", "--csv"]),
                Commandline::with_args(Platform::Sgx, &["-a", "CHT", "--sort-r", "--sort-s", "-d", "cache-exceed", "-z", "5", "--csv"]),
            ],
            vec![
                Commandline::with_args(Platform::Sgx, &["-a", "CHT", "--sort-r", "--sort-s", "-d", "cache-fit", "-z", "0", "--csv"]),
                Commandline::with_args(Platform::Sgx, &["-a", "CHT", "--sort-r", "--sort-s", "-d", "cache-fit", "-z", "5", "--csv"]),
            ],
        ]
    );
}
