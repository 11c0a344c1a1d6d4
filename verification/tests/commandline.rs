use teebench_web::commandline::Commandline;
use teebench_web::data_types::{Algorithm, Dataset, ExperimentType, Measurement, Parameter, Platform};
use teebench_web::profiling::ProfilingConfiguration;

#[test]
fn profiling_configuration_to_teebench_cmd_default() {
    let c = ProfilingConfiguration::new(
        vec![Algorithm::Cht],
        ExperimentType::Custom,
        Parameter::Threads,
        Measurement::Throughput,
        2,
        2,
        2,
        vec![Dataset::CacheFit],
        vec![Platform::Sgx],
        false,
    );
    let cmd = Commandline::with_args(Platform::Sgx, &["-a", "CHT", "-d", "cache-fit", "-n", "2", "--csv"]);
    for (to_be_tested, expected) in c.to_teebench_cmd().iter().zip(vec![cmd]) {
        assert_eq!(to_be_tested, &expected);
    }
}

#[test]
fn profiling_configuration_to_teebench_cmd_multiple_cmds() {
    let c = ProfilingConfiguration::new(
        vec![Algorithm::Cht, Algorithm::Rho],
        ExperimentType::default(),
        Parameter::DataSkew,
        Measurement::default(),
        2,
        8,
        2,
        vec![Dataset::CacheExceed, Dataset::CacheFit],
        vec![Platform::Sgx, Platform::Native],
        true,
    );
    let cmds = [
        Commandline::with_args(Platform::Sgx, &["-a", "CHT", "--sort-r", "--sort-s", "-d", "cache-exceed", "-z", "2", "--csv"]),
        Commandline::with_args(Platform::Native, &["-a", "CHT", "--sort-r", "--sort-s", "-d", "cache-exceed", "-z", "2", "--csv"]),
        Commandline::with_args(Platform::Sgx, &["-a", "RHO", "--sort-r", "--sort-s", "-d", "cache-exceed", "-z", "2", "--csv"]),
        Commandline::with_args(Platform::Native, &["-a", "RHO", "--sort-r", "--sort-s", "-d", "cache-exceed", "-z", "2", "--csv"]),
        Commandline::with_args(Platform::Sgx, &["-a", "CHT", "--sort-r", "--sort-s", "-d", "cache-fit", "-z", "2", "--csv"]),
        Commandline::with_args(Platform::Native, &["-a", "CHT", "--sort-r", "--sort-s", "-d", "cache-fit", "-z", "2", "--csv"]),
        Commandline::with_args(Platform::Sgx, &["-a", "RHO", "--sort-r", "--sort-s", "-d", "cache-fit", "-z", "2", "--csv"]),
        Commandline::with_args(Platform::Native, &["-a", "RHO", "--sort-r", "--sort-s", "-d", "cache-fit", "-z", "2", "--csv"]),
        Commandline::with_args(Platform::Sgx, &["-a", "CHT", "--sort-r", "--sort-s", "-d", "cache-exceed", "-z", "4", "--csv"]),
        Commandline::with_args(Platform::Native, &["-a", "CHT", "--sort-r", "--sort-s", "-d", "cache-exceed", "-z", "4", "--csv"]),
        Commandline::with_args(Platform::Sgx, &["-a", "RHO", "--sort-r", "--sort-s", "-d", "cache-exceed", "-z", "4", "--csv"]),
        Commandline::with_args(Platform::Native, &["-a", "RHO", "--sort-r", "--sort-s", "-d", "cache-exceed", "-z", "4", "--csv"]),
        Commandline::with_args(Platform::Sgx, &["-a", "CHT", "--sort-r", "--sort-s", "-d", "cache-fit", "-z", "4", "--csv"]),
        Commandline::with_args(Platform::Native, &["-a", "CHT", "--sort-r", "--sort-s", "-d", "cache-fit", "-z", "4", "--csv"]),
        Commandline::with_args(Platform::Sgx, &["-a", "RHO", "--sort-r", "--sort-s", "-d", "cache-fit", "-z", "4", "--csv"]),
        Commandline::with_args(Platform::Native, &["-a", "RHO", "--sort-r", "--sort-s", "-d", "cache-fit", "-z", "4", "--csv"]),
        Commandline::with_args(Platform::Sgx, &["-a", "CHT", "--sort-r", "--sort-s", "-d", "cache-exceed", "-z", "6", "--csv"]),
        Commandline::with_args(Platform::Native, &["-a", "CHT", "--sort-r", "--sort-s", "-d", "cache-exceed", "-z", "6", "--csv"]),
        Commandline::with_args(Platform::Sgx, &["-a", "RHO", "--sort-r", "--sort-s", "-d", "cache-exceed", "-z", "6", "--csv"]),
        Commandline::with_args(Platform::Native, &["-a", "RHO", "--sort-r", "--sort-s", "-d", "cache-exceed", "-z", "6", "--csv"]),
        Commandline::with_args(Platform::Sgx, &["-a", "CHT", "--sort-r", "--sort-s", "-d", "cache-fit", "-z", "6", "--csv"]),
        Commandline::with_args(Platform::Native, &["-a", "CHT", "--sort-r", "--sort-s", "-d", "cache-fit", "-z", "6", "--csv"]),
        Commandline::with_args(Platform::Sgx, &["-a", "RHO", "--sort-r", "--sort-s", "-d", "cache-fit", "-z", "6", "--csv"]),
        Commandline::with_args(Platform::Native, &["-a", "RHO", "--sort-r", "--sort-s", "-d", "cache-fit", "-z", "6", "--csv"]),
        Commandline::with_args(Platform::Sgx, &["-a", "CHT", "--sort-r", "--sort-s", "-d", "cache-exceed", "-z", "8", "--csv"]),
        Commandline::with_args(Platform::Native, &["-a", "CHT", "--sort-r", "--sort-s", "-d", "cache-exceed", "-z", "8", "--csv"]),
        Commandline::with_args(Platform::Sgx, &["-a", "RHO", "--sort-r", "--sort-s", "-d", "cache-exceed", "-z", "8", "--csv"]),
        Commandline::with_args(Platform::Native, &["-a", "RHO", "--sort-r", "--sort-s", "-d", "cache-exceed", "-z", "8", "--csv"]),
        Commandline::with_args(Platform::Sgx, &["-a", "CHT", "--sort-r", "--sort-s", "-d", "cache-fit", "-z", "8", "--csv"]),
        Commandline::with_args(Platform::Native, &["-a", "CHT", "--sort-r", "--sort-s", "-d", "cache-fit", "-z", "8", "--csv"]),
        Commandline::with_args(Platform::Sgx, &["-a", "RHO", "--sort-r", "--sort-s", "-d", "cache-fit", "-z", "8", "--csv"]),
        Commandline::with_args(Platform::Native, &["-a", "RHO", "--sort-r", "--sort-s", "-d", "cache-fit", "-z", "8", "--csv"]),
    ];
    let to_be_tested = c.to_teebench_cmd();

    assert_eq!(to_be_tested.len(), cmds.len());
    for tested_cmd in to_be_tested {
        assert!(cmds.contains(&tested_cmd));
    }
}

#[test]
fn commandline_new_has_no_arguments() {
    let c = Commandline::new(Platform::Native);
    assert_eq!(c.app, Platform::Native);
    assert!(c.args.is_empty());
}

#[test]
fn commandline_add_args_and_flag_append_in_order() {
    let mut c = Commandline::new(Platform::Sgx);
    c.add_args("-a", "RHO");
    c.add_flag("--csv");
    assert_eq!(c, Commandline::with_args(Platform::Sgx, &["-a", "RHO", "--csv"]));
}

#[test]
fn commandline_to_string_joins_with_spaces() {
    let c = Commandline::with_args(Platform::Sgx, &["-a", "CHT", "-n", "2"]);
    assert_eq!(c.to_string(), "./sgx -a CHT -n 2");
    let n = Commandline::new(Platform::Native);
    assert_eq!(n.to_string(), "./native ");
}

#[test]
fn commandline_double_cmds_replaces_last_argument() {
    let mut cmds = vec![
        Commandline::with_args(Platform::Sgx, &["-a", "CHT"]),
        Commandline::with_args(Platform::Native, &["-a", "CHT"]),
    ];
    let values = vec!["RHO".to_string(), "PHT".to_string()];
    Commandline::double_cmds_with_different_arg_value(&mut cmds, &values);
    let expected = vec![
        Commandline::with_args(Platform::Sgx, &["-a", "CHT"]),
        Commandline::with_args(Platform::Native, &["-a", "CHT"]),
        Commandline::with_args(Platform::Sgx, &["-a", "RHO"]),
        Commandline::with_args(Platform::Native, &["-a", "RHO"]),
        Commandline::with_args(Platform::Sgx, &["-a", "PHT"]),
        Commandline::with_args(Platform::Native, &["-a", "PHT"]),
    ];
    assert_eq!(cmds, expected);
}

#[test]
fn commandline_to_teebench_args_reads_options() {
    let c = Commandline::with_args(Platform::Native, &["-a", "CHT", "-d", "cache-exceed", "-n", "4", "--sort-r", "--csv"]);
    let a = c.to_teebench_args();
    assert_eq!(a.app_name, Platform::Native);
    assert_eq!(a.algorithm, Algorithm::Cht);
    assert_eq!(a.dataset, Dataset::CacheExceed);
    assert_eq!(a.threads, 4);
    assert!(a.sort_r);
    assert!(!a.sort_s);
    assert!(a.csv);
    assert_eq!(a.selectivity, 100);
    assert_eq!(a.r_tuples, 2097152);
}

#[test]
fn commandline_experiment_commands_read_back_as_their_runs() {
    let c = ProfilingConfiguration::new(
        vec![Algorithm::Rho],
        ExperimentType::Custom,
        Parameter::JoinSelectivity,
        Measurement::Throughput,
        10,
        30,
        10,
        vec![Dataset::CacheFit],
        vec![Platform::Sgx],
        false,
    );
    let cmds = c.to_teebench_cmd();
    assert_eq!(cmds.len(), 3);
    for (k, cmd) in cmds.iter().enumerate() {
        let a = cmd.to_teebench_args();
        assert_eq!(a.algorithm, Algorithm::Rho);
        assert_eq!(a.selectivity as usize, 10 * (k + 1));
        assert_eq!(a.dataset, Dataset::CacheFit);
    }
}

#[test]
fn commandline_experiment_commands_read_back_distinct() {
    let c = ProfilingConfiguration::new(
        vec![Algorithm::Cht, Algorithm::Rho],
        ExperimentType::Custom,
        Parameter::DataSkew,
        Measurement::Throughput,
        2,
        8,
        2,
        vec![Dataset::CacheExceed, Dataset::CacheFit],
        vec![Platform::Sgx, Platform::Native],
        true,
    );
    let cmds = c.to_teebench_cmd();
    let mut seen: Vec<teebench_web::data_types::TeebenchArgs> = Vec::new();
    for cmd in &cmds {
        let a = cmd.to_teebench_args();
        assert_eq!(a.app_name, cmd.app);
        assert!(c.platform.contains(&a.app_name));
        assert!(c.algorithm.contains(&a.algorithm));
        assert!(c.dataset.contains(&a.dataset));
        assert!([2, 4, 6, 8].contains(&a.data_skew));
        assert!(a.sort_r && a.sort_s && a.csv);
        assert!(!seen.contains(&a));
        seen.push(a);
    }
    assert_eq!(seen.len(), 32);
}
