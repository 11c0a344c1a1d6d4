use teebench_web::args::{ArgOption, ArgsError};
use teebench_web::data_types::{Algorithm, Dataset, Platform, TeebenchArgs};

fn args(v: &[&str]) -> Vec<String> {
    v.iter().map(|s| s.to_string()).collect()
}

#[test]
fn args_read_short_and_long_options() {
    let a = TeebenchArgs::from_args_list(
        Platform::Native,
        &args(&["-a", "RHO", "--dataset=cache-exceed", "-n8", "--selectivity", "50", "-x", "64", "--seal", "--csv"]),
    )
    .unwrap();
    assert_eq!(a.app_name, Platform::Native);
    assert_eq!(a.algorithm, Algorithm::Rho);
    assert_eq!(a.dataset, Dataset::CacheExceed);
    assert_eq!(a.threads, 8);
    assert_eq!(a.selectivity, 50);
    assert_eq!(a.r_size, Some(64));
    assert_eq!(a.s_size, None);
    assert!(a.seal);
    assert!(a.csv);
    assert!(!a.sort_s);
}

#[test]
fn args_defaults_apply() {
    let a = TeebenchArgs::from_args_list(Platform::Sgx, &args(&["-a", "___"])).unwrap();
    assert_eq!(a.algorithm, Algorithm::Commit(1));
    assert_eq!(a.dataset, Dataset::CacheFit);
    assert_eq!(a.threads, 2);
    assert_eq!(a.selectivity, 100);
    assert_eq!(a.data_skew, 0);
    assert_eq!(a.seal_chunk_size, 0);
    assert_eq!(a.r_tuples, 2097152);
    assert_eq!(a.s_tuples, 2097152);
    assert!(!a.csv);
    assert_eq!(a.r_path, None);
}

#[test]
fn args_paths_are_kept_as_given() {
    let a = TeebenchArgs::from_args_list(Platform::Sgx, &args(&["-a", "CHT", "-t", "r.csv", "--s-path", "s.csv"])).unwrap();
    assert_eq!(a.r_path, Some("r.csv".to_string()));
    assert_eq!(a.s_path, Some("s.csv".to_string()));
}

#[test]
fn args_errors() {
    let e = |v: &[&str]| TeebenchArgs::from_args_list(Platform::Sgx, &args(v)).unwrap_err();
    assert_eq!(e(&["-a", "RHO", "--bogus"]), ArgsError::UnknownArgument);
    assert_eq!(e(&["-a", "RHO", "-q", "1"]), ArgsError::UnknownArgument);
    assert_eq!(e(&["RHO"]), ArgsError::UnexpectedArgument);
    assert_eq!(e(&["-a"]), ArgsError::MissingValue);
    assert_eq!(e(&["-a", "-n"]), ArgsError::MissingValue);
    assert_eq!(e(&["-a", "RHO", "--csv=yes"]), ArgsError::UnexpectedValue);
    assert_eq!(e(&["-a", "RHO", "-a", "CHT"]), ArgsError::RepeatedArgument);
    assert_eq!(e(&["-a", "RHO", "-n", "256"]), ArgsError::InvalidValue(ArgOption::Threads));
    assert_eq!(e(&["-a", "RHO", "-d", "big"]), ArgsError::InvalidValue(ArgOption::Dataset));
    assert_eq!(e(&["-n", "4"]), ArgsError::InvalidValue(ArgOption::Algorithm));
    assert_eq!(e(&["-a", "XYZ"]), ArgsError::InvalidValue(ArgOption::Algorithm));
    assert_eq!(e(&["-a", "RHO", "-y", "-1"]), ArgsError::MissingValue);
    assert_eq!(e(&["-a", "RHO", "-y", "x1"]), ArgsError::InvalidValue(ArgOption::SSize));
    assert_eq!(e(&["--help"]), ArgsError::HelpOrVersion);
    assert_eq!(e(&["-V"]), ArgsError::HelpOrVersion);
    assert_eq!(e(&["-a", "RHO", "--", "x"]), ArgsError::UnexpectedArgument);
}

#[test]
fn args_option_names() {
    assert_eq!(ArgOption::from_long("r-tuples"), Some(ArgOption::RTuples));
    assert_eq!(ArgOption::from_long("sort-r"), Some(ArgOption::SortR));
    assert_eq!(ArgOption::from_long("sort"), None);
    assert_eq!(ArgOption::from_short('z'), Some(ArgOption::DataSkew));
    assert_eq!(ArgOption::from_short('q'), None);
    assert!(ArgOption::Threads.is_valued());
    assert!(!ArgOption::Csv.is_valued());
}
