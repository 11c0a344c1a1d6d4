use teebench_web::data_types::{
    Algorithm, Dataset, ExperimentType, Finding, FindingStyle, Measurement, Operator, Parameter,
    ParseError, PerfReportConfig, Platform, TeeBenchWebError, TeebenchArgs,
};

#[test]
fn dataset_to_from_string() {
    let ds_enum = Dataset::CacheExceed;
    let ds = ds_enum.to_string();
    assert_eq!(ds, "Cache Exceed");
    assert_eq!(Dataset::from_str(&ds).unwrap(), ds_enum);
}

#[test]
fn dataset_from_str_rejects_other_names() {
    assert_eq!(Dataset::from_str("cache-fit"), Err(ParseError::VariantNotFound));
    assert_eq!(Dataset::from_str("Cache Fit"), Ok(Dataset::CacheFit));
}

#[test]
fn dataset_cmd_args_read_back() {
    for d in [Dataset::CacheFit, Dataset::CacheExceed] {
        assert_eq!(Dataset::from_cmd_arg(&d.to_cmd_arg()), Ok(d));
        assert_eq!(Dataset::from_cmd_arg(&d.to_string()), Ok(d));
    }
    assert_eq!(Dataset::to_cmd_arg(&Dataset::CacheFit), "cache-fit");
    assert_eq!(Dataset::from_cmd_arg("CacheExceed"), Ok(Dataset::CacheExceed));
    assert_eq!(
        Dataset::from_cmd_arg("cache"),
        Err("Dataset can only be Cache Fit or Cache Exceed!")
    );
}

#[test]
fn algorithm_names_and_cmd_args() {
    assert_eq!(Algorithm::Mway.to_string(), "MWAY");
    assert_eq!(Algorithm::Commit(4).to_string(), "Latest Operator");
    assert_eq!(Algorithm::Commit(4).to_cmd_arg(), "___");
    assert_eq!(Algorithm::Crkj.to_cmd_arg(), "CRKJ");
    assert_eq!(Algorithm::from_cmd_arg("NLJ"), Ok(Algorithm::Nlj));
    assert_eq!(Algorithm::from_cmd_arg("___"), Ok(Algorithm::Commit(1)));
    assert_eq!(Algorithm::from_cmd_arg("Latest Operator"), Ok(Algorithm::Commit(0)));
    assert_eq!(Algorithm::from_cmd_arg("rho"), Err("Could not find this Operator/Algorithm!"));
    assert_eq!(Algorithm::from_str("PSM"), Ok(Algorithm::Psm));
    assert_eq!(Algorithm::from_str("psm"), Err(ParseError::VariantNotFound));
    assert!(Algorithm::Commit(2).is_commit());
    assert!(!Algorithm::Rho.is_commit());
}

#[test]
fn algorithm_cmd_args_read_back() {
    for a in [
        Algorithm::Rho, Algorithm::Pht, Algorithm::Psm, Algorithm::Mway, Algorithm::Rht,
        Algorithm::Cht, Algorithm::Rsm, Algorithm::Inl, Algorithm::Crkj, Algorithm::Nlj,
    ] {
        assert_eq!(Algorithm::from_cmd_arg(&a.to_cmd_arg()), Ok(a));
    }
    assert_eq!(Algorithm::from_cmd_arg(&Algorithm::Commit(9).to_cmd_arg()), Ok(Algorithm::Commit(1)));
}

#[test]
fn platform_names() {
    assert_eq!(Platform::Sgx.to_string(), "SGX");
    assert_eq!(Platform::Native.to_app_name(), "./native");
    assert_eq!(Platform::from_app_name("fake_teebench"), Ok(Platform::Sgx));
    assert_eq!(Platform::from_app_name("app"), Ok(Platform::Sgx));
    assert_eq!(Platform::from_app_name("native"), Ok(Platform::Native));
    assert_eq!(Platform::from_app_name("sgx2"), Err("Platform cannot be sgx2".to_string()));
    for p in [Platform::Sgx, Platform::Native] {
        let name = p.to_app_name();
        assert_eq!(Platform::from_app_name(&name[2..]), Ok(p));
    }
}

#[test]
fn platform_from_program_path() {
    assert_eq!(Platform::arg0_to_platform("/opt/tee/bin/native"), Some(Platform::Native));
    assert_eq!(Platform::arg0_to_platform("./sgx"), Some(Platform::Sgx));
    assert_eq!(Platform::arg0_to_platform("teebench"), Some(Platform::Sgx));
    assert_eq!(Platform::arg0_to_platform("bin/.."), None);
    assert_eq!(Platform::for_file_name("native"), Platform::Native);
    assert_eq!(Platform::for_file_name("other"), Platform::Sgx);
}

#[test]
fn experiment_type_texts() {
    assert_eq!(ExperimentType::EpcPaging.to_string(), "EPC Paging");
    assert_eq!(ExperimentType::Custom.description(), "A custom experiment");
    assert_eq!(
        ExperimentType::Throughput.description(),
        "Compares througput of all selected algorithms with a chart for each dataset"
    );
    assert_eq!(ExperimentType::default(), ExperimentType::Custom);
}

#[test]
fn parameter_and_measurement_texts() {
    assert_eq!(Parameter::DataSkew.to_string(), "Data Skew");
    assert_eq!(Parameter::JoinSelectivity.to_flag(), "-l");
    assert_eq!(Parameter::Threads.to_flag(), "-n");
    assert_eq!(Measurement::EpcPaging.to_string(), "Epc Paging");
    assert_eq!(Measurement::default(), Measurement::Throughput);
}

#[test]
fn operator_and_error_texts() {
    assert_eq!(Operator::GroupBy.to_string(), "GROUP BY");
    assert_eq!(Operator::Join.to_string(), "JOIN");
    assert_eq!(Operator::OrderBy.to_string(), "ORDER BY");
    assert_eq!(Operator::Projection.to_string(), "PROJECTION");
    assert_eq!(TeeBenchWebError::NoResults.to_string(), "Could not retrieve results");
    assert_eq!(TeeBenchWebError::default().to_string(), "Unknown error");
}

#[test]
fn finding_new_keeps_its_parts() {
    let f = Finding::new("Max Throughput", "12.5 [M rec/s]", FindingStyle::Good);
    assert_eq!(f.title, "Max Throughput");
    assert_eq!(f.message, "12.5 [M rec/s]");
    assert_eq!(f.style, FindingStyle::Good);
    assert_eq!(FindingStyle::default(), FindingStyle::Neutral);
}

#[test]
fn perf_report_configs_for_both_datasets() {
    let (a, b) = PerfReportConfig::for_throughput(3, Algorithm::Rho);
    assert_eq!(a.dataset, Dataset::CacheFit);
    assert_eq!(b.dataset, Dataset::CacheExceed);
    assert_eq!(a.exp_type, ExperimentType::Throughput);
    assert_eq!(b.id, 3);
    let (c, d) = PerfReportConfig::for_scalability(3, Algorithm::Commit(2));
    assert_eq!(c.exp_type, ExperimentType::Scalability);
    assert_eq!(d.baseline, Algorithm::Commit(2));
}

#[test]
fn teebench_args_defaults() {
    let a = TeebenchArgs::for_throughput(Algorithm::Pht, Platform::Native, Dataset::CacheExceed);
    assert_eq!(a.threads, 2);
    assert_eq!(a.selectivity, 100);
    assert_eq!(a.data_skew, 0);
    assert_eq!(a.r_tuples, 2097152);
    assert_eq!(a.s_tuples, 2097152);
    assert_eq!(a.r_path, None);
    assert!(a.csv);
    assert!(!a.seal);
    let d = TeebenchArgs::default();
    assert_eq!(d.app_name, Platform::Sgx);
    assert_eq!(d.algorithm, Algorithm::Rho);
    assert_eq!(d.dataset, Dataset::CacheFit);
}

#[test]
fn printed_names_read_back() {
    for o in [Operator::Join, Operator::GroupBy, Operator::Projection, Operator::OrderBy] {
        assert_eq!(Operator::from_str(&o.to_string()), Ok(o));
    }
    for e in [ExperimentType::EpcPaging, ExperimentType::Throughput, ExperimentType::Scalability, ExperimentType::Custom] {
        assert_eq!(ExperimentType::from_str(&e.to_string()), Ok(e));
    }
    for p in [Parameter::Threads, Parameter::DataSkew, Parameter::JoinSelectivity] {
        assert_eq!(Parameter::from_str(&p.to_string()), Ok(p));
    }
    for m in [Measurement::Throughput, Measurement::EpcPaging] {
        assert_eq!(Measurement::from_str(&m.to_string()), Ok(m));
    }
    for p in [Platform::Sgx, Platform::Native] {
        assert_eq!(Platform::from_str(&p.to_string()), Ok(p));
    }
    assert_eq!(Operator::from_str("GroupBy"), Err(ParseError::VariantNotFound));
    assert_eq!(Platform::from_str("Sgx"), Err(ParseError::VariantNotFound));
    assert_eq!(Parameter::from_str("threads"), Err(ParseError::VariantNotFound));
}
