use teebench_web::caching::{query_none, search_query, set_to_null_if_equals_empty_string};
use teebench_web::data_types::{Algorithm, Dataset, Platform, TeebenchArgs};

#[test]
fn caching_null_statement() {
    assert_eq!(
        set_to_null_if_equals_empty_string("output", "phase1IPC"),
        "\n        UPDATE output\n            SET phase1IPC = NULL\n            WHERE phase1IPC = \"\";\n    "
    );
}

#[test]
fn caching_query_none_conditions() {
    assert_eq!(query_none(&Some(5u32), "r_size", 12), "r_size=?12");
    assert_eq!(query_none::<u32>(&None, "s_size", 13), "s_size IS NULL");
}

#[test]
fn caching_search_query_text() {
    let mut a = TeebenchArgs::for_throughput(Algorithm::Rho, Platform::Sgx, Dataset::CacheFit);
    a.r_path = Some("r.csv".to_string());
    a.s_size = Some(10);
    assert_eq!(
        search_query(&a),
        "SELECT id FROM teebenchargs WHERE app_name=?1 AND dataset=?2 AND algorithm=?3 AND threads=?4 AND selectivity=?5 AND data_skew=?6 AND seal_chunk_size=?7 AND r_tuples=?8 AND s_tuples=?9 AND r_path=?10 AND s_path IS NULL AND r_size IS NULL AND s_size=?13 AND seal=?14 AND sort_r=?15 AND sort_s=?16"
    );
}

#[test]
fn caching_algorithm_debug_names() {
    assert_eq!(Algorithm::Rho.to_debug_string(false), "Rho");
    assert_eq!(Algorithm::Commit(12).to_debug_string(false), "Commit(12)");
    assert_eq!(Algorithm::Commit(12).to_debug_string(true), "Commit(\n    12,\n)");
    assert_eq!(Algorithm::Mway.to_debug_string(true), "Mway");
    assert_eq!(format!("{:?}", Algorithm::Commit(12)), Algorithm::Commit(12).to_debug_string(false));
    assert_eq!(format!("{:#?}", Algorithm::Commit(12)), Algorithm::Commit(12).to_debug_string(true));
}
