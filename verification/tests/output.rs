use teebench_web::output::{
    lookup_value, output_column, output_values, parse_output, results_from_fields, results_from_row,
    OUTPUT_COLUMNS, REQUIRED_OUTPUT_COLUMNS,
};

fn pairs(v: &[(&str, &str)]) -> Vec<(String, String)> {
    v.iter().map(|(a, b)| (a.to_string(), b.to_string())).collect()
}

#[test]
fn output_parse_csv() {
    let out = b"matches,throughput\n5242880,39.81\n".to_vec();
    assert_eq!(parse_output(&out), Ok(pairs(&[("matches", "5242880"), ("throughput", "39.81")])));
}

#[test]
fn output_parse_errors() {
    assert_eq!(parse_output(&b"matches,throughput\n".to_vec()), Err("Task produced no CSV output!".to_string()));
    assert_eq!(parse_output(&Vec::new()), Err("Task produced no CSV output!".to_string()));
    assert_eq!(parse_output(&b"a,b\n1,2,3\n".to_vec()), Err("Error processing CSV!".to_string()));
}

#[test]
fn output_results_from_fields() {
    let h = Ok(vec!["a".to_string(), "b".to_string()]);
    let f = Some(Ok(vec!["1".to_string(), "2".to_string()]));
    assert_eq!(results_from_fields(h.clone(), f), Ok(pairs(&[("a", "1"), ("b", "2")])));
    assert_eq!(results_from_fields(h.clone(), None), Err("Task produced no CSV output!".to_string()));
    assert_eq!(results_from_fields(h, Some(Err("bad".to_string()))), Err("Error processing CSV!".to_string()));
    assert_eq!(
        results_from_fields(Err("bad".to_string()), Some(Ok(vec!["1".to_string()]))),
        Err("Error processing CSV!".to_string())
    );
}

#[test]
fn output_columns_in_order() {
    assert_eq!(OUTPUT_COLUMNS, 45);
    assert_eq!(REQUIRED_OUTPUT_COLUMNS, 12);
    assert_eq!(output_column(0), "algorithm");
    assert_eq!(output_column(11), "throughput");
    assert_eq!(output_column(12), "phase1L3CacheMisses");
    assert_eq!(output_column(44), "totalSystemCpuTime");
}

#[test]
fn output_lookup_takes_last() {
    let p = pairs(&[("a", "1"), ("b", "2"), ("a", "3")]);
    assert_eq!(lookup_value(&p, "a"), Some("3".to_string()));
    assert_eq!(lookup_value(&p, "c"), None);
}

fn full_results() -> Vec<(String, String)> {
    let mut v = Vec::new();
    for i in 0..REQUIRED_OUTPUT_COLUMNS {
        v.push((output_column(i).to_string(), format!("{i}")));
    }
    v.push(("totalIPC".to_string(), "1.5".to_string()));
    v.push(("notAColumn".to_string(), "x".to_string()));
    v
}

#[test]
fn output_values_per_column() {
    let vals = output_values(&full_results()).unwrap();
    assert_eq!(vals.len(), 45);
    assert_eq!(vals[0], Some("0".to_string()));
    assert_eq!(vals[11], Some("11".to_string()));
    assert_eq!(vals[12], None);
    assert_eq!(vals[38], Some("1.5".to_string()));
    let mut missing = full_results();
    missing.remove(3);
    assert_eq!(output_values(&missing), None);
}

#[test]
fn output_row_round_trip() {
    let results = full_results();
    let vals = output_values(&results).unwrap();
    let back = results_from_row(&vals);
    let mut expected: Vec<(String, String)> = results[..12].to_vec();
    expected.push(("totalIPC".to_string(), "1.5".to_string()));
    assert_eq!(back, expected);
}
