use teebench_web::commit::{Commit, CommitState, PerfReportStatus};
use teebench_web::data_types::{Algorithm, CompilationStatus, Operator};
use teebench_web::datetime::DateTime;

fn commit(title: &str, version: &str, id: usize, code: &str) -> Commit {
    Commit::new(
        title.to_string(),
        version.to_string(),
        Operator::Join,
        DateTime { unix_timestamp: 1682420400, offset_seconds: 3600 },
        code.to_string(),
        None,
        id,
        Algorithm::Rho,
    )
}

#[test]
fn commit_new_starts_uncompiled() {
    let c = commit("merge", "0.1", 3, "int a;");
    assert_eq!(c.compilation, CompilationStatus::Uncompiled);
    assert_eq!(c.perf_report_running, PerfReportStatus::Idle);
    assert_eq!(c.id, 3);
    assert_eq!(c.get_title(), "merge_v0.1");
}

#[test]
fn commit_time_and_date_in_its_offset() {
    let c = commit("merge", "0.1", 3, "");
    assert_eq!(c.get_time_of_day(), "12:00");
    assert_eq!(c.get_date(), "25.04");
    let mut late = commit("late", "1", 4, "");
    late.datetime = DateTime { unix_timestamp: 1682465580, offset_seconds: -18000 };
    assert_eq!(late.get_time_of_day(), "18:33");
    assert_eq!(late.get_date(), "25.04");
    late.datetime = DateTime { unix_timestamp: 1682465580, offset_seconds: 7200 };
    assert_eq!(late.get_time_of_day(), "01:33");
    assert_eq!(late.get_date(), "26.04");
}

#[test]
fn commit_state_lookups() {
    let mut s = CommitState::new(vec![commit("a", "1", 1, "x"), commit("b", "1", 2, "y")]);
    s.push_commit(commit("a", "2", 3, "z"));
    assert_eq!(s.get_by_id(&2).unwrap().title, "b");
    assert!(s.get_by_id(&7).is_none());
    assert_eq!(s.get_by_title("a").len(), 2);
    assert_eq!(s.get_by_title("a")[1].version, "2");
    assert_eq!(s.get_latest().unwrap().id, 3);
    assert_eq!(s.get_title(&3), Some("a_v2".to_string()));
    assert_eq!(s.get_title(&9), None);
    assert_eq!(s.get_title_by_algorithm(&Algorithm::Commit(2)), Some("b_v1".to_string()));
    assert_eq!(s.get_title_by_algorithm(&Algorithm::Psm), Some("PSM".to_string()));
    assert_eq!(s.get_title_by_algorithm(&Algorithm::Commit(8)), None);
    assert!(CommitState::new(vec![]).get_latest().is_none());
}

#[test]
fn commit_state_latest_is_last_of_equal_ids() {
    let s = CommitState::new(vec![commit("a", "1", 5, ""), commit("b", "1", 5, ""), commit("c", "1", 2, "")]);
    assert_eq!(s.get_latest().unwrap().title, "b");
}

#[test]
fn commit_state_get_by_id_mut_changes_in_place() {
    let mut s = CommitState::new(vec![commit("a", "1", 1, ""), commit("b", "1", 2, "")]);
    if let Some(c) = s.get_by_id_mut(&2) {
        c.perf_report_running = PerfReportStatus::Running(9);
    }
    assert_eq!(s.0[1].perf_report_running, PerfReportStatus::Running(9));
    assert_eq!(s.0[0].perf_report_running, PerfReportStatus::Idle);
    assert!(s.get_by_id_mut(&5).is_none());
}

#[test]
fn commit_state_pushed_commit_is_found() {
    let mut s = CommitState::new(vec![commit("a", "1", 1, "")]);
    s.push_commit(commit("n", "1", 6, "new"));
    assert_eq!(s.get_by_id(&6).unwrap().code, "new");
    assert_eq!(s.get_by_id(&1).unwrap().title, "a");
    assert_eq!(s.get_latest().unwrap().id, 6);
}

#[test]
fn commit_state_diffs() {
    let s = CommitState::new(vec![
        commit("a", "1", 1, "line one\nline two\n"),
        commit("a", "2", 2, "line one\nline 2\n"),
    ]);
    let d = s.get_diffs();
    assert_eq!(d.len(), 2);
    assert!(d[0].is_none());
    let diff = d[1].as_ref().unwrap();
    assert_ne!(diff, "line one\nline 2\n");
    assert!(diff.contains("-line two"));
    assert!(diff.contains("+line 2"));
    assert_eq!(CommitState::new(vec![]).get_diffs(), vec![None]);
}

#[test]
fn commit_state_used_code() {
    let s = CommitState::new(vec![commit("a", "1", 1, "one"), commit("b", "1", 2, "two")]);
    let code = s.get_used_code(&vec![Algorithm::Rho, Algorithm::Commit(2), Algorithm::Commit(1)]);
    assert_eq!(code, vec![(Algorithm::Commit(2), "two".to_string()), (Algorithm::Commit(1), "one".to_string())]);
}

#[test]
fn commit_state_records_compilation_and_report() {
    let mut s = CommitState::new(vec![commit("a", "1", 1, ""), commit("b", "1", 2, "")]);
    assert!(s.start_compiling(&2));
    assert_eq!(s.0[1].compilation, CompilationStatus::Compiling);
    assert!(s.finish_compiling(&2, Ok("log".to_string())));
    assert_eq!(s.0[1].compilation, CompilationStatus::Successful("log".to_string()));
    assert!(s.finish_compiling(&1, Err("boom".to_string())));
    assert_eq!(s.0[0].compilation, CompilationStatus::Failed("boom".to_string()));
    assert!(!s.start_compiling(&5));
    s.0[0].perf_report_running = PerfReportStatus::Running(3);
    assert!(s.store_report(&1, teebench_web::data_types::JobResult::Compile(Ok(String::new()))));
    assert_eq!(s.0[0].perf_report_running, PerfReportStatus::Idle);
    assert!(s.0[0].report.is_some());
    assert!(!s.store_report(&9, teebench_web::data_types::JobResult::Compile(Ok(String::new()))));
    assert_eq!(s.baseline_of(&2), Some(Algorithm::Rho));
    assert_eq!(s.baseline_of(&3), None);
}
