use teebench_web::data_types::{Finding, FindingStyle};
use teebench_web::findings::scalability_finding;

#[test]
fn findings_scalability_very_poor() {
    assert_eq!(
        scalability_finding(4, 8, 16),
        Finding::new("Very Poor Scalability", "Used only 4/16 physical cores", FindingStyle::Bad)
    );
}

#[test]
fn findings_scalability_poor() {
    assert_eq!(
        scalability_finding(14, 16, 16),
        Finding::new("Poor Scalability", "Used only 14/16 physical cores", FindingStyle::SoSo)
    );
}

#[test]
fn findings_scalability_good() {
    assert_eq!(
        scalability_finding(15, 16, 16),
        Finding::new("Good Scalability", "Best for 15 threads", FindingStyle::Good)
    );
    // The best run used the most threads: scaling is good whatever the core count.
    assert_eq!(
        scalability_finding(4, 4, 16),
        Finding::new("Good Scalability", "Best for 4 threads", FindingStyle::Good)
    );
}
