//! What the findings of a report conclude from whole numbers: how well a join scales with
//! the threads it is given.

use vstd::prelude::*;
use crate::data_types::{Finding, FindingStyle};
use crate::text::{decimal, u64_to_string};

verus! {

/// The finding on scalability: the best throughput was reached with `best_threads`
/// threads, `max_threads` is the most threads any run used, and the machine has
/// `physical_cores` physical cores. Scaling is very poor where the best run left more
/// than two cores unused, poor where it left two, and good otherwise, or where no run
/// used more threads than the best one.
pub open spec fn scalability_verdict(best_threads: u8, max_threads: u8, physical_cores: u8) -> (Seq<char>, Seq<char>, FindingStyle) {
    let used = "Used only "@ + decimal(best_threads as nat) + "/"@ + decimal(physical_cores as nat) + " physical cores"@;
    if best_threads + 2 < physical_cores && max_threads != best_threads {
        ("Very Poor Scalability"@, used, FindingStyle::Bad)
    } else if best_threads + 1 < physical_cores && max_threads != best_threads {
        ("Poor Scalability"@, used, FindingStyle::SoSo)
    } else {
        ("Good Scalability"@, "Best for "@ + decimal(best_threads as nat) + " threads"@, FindingStyle::Good)
    }
}

/// The finding on scalability (see `scalability_verdict`); the thread count leaves room
/// for the two cores added to it.
pub fn scalability_finding(best_threads: u8, max_threads: u8, physical_cores: u8) -> (r: Finding)
    requires
        best_threads + 2 <= u8::MAX,
    ensures
        (r.title@, r.message@, r.style) == scalability_verdict(best_threads, max_threads, physical_cores),
{
    let best = u64_to_string(best_threads as u64);
    let cores = u64_to_string(physical_cores as u64);
    if best_threads + 2 < physical_cores && max_threads != best_threads {
        let m = String::from_str("Used only ").concat(best.as_str()).concat("/").concat(cores.as_str()).concat(" physical cores");
        Finding { title: String::from_str("Very Poor Scalability"), message: m, style: FindingStyle::Bad }
    } else if best_threads + 1 < physical_cores && max_threads != best_threads {
        let m = String::from_str("Used only ").concat(best.as_str()).concat("/").concat(cores.as_str()).concat(" physical cores");
        Finding { title: String::from_str("Poor Scalability"), message: m, style: FindingStyle::SoSo }
    } else {
        let m = String::from_str("Best for ").concat(best.as_str()).concat(" threads");
        Finding { title: String::from_str("Good Scalability"), message: m, style: FindingStyle::Good }
    }
}


/// Law: scaling is judged poor only when the best run left at least two of the machine's
/// physical cores unused and some run used more threads than the best one: where the best
/// run used all cores but at most one, or used the most threads of any run, the verdict is
/// good scalability, best for that many threads. Otherwise it is very poor where more than
/// two cores were left unused and poor where exactly two were, and either says how many of
/// the cores the best run used.
pub proof fn law_scalability_judged_by_unused_cores(best_threads: u8, max_threads: u8, physical_cores: u8)
    ensures
        best_threads + 1 >= physical_cores || max_threads == best_threads ==> scalability_verdict(
            best_threads,
            max_threads,
            physical_cores,
        ) == ("Good Scalability"@, "Best for "@ + decimal(best_threads as nat) + " threads"@, FindingStyle::Good),
        physical_cores - best_threads > 2 && max_threads != best_threads ==> scalability_verdict(
            best_threads,
            max_threads,
            physical_cores,
        ) == ("Very Poor Scalability"@, "Used only "@ + decimal(best_threads as nat) + "/"@ + decimal(physical_cores as nat) + " physical cores"@, FindingStyle::Bad),
        physical_cores - best_threads == 2 && max_threads != best_threads ==> scalability_verdict(
            best_threads,
            max_threads,
            physical_cores,
        ) == ("Poor Scalability"@, "Used only "@ + decimal(best_threads as nat) + "/"@ + decimal(physical_cores as nat) + " physical cores"@, FindingStyle::SoSo),
{
}

} // verus!
