//! The example commit that the server can start with: a sort-merge join whose
//! performance report already holds the results of its runs.

use vstd::prelude::*;
use std::collections::HashMap;
use crate::commit::{Commit, PerfReportStatus};
use crate::data_types::{
    Algorithm, CompilationStatus, Dataset, ExperimentChart, ExperimentType, JobResult, Operator,
    PerfReportConfig, Platform, Report, TeebenchArgs,
};
use crate::datetime::DateTime;
use crate::profiling::JobConfig;

verus! {

/// The code of the example commit: a sort-merge join that sorts with merge sort.
pub const MERGE_EXAMPLE_CODE: &'static str = r#"#include <JoinCommons.h>
#include "data-types.h"
#ifdef NATIVE_COMPILATION
#include "Logger.h"
#include "native_ocalls.h"
#include <cstring>
#else
#include "Enclave_t.h"
#include "Enclave.h"
#endif

#define JOIN_NAME "SortMergeJoin_MergeSort"

// Quicksort implementation adapted from https://www.geeksforgeeks.org/merge-sort/
// Merges two subarrays of array[].
// First subarray is arr[begin..mid]
// Second subarray is arr[mid+1..end]
void merge(tuple_t * array, uint64_t left, uint64_t mid,
        uint64_t right)
{
    auto const subArrayOne = mid - left + 1;
    auto const subArrayTwo = right - mid;

    // Create temp arrays
    auto *leftArray = new tuple_t[subArrayOne],
            *rightArray = new tuple_t[subArrayTwo];

    // Copy data to temp arrays leftArray[] and rightArray[]
    for (auto i = 0; i < subArrayOne; i++)
        leftArray[i] = array[left + i];
    for (auto j = 0; j < subArrayTwo; j++)
        rightArray[j] = array[mid + 1 + j];

    auto indexOfSubArrayOne
            = 0, // Initial index of first sub-array
    indexOfSubArrayTwo
    = 0; // Initial index of second sub-array
    uint64_t indexOfMergedArray
            = left; // Initial index of merged array

    // Merge the temp arrays back into array[left..right]
    while (indexOfSubArrayOne < subArrayOne
        && indexOfSubArrayTwo < subArrayTwo) {
        if (leftArray[indexOfSubArrayOne].key
            <= rightArray[indexOfSubArrayTwo].key) {
            array[indexOfMergedArray]
                    = leftArray[indexOfSubArrayOne];
            indexOfSubArrayOne++;
        }
        else {
            array[indexOfMergedArray]
                    = rightArray[indexOfSubArrayTwo];
            indexOfSubArrayTwo++;
        }
        indexOfMergedArray++;
    }
    // Copy the remaining elements of
    // left[], if there are any
    while (indexOfSubArrayOne < subArrayOne) {
        array[indexOfMergedArray]
                = leftArray[indexOfSubArrayOne];
        indexOfSubArrayOne++;
        indexOfMergedArray++;
    }
    // Copy the remaining elements of
    // right[], if there are any
    while (indexOfSubArrayTwo < subArrayTwo) {
        array[indexOfMergedArray]
                = rightArray[indexOfSubArrayTwo];
        indexOfSubArrayTwo++;
        indexOfMergedArray++;
    }
    delete[] leftArray;
    delete[] rightArray;
}

// begin is for left index and end is
// right index of the sub-array
// of arr to be sorted */
void mergeSort(tuple_t * rel, uint64_t begin, uint64_t end)
{
    if (begin >= end)
        return; // Returns recursively

    auto mid = begin + (end - begin) / 2;
    mergeSort(rel, begin, mid);
    mergeSort(rel, mid + 1, end);
    merge(rel, begin, mid, end);
}


result_t* OperatorJoin (struct table_t* relR, struct table_t* relS, joinconfig_t * config) {
    uint64_t timerStart, timerStop, cycles, timerSort, timerMerge;

    ocall_get_system_micros(&timerStart);
    ocall_startTimer(&cycles);
    // Sort
    mergeSort(relR->tuples, 0, relR->num_tuples - 1);
    mergeSort(relS->tuples, 0, relS->num_tuples - 1);

    ocall_get_system_micros(&timerStop);
    timerSort = timerStop - timerStart;
    timerStart = timerStop;

    // Merge
    tuple_t *outer = relR->tuples;
    tuple_t *inner = relS->tuples;
    tuple_t *mark;
    uint64_t matches = 0;

    tuple_t *olast = outer + relR->num_tuples;
    tuple_t *ilast = inner + relS->num_tuples;

    while(outer < olast && inner < ilast) {
        while(outer->key != inner->key) {
            if (outer->key < inner->key) {
                outer++;
            } else {
                inner++;
            }
        }
        mark = inner;
        while(true) {
            while(outer->key == inner->key) {
                matches++;
                inner++;
            }
            outer++;
            if (outer == mark) {
                inner = mark;
            } else {
                break;
            }
        }
    }

    ocall_stopTimer(&cycles);
    ocall_get_system_micros(&timerStop);
    timerMerge = timerStop - timerStart;

    join_result_t jr = {};

    double throughput = (double) (relR->num_tuples + relS->num_tuples) / (double) (timerSort+timerMerge);
    jr.inputTuplesR = relR->num_tuples;
    jr.inputTuplesS = relS->num_tuples;
    jr.totalCycles = cycles;
    jr.phase1Time = timerSort;
    jr.phase2Time = timerMerge;
    jr.totalTime = (timerSort+timerMerge);
    jr.matches = matches;

    logJoin(JOIN_NAME, config, &jr);

    auto joinresult = new result_t;
    joinresult->nthreads = 1;
    joinresult->totalresults = matches;

    return joinresult;
}
"#;

/// When the example commit was uploaded: 25 April 2023, 12:00 at UTC+1.
pub open spec fn example_datetime() -> DateTime {
    DateTime { unix_timestamp: 1682420400, offset_seconds: 3600 }
}

/// The performance report experiments of the example commit, in the order of its charts:
/// throughput on the dataset that fits the cache and on the one that exceeds it, then
/// scalability on both.
pub open spec fn example_configs() -> Seq<PerfReportConfig> {
    seq![
        PerfReportConfig { id: 1, exp_type: ExperimentType::Throughput, dataset: Dataset::CacheFit, baseline: Algorithm::Rho },
        PerfReportConfig { id: 1, exp_type: ExperimentType::Throughput, dataset: Dataset::CacheExceed, baseline: Algorithm::Rho },
        PerfReportConfig { id: 1, exp_type: ExperimentType::Scalability, dataset: Dataset::CacheFit, baseline: Algorithm::Rho },
        PerfReportConfig { id: 1, exp_type: ExperimentType::Scalability, dataset: Dataset::CacheExceed, baseline: Algorithm::Rho },
    ]
}

/// The arguments of a default run of `algorithm` on `app_name` and `dataset`, with
/// `threads` threads.
pub open spec fn sample_args(app_name: Platform, dataset: Dataset, algorithm: Algorithm, threads: u8) -> TeebenchArgs {
    TeebenchArgs {
        app_name,
        dataset,
        algorithm,
        threads,
        selectivity: 100,
        data_skew: 0,
        seal_chunk_size: 0,
        r_tuples: 2097152,
        s_tuples: 2097152,
        r_path: None,
        s_path: None,
        r_size: None,
        s_size: None,
        seal: false,
        sort_r: false,
        sort_s: false,
        csv: true,
    }
}

/// The platform, dataset, algorithm and number of threads of each run of chart `chart` of
/// the example report, in order.
pub open spec fn example_runs(chart: int) -> Seq<(Platform, Dataset, Algorithm, u8)> {
    if chart == 0 {
        seq![
        (Platform::Native, Dataset::CacheFit, Algorithm::Rho, 2u8),
        (Platform::Native, Dataset::CacheFit, Algorithm::Commit(1), 2u8),
        (Platform::Sgx, Dataset::CacheFit, Algorithm::Rho, 2u8),
        (Platform::Sgx, Dataset::CacheFit, Algorithm::Commit(1), 2u8)
        ]
    } else if chart == 1 {
        seq![
        (Platform::Sgx, Dataset::CacheExceed, Algorithm::Rho, 2u8),
        (Platform::Native, Dataset::CacheExceed, Algorithm::Commit(1), 2u8),
        (Platform::Sgx, Dataset::CacheExceed, Algorithm::Commit(1), 2u8),
        (Platform::Native, Dataset::CacheExceed, Algorithm::Rho, 2u8)
        ]
    } else if chart == 2 {
        seq![
        (Platform::Sgx, Dataset::CacheFit, Algorithm::Rho, 2u8),
        (Platform::Sgx, Dataset::CacheFit, Algorithm::Commit(1), 2u8),
        (Platform::Sgx, Dataset::CacheFit, Algorithm::Commit(1), 3u8),
        (Platform::Sgx, Dataset::CacheFit, Algorithm::Rho, 3u8),
        (Platform::Sgx, Dataset::CacheFit, Algorithm::Rho, 4u8),
        (Platform::Sgx, Dataset::CacheFit, Algorithm::Rho, 5u8),
        (Platform::Sgx, Dataset::CacheFit, Algorithm::Commit(1), 7u8),
        (Platform::Sgx, Dataset::CacheFit, Algorithm::Commit(1), 8u8),
        (Platform::Sgx, Dataset::CacheFit, Algorithm::Commit(1), 5u8),
        (Platform::Sgx, Dataset::CacheFit, Algorithm::Commit(1), 1u8),
        (Platform::Sgx, Dataset::CacheFit, Algorithm::Commit(1), 4u8),
        (Platform::Sgx, Dataset::CacheFit, Algorithm::Rho, 7u8),
        (Platform::Sgx, Dataset::CacheFit, Algorithm::Rho, 8u8),
        (Platform::Sgx, Dataset::CacheFit, Algorithm::Rho, 1u8),
        (Platform::Sgx, Dataset::CacheFit, Algorithm::Commit(1), 6u8),
        (Platform::Sgx, Dataset::CacheFit, Algorithm::Rho, 6u8)
        ]
    } else if chart == 3 {
        seq![
        (Platform::Sgx, Dataset::CacheExceed, Algorithm::Rho, 4u8),
        (Platform::Sgx, Dataset::CacheExceed, Algorithm::Rho, 6u8),
        (Platform::Sgx, Dataset::CacheExceed, Algorithm::Commit(1), 2u8),
        (Platform::Sgx, Dataset::CacheExceed, Algorithm::Commit(1), 8u8),
        (Platform::Sgx, Dataset::CacheExceed, Algorithm::Commit(1), 1u8),
        (Platform::Sgx, Dataset::CacheExceed, Algorithm::Commit(1), 4u8),
        (Platform::Sgx, Dataset::CacheExceed, Algorithm::Commit(1), 6u8),
        (Platform::Sgx, Dataset::CacheExceed, Algorithm::Rho, 5u8),
        (Platform::Sgx, Dataset::CacheExceed, Algorithm::Rho, 7u8),
        (Platform::Sgx, Dataset::CacheExceed, Algorithm::Rho, 1u8),
        (Platform::Sgx, Dataset::CacheExceed, Algorithm::Commit(1), 7u8),
        (Platform::Sgx, Dataset::CacheExceed, Algorithm::Commit(1), 3u8),
        (Platform::Sgx, Dataset::CacheExceed, Algorithm::Rho, 8u8),
        (Platform::Sgx, Dataset::CacheExceed, Algorithm::Rho, 2u8),
        (Platform::Sgx, Dataset::CacheExceed, Algorithm::Commit(1), 5u8),
        (Platform::Sgx, Dataset::CacheExceed, Algorithm::Rho, 3u8)
        ]
    } else {
        seq![]
    }
}

/// The arguments of a default run of `algorithm` on `app_name` and `dataset`, with `threads` threads.
fn sample_run(app_name: Platform, dataset: Dataset, algorithm: Algorithm, threads: u8) -> (r: TeebenchArgs)
    ensures
        r == sample_args(app_name, dataset, algorithm, threads),
{
    let mut a = TeebenchArgs::for_throughput(algorithm, app_name, dataset);
    a.threads = threads;
    a
}

/// Whether one of the keys of `m` has the text `name`.
pub open spec fn has_name(m: Map<String, String>, name: Seq<char>) -> bool {
    exists|k: String| #[trigger] m.contains_key(k) && k@ == name
}

/// Whether key `k` of `m` holds the value of one of the first `n` pairs whose name is
/// the text of `k`.
pub open spec fn holds_pair_value(m: Map<String, String>, k: String, pairs: Seq<(&str, &str)>, n: int) -> bool {
    exists|j: int| 0 <= j < n && k@ == (#[trigger] pairs[j]).0@ && m[k]@ == pairs[j].1@
}

/// Whether `m` holds the first `n` pairs: each of their names is a key, and each key holds
/// the value of one of them with that name.
pub open spec fn holds_pairs(m: Map<String, String>, pairs: Seq<(&str, &str)>, n: int) -> bool {
    &&& forall|j: int| 0 <= j < n ==> has_name(m, (#[trigger] pairs[j]).0@)
    &&& forall|k: String| #[trigger] m.contains_key(k) ==> holds_pair_value(m, k, pairs, n)
}

/// The results of a run, from its names and values: every name is a key, and every key
/// holds the value of a pair of that name. This is stated for
/// `String` keys as far as `HashMap`'s model of keys applies to them.
fn sample_results(pairs: Vec<(&'static str, &'static str)>) -> (m: HashMap<String, String>)
    ensures
        vstd::std_specs::hash::obeys_key_model::<String>() ==> holds_pairs(m@, pairs@, pairs@.len() as int),
{
    let mut m: HashMap<String, String> = HashMap::new();
    let mut i: usize = 0;
    while i < pairs.len()
        invariant
            i <= pairs.len(),
            vstd::std_specs::hash::obeys_key_model::<String>() ==> holds_pairs(m@, pairs@, i as int),
        decreases pairs.len() - i,
    {
        let (k, v) = pairs[i];
        let key = String::from_str(k);
        let value = String::from_str(v);
        let ghost before = m@;
        let ghost key_g = key;
        let ghost value_g = value;
        m.insert(key, value);
        proof {
            if vstd::std_specs::hash::obeys_key_model::<String>() {
                assert(m@ == before.insert(key_g, value_g));
                assert forall|j: int| 0 <= j < i + 1 implies has_name(m@, (#[trigger] pairs@[j]).0@) by {
                    if j == i {
                        assert(m@.contains_key(key_g));
                    } else {
                        assert(has_name(before, pairs@[j].0@));
                        let kk = choose|kk: String| #[trigger] before.contains_key(kk) && kk@ == pairs@[j].0@;
                        assert(m@.contains_key(kk));
                    }
                }
                assert forall|kk: String| #[trigger] m@.contains_key(kk) implies holds_pair_value(m@, kk, pairs@, i + 1) by {
                    if kk == key_g {
                        assert(pairs@[i as int].0@ == kk@);
                    } else {
                        assert(before.contains_key(kk));
                        assert(holds_pair_value(before, kk, pairs@, i as int));
                        let j = choose|j: int| 0 <= j < i && kk@ == (#[trigger] pairs@[j]).0@ && before[kk]@ == pairs@[j].1@;
                        assert(m@[kk] == before[kk]);
                        assert(pairs@[j].0@ == kk@);
                    }
                }
            }
        }
        i = i + 1;
    }
    m
}


/// The names and values of the results of run `run` of chart 0 of the example report.
pub open spec fn example_results_0(run: int) -> Seq<(&'static str, &'static str)> {
    if run == 0 {
        seq![("algorithm", "RHO"), ("cyclesPerTuple", "16"), ("phase2Cycles", "28499098"), ("totalTime", "31908"), ("relR", "1310720"), ("relS", "5242880"), ("phase1Time", "0"), ("throughput", "205.3905"), ("threads", "2"), ("phase1Cycles", "80242162"), ("phase2Time", "0"), ("matches", "5242880")]
    } else if run == 1 {
        seq![("algorithm", "SortMergeJoin_QuickSort"), ("phase2Cycles", "0"), ("threads", "2"), ("phase2Time", "5668"), ("totalTime", "430608"), ("throughput", "15.2194"), ("matches", "5242880"), ("phase1Time", "424940"), ("relR", "1310720"), ("relS", "5242880"), ("phase1Cycles", "0"), ("cyclesPerTuple", "223")]
    } else if run == 2 {
        seq![("algorithm", "RHO"), ("throughput", "38.0344"), ("relS", "5242880"), ("matches", "5242880"), ("cyclesPerTuple", "89"), ("totalTime", "172307"), ("phase1Cycles", "555768398"), ("phase2Time", "0"), ("phase2Cycles", "31417312"), ("relR", "1310720"), ("threads", "2"), ("phase1Time", "0")]
    } else if run == 3 {
        seq![("throughput", "14.9952"), ("phase1Cycles", "0"), ("phase2Time", "5583"), ("phase2Cycles", "0"), ("threads", "2"), ("matches", "5242880"), ("relR", "1310720"), ("cyclesPerTuple", "227"), ("phase1Time", "431463"), ("algorithm", "SortMergeJoin_QuickSort"), ("totalTime", "437046"), ("relS", "5242880")]
    } else {
        seq![]
    }
}

/// The names and values of the results of run `run` of chart 1 of the example report.
pub open spec fn example_results_1(run: int) -> Seq<(&'static str, &'static str)> {
    if run == 0 {
        seq![("totalTime", "2468680"), ("threads", "2"), ("matches", "52428800"), ("throughput", "26.5470"), ("relR", "13107200"), ("phase2Time", "0"), ("phase2Cycles", "187156882"), ("cyclesPerTuple", "128"), ("algorithm", "RHO"), ("phase1Cycles", "8226046256"), ("phase1Time", "0"), ("relS", "52428800")]
    } else if run == 1 {
        seq![("phase1Cycles", "0"), ("algorithm", "SortMergeJoin_QuickSort"), ("phase2Cycles", "0"), ("phase1Time", "4957181"), ("totalTime", "5012861"), ("throughput", "13.0736"), ("threads", "2"), ("relR", "13107200"), ("relS", "52428800"), ("matches", "52428800"), ("phase2Time", "55680"), ("cyclesPerTuple", "260")]
    } else if run == 2 {
        seq![("throughput", "12.9637"), ("cyclesPerTuple", "262"), ("relS", "52428800"), ("phase2Cycles", "0"), ("phase2Time", "55460"), ("matches", "52428800"), ("totalTime", "5055358"), ("phase1Cycles", "0"), ("algorithm", "SortMergeJoin_QuickSort"), ("relR", "13107200"), ("phase1Time", "4999898"), ("threads", "2")]
    } else if run == 3 {
        seq![("cyclesPerTuple", "14"), ("phase2Time", "0"), ("relR", "13107200"), ("phase2Cycles", "187798056"), ("relS", "52428800"), ("matches", "52428800"), ("phase1Time", "0"), ("phase1Cycles", "749569428"), ("totalTime", "275050"), ("throughput", "238.2694"), ("threads", "2"), ("algorithm", "RHO")]
    } else {
        seq![]
    }
}

/// The names and values of the results of run `run` of chart 2 of the example report.
pub open spec fn example_results_2(run: int) -> Seq<(&'static str, &'static str)> {
    if run == 0 {
        seq![("throughput", "39.6187"), ("phase2Time", "0"), ("cyclesPerTuple", "86"), ("relS", "5242880"), ("totalTime", "165417"), ("phase1Cycles", "530011722"), ("threads", "2"), ("algorithm", "RHO"), ("relR", "1310720"), ("phase1Time", "0"), ("matches", "5242880"), ("phase2Cycles", "33695012")]
    } else if run == 1 {
        seq![("algorithm", "SortMergeJoin_QuickSort"), ("threads", "2"), ("throughput", "14.9850"), ("relR", "1310720"), ("matches", "5242880"), ("totalTime", "437344"), ("phase1Time", "431840"), ("phase2Time", "5504"), ("relS", "5242880"), ("phase2Cycles", "0"), ("cyclesPerTuple", "227"), ("phase1Cycles", "0")]
    } else if run == 2 {
        seq![("phase2Cycles", "0"), ("cyclesPerTuple", "227"), ("phase1Time", "431258"), ("totalTime", "436717"), ("phase1Cycles", "0"), ("threads", "3"), ("phase2Time", "5459"), ("relR", "1310720"), ("algorithm", "SortMergeJoin_QuickSort"), ("relS", "5242880"), ("throughput", "15.0065"), ("matches", "5242880")]
    } else if run == 3 {
        seq![("algorithm", "RHO"), ("relR", "1310720"), ("totalTime", "225796"), ("phase1Cycles", "487045936"), ("matches", "5242880"), ("phase2Cycles", "282430982"), ("cyclesPerTuple", "117"), ("throughput", "29.0244"), ("phase1Time", "0"), ("threads", "3"), ("relS", "5242880"), ("phase2Time", "0")]
    } else if run == 4 {
        seq![("relS", "5242880"), ("phase2Time", "0"), ("phase2Cycles", "285763134"), ("algorithm", "RHO"), ("phase1Cycles", "652819238"), ("threads", "4"), ("relR", "1310720"), ("cyclesPerTuple", "143"), ("phase1Time", "0"), ("totalTime", "275417"), ("throughput", "23.7952"), ("matches", "5242880")]
    } else if run == 5 {
        seq![("relS", "5242880"), ("phase1Cycles", "784086642"), ("cyclesPerTuple", "164"), ("relR", "1310720"), ("phase1Time", "0"), ("totalTime", "315886"), ("algorithm", "RHO"), ("phase2Time", "0"), ("throughput", "20.7467"), ("threads", "5"), ("matches", "5242880"), ("phase2Cycles", "292418104")]
    } else if run == 6 {
        seq![("phase2Time", "5495"), ("algorithm", "SortMergeJoin_QuickSort"), ("relS", "5242880"), ("phase2Cycles", "0"), ("totalTime", "435847"), ("phase1Time", "430352"), ("throughput", "15.0365"), ("threads", "7"), ("phase1Cycles", "0"), ("matches", "5242880"), ("relR", "1310720"), ("cyclesPerTuple", "226")]
    } else if run == 7 {
        seq![("relS", "5242880"), ("cyclesPerTuple", "227"), ("algorithm", "SortMergeJoin_QuickSort"), ("matches", "5242880"), ("phase2Cycles", "0"), ("threads", "8"), ("relR", "1310720"), ("phase1Cycles", "0"), ("phase1Time", "431362"), ("phase2Time", "5497"), ("totalTime", "436859"), ("throughput", "15.0016")]
    } else if run == 8 {
        seq![("relR", "1310720"), ("throughput", "14.9472"), ("relS", "5242880"), ("matches", "5242880"), ("algorithm", "SortMergeJoin_QuickSort"), ("threads", "5"), ("phase1Time", "433048"), ("cyclesPerTuple", "227"), ("phase1Cycles", "0"), ("phase2Time", "5402"), ("phase2Cycles", "0"), ("totalTime", "438450")]
    } else if run == 9 {
        seq![("cyclesPerTuple", "226"), ("phase2Time", "5462"), ("totalTime", "435478"), ("relR", "1310720"), ("relS", "5242880"), ("threads", "1"), ("phase2Cycles", "0"), ("matches", "5242880"), ("algorithm", "SortMergeJoin_QuickSort"), ("phase1Time", "430016"), ("throughput", "15.0492"), ("phase1Cycles", "0")]
    } else if run == 10 {
        seq![("cyclesPerTuple", "226"), ("algorithm", "SortMergeJoin_QuickSort"), ("phase1Time", "430985"), ("phase2Time", "5406"), ("totalTime", "436391"), ("throughput", "15.0177"), ("matches", "5242880"), ("phase2Cycles", "0"), ("phase1Cycles", "0"), ("relR", "1310720"), ("relS", "5242880"), ("threads", "4")]
    } else if run == 11 {
        seq![("cyclesPerTuple", "217"), ("matches", "5242880"), ("relR", "1310720"), ("algorithm", "RHO"), ("phase1Time", "0"), ("phase2Time", "0"), ("phase2Cycles", "381193574"), ("totalTime", "417966"), ("throughput", "15.6797"), ("threads", "7"), ("relS", "5242880"), ("phase1Cycles", "1043157714")]
    } else if run == 12 {
        seq![("phase1Time", "0"), ("cyclesPerTuple", "989"), ("relS", "5242880"), ("matches", "5242880"), ("phase2Time", "0"), ("algorithm", "RHO"), ("throughput", "3.4450"), ("relR", "1310720"), ("threads", "8"), ("totalTime", "1902337"), ("phase2Cycles", "3419103076"), ("phase1Cycles", "3063948414")]
    } else if run == 13 {
        seq![("relR", "1310720"), ("phase2Cycles", "43284636"), ("phase1Time", "0"), ("phase1Cycles", "762161740"), ("totalTime", "236350"), ("cyclesPerTuple", "122"), ("relS", "5242880"), ("threads", "1"), ("algorithm", "RHO"), ("phase2Time", "0"), ("throughput", "27.7284"), ("matches", "5242880")]
    } else if run == 14 {
        seq![("throughput", "14.9652"), ("phase2Time", "5456"), ("phase1Cycles", "0"), ("algorithm", "SortMergeJoin_QuickSort"), ("cyclesPerTuple", "227"), ("phase1Time", "432467"), ("relS", "5242880"), ("matches", "5242880"), ("relR", "1310720"), ("threads", "6"), ("phase2Cycles", "0"), ("totalTime", "437923")]
    } else if run == 15 {
        seq![("totalTime", "322788"), ("relS", "5242880"), ("cyclesPerTuple", "167"), ("throughput", "20.3031"), ("phase1Time", "0"), ("phase2Time", "0"), ("phase2Cycles", "298642494"), ("phase1Cycles", "801364368"), ("algorithm", "RHO"), ("matches", "5242880"), ("relR", "1310720"), ("threads", "6")]
    } else {
        seq![]
    }
}

/// The names and values of the results of run `run` of chart 3 of the example report.
pub open spec fn example_results_3(run: int) -> Seq<(&'static str, &'static str)> {
    if run == 0 {
        seq![("algorithm", "RHO"), ("throughput", "26.0781"), ("phase1Cycles", "8286369108"), ("matches", "52428800"), ("threads", "4"), ("phase2Cycles", "278079694"), ("cyclesPerTuple", "130"), ("phase2Time", "0"), ("relS", "52428800"), ("totalTime", "2513062"), ("relR", "13107200"), ("phase1Time", "0")]
    } else if run == 1 {
        seq![("phase2Cycles", "348332420"), ("relS", "52428800"), ("relR", "13107200"), ("phase2Time", "0"), ("phase1Cycles", "9178323368"), ("cyclesPerTuple", "145"), ("matches", "52428800"), ("algorithm", "RHO"), ("threads", "6"), ("phase1Time", "0"), ("totalTime", "2795399"), ("throughput", "23.4442")]
    } else if run == 2 {
        seq![("phase1Time", "5008557"), ("phase2Time", "55516"), ("matches", "52428800"), ("phase2Cycles", "0"), ("relS", "52428800"), ("algorithm", "SortMergeJoin_QuickSort"), ("phase1Cycles", "0"), ("cyclesPerTuple", "263"), ("threads", "2"), ("relR", "13107200"), ("totalTime", "5064073"), ("throughput", "12.9414")]
    } else if run == 3 {
        seq![("algorithm", "SortMergeJoin_QuickSort"), ("phase1Time", "5006090"), ("relR", "13107200"), ("phase2Time", "55276"), ("throughput", "12.9483"), ("matches", "52428800"), ("phase2Cycles", "0"), ("relS", "52428800"), ("totalTime", "5061366"), ("threads", "8"), ("cyclesPerTuple", "263"), ("phase1Cycles", "0")]
    } else if run == 4 {
        seq![("threads", "1"), ("matches", "52428800"), ("totalTime", "5121168"), ("throughput", "12.7971"), ("relS", "52428800"), ("algorithm", "SortMergeJoin_QuickSort"), ("relR", "13107200"), ("phase1Time", "5065499"), ("phase2Time", "55669"), ("phase2Cycles", "0"), ("phase1Cycles", "0"), ("cyclesPerTuple", "266")]
    } else if run == 5 {
        seq![("relR", "13107200"), ("phase2Time", "55399"), ("throughput", "12.9485"), ("relS", "52428800"), ("matches", "52428800"), ("cyclesPerTuple", "263"), ("phase1Time", "5005885"), ("totalTime", "5061284"), ("algorithm", "SortMergeJoin_QuickSort"), ("threads", "4"), ("phase2Cycles", "0"), ("phase1Cycles", "0")]
    } else if run == 6 {
        seq![("relS", "52428800"), ("phase2Cycles", "0"), ("matches", "52428800"), ("cyclesPerTuple", "262"), ("phase1Time", "5002025"), ("phase1Cycles", "0"), ("threads", "6"), ("algorithm", "SortMergeJoin_QuickSort"), ("phase2Time", "55275"), ("relR", "13107200"), ("totalTime", "5057300"), ("throughput", "12.9587")]
    } else if run == 7 {
        seq![("relS", "52428800"), ("threads", "5"), ("totalTime", "2667828"), ("throughput", "24.5653"), ("phase1Cycles", "8766491270"), ("relR", "13107200"), ("phase2Cycles", "325404832"), ("phase1Time", "0"), ("phase2Time", "0"), ("algorithm", "RHO"), ("matches", "52428800"), ("cyclesPerTuple", "138")]
    } else if run == 8 {
        seq![("relS", "52428800"), ("algorithm", "RHO"), ("matches", "52428800"), ("phase1Time", "0"), ("phase2Time", "0"), ("phase1Cycles", "9424344144"), ("threads", "7"), ("relR", "13107200"), ("cyclesPerTuple", "190"), ("throughput", "17.8528"), ("totalTime", "3670906"), ("phase2Cycles", "3085984936")]
    } else if run == 9 {
        seq![("relS", "52428800"), ("totalTime", "3416459"), ("algorithm", "RHO"), ("relR", "13107200"), ("matches", "52428800"), ("phase2Cycles", "346621958"), ("phase2Time", "0"), ("phase1Cycles", "11296600124"), ("threads", "1"), ("cyclesPerTuple", "177"), ("phase1Time", "0"), ("throughput", "19.1824")]
    } else if run == 10 {
        seq![("phase2Time", "55665"), ("phase1Time", "4998130"), ("cyclesPerTuple", "262"), ("matches", "52428800"), ("relR", "13107200"), ("phase2Cycles", "0"), ("relS", "52428800"), ("threads", "7"), ("totalTime", "5053795"), ("throughput", "12.9677"), ("algorithm", "SortMergeJoin_QuickSort"), ("phase1Cycles", "0")]
    } else if run == 11 {
        seq![("matches", "52428800"), ("threads", "3"), ("relR", "13107200"), ("cyclesPerTuple", "263"), ("algorithm", "SortMergeJoin_QuickSort"), ("phase1Cycles", "0"), ("phase2Cycles", "0"), ("relS", "52428800"), ("phase1Time", "5016109"), ("phase2Time", "56036"), ("totalTime", "5072145"), ("throughput", "12.9208")]
    } else if run == 12 {
        seq![("throughput", "17.9746"), ("matches", "52428800"), ("phase1Time", "0"), ("algorithm", "RHO"), ("relS", "52428800"), ("threads", "8"), ("cyclesPerTuple", "189"), ("totalTime", "3646033"), ("phase1Cycles", "9661897054"), ("phase2Time", "0"), ("phase2Cycles", "2763660838"), ("relR", "13107200")]
    } else if run == 13 {
        seq![("threads", "2"), ("phase2Cycles", "187494972"), ("phase1Time", "0"), ("relR", "13107200"), ("totalTime", "2442270"), ("matches", "52428800"), ("algorithm", "RHO"), ("throughput", "26.8341"), ("phase2Time", "0"), ("relS", "52428800"), ("cyclesPerTuple", "127"), ("phase1Cycles", "8135700342")]
    } else if run == 14 {
        seq![("relS", "52428800"), ("phase1Time", "4996703"), ("phase2Cycles", "0"), ("algorithm", "SortMergeJoin_QuickSort"), ("relR", "13107200"), ("phase1Cycles", "0"), ("cyclesPerTuple", "262"), ("matches", "52428800"), ("totalTime", "5051978"), ("phase2Time", "55275"), ("throughput", "12.9723"), ("threads", "5")]
    } else if run == 15 {
        seq![("cyclesPerTuple", "122"), ("throughput", "27.7553"), ("phase1Time", "0"), ("totalTime", "2361206"), ("relS", "52428800"), ("relR", "13107200"), ("phase1Cycles", "7906488236"), ("algorithm", "RHO"), ("threads", "3"), ("matches", "52428800"), ("phase2Time", "0"), ("phase2Cycles", "140443000")]
    } else {
        seq![]
    }
}

/// The names and values of the results of run `run` of chart `chart` of the example report.
pub open spec fn example_results(chart: int, run: int) -> Seq<(&'static str, &'static str)> {
    if chart == 0 {
        example_results_0(run)
    } else if chart == 1 {
        example_results_1(run)
    } else if chart == 2 {
        example_results_2(run)
    } else {
        example_results_3(run)
    }
}

/// Whether `r` is run `i` of chart `k` of the example report: the arguments of that run
/// and, as far as `HashMap`'s model of `String` keys applies, its measured results.
pub open spec fn is_example_run(r: (TeebenchArgs, HashMap<String, String>), k: int, i: int) -> bool {
    &&& r.0 == ({
        let (p, ds, a, t) = example_runs(k)[i];
        sample_args(p, ds, a, t)
    })
    &&& vstd::std_specs::hash::obeys_key_model::<String>() ==> holds_pairs(
        r.1@,
        example_results(k, i),
        example_results(k, i).len() as int,
    )
}

/// Whether `chart` is chart `k` of the example report: its experiment, no findings, and
/// one result for each of its runs, in order, with the arguments and the measured
/// results of that run.
pub open spec fn is_example_chart(chart: ExperimentChart, k: int) -> bool {
    &&& chart.config == JobConfig::PerfReport(example_configs()[k])
    &&& chart.findings@.len() == 0
    &&& chart.results@.len() == example_runs(k).len()
    &&& forall|i: int| 0 <= i < chart.results@.len() ==> is_example_run(#[trigger] chart.results@[i], k, i)
}

/// The runs of chart 0 of the example report, with their results.
fn example_chart_0() -> (r: ExperimentChart)
    ensures
        is_example_chart(r, 0),
{
    let mut results: Vec<(TeebenchArgs, HashMap<String, String>)> = Vec::new();
    let ghost before = results@;
    let run = sample_run(Platform::Native, Dataset::CacheFit, Algorithm::Rho, 2);
    let measured = sample_results(vec![("algorithm", "RHO"), ("cyclesPerTuple", "16"), ("phase2Cycles", "28499098"), ("totalTime", "31908"), ("relR", "1310720"), ("relS", "5242880"), ("phase1Time", "0"), ("throughput", "205.3905"), ("threads", "2"), ("phase1Cycles", "80242162"), ("phase2Time", "0"), ("matches", "5242880")]);
    results.push((run, measured));
    proof {
        assert forall|j: int| 0 <= j < results@.len() implies is_example_run(#[trigger] results@[j], 0, j) by {
            if j < 0 {
                assert(results@[j] == before[j]);
            }
        }
    }
    let ghost before = results@;
    let run = sample_run(Platform::Native, Dataset::CacheFit, Algorithm::Commit(1), 2);
    let measured = sample_results(vec![("algorithm", "SortMergeJoin_QuickSort"), ("phase2Cycles", "0"), ("threads", "2"), ("phase2Time", "5668"), ("totalTime", "430608"), ("throughput", "15.2194"), ("matches", "5242880"), ("phase1Time", "424940"), ("relR", "1310720"), ("relS", "5242880"), ("phase1Cycles", "0"), ("cyclesPerTuple", "223")]);
    results.push((run, measured));
    proof {
        assert forall|j: int| 0 <= j < results@.len() implies is_example_run(#[trigger] results@[j], 0, j) by {
            if j < 1 {
                assert(results@[j] == before[j]);
            }
        }
    }
    let ghost before = results@;
    let run = sample_run(Platform::Sgx, Dataset::CacheFit, Algorithm::Rho, 2);
    let measured = sample_results(vec![("algorithm", "RHO"), ("throughput", "38.0344"), ("relS", "5242880"), ("matches", "5242880"), ("cyclesPerTuple", "89"), ("totalTime", "172307"), ("phase1Cycles", "555768398"), ("phase2Time", "0"), ("phase2Cycles", "31417312"), ("relR", "1310720"), ("threads", "2"), ("phase1Time", "0")]);
    results.push((run, measured));
    proof {
        assert forall|j: int| 0 <= j < results@.len() implies is_example_run(#[trigger] results@[j], 0, j) by {
            if j < 2 {
                assert(results@[j] == before[j]);
            }
        }
    }
    let ghost before = results@;
    let run = sample_run(Platform::Sgx, Dataset::CacheFit, Algorithm::Commit(1), 2);
    let measured = sample_results(vec![("throughput", "14.9952"), ("phase1Cycles", "0"), ("phase2Time", "5583"), ("phase2Cycles", "0"), ("threads", "2"), ("matches", "5242880"), ("relR", "1310720"), ("cyclesPerTuple", "227"), ("phase1Time", "431463"), ("algorithm", "SortMergeJoin_QuickSort"), ("totalTime", "437046"), ("relS", "5242880")]);
    results.push((run, measured));
    proof {
        assert forall|j: int| 0 <= j < results@.len() implies is_example_run(#[trigger] results@[j], 0, j) by {
            if j < 3 {
                assert(results@[j] == before[j]);
            }
        }
    }
    let config = PerfReportConfig { id: 1, exp_type: ExperimentType::Throughput, dataset: Dataset::CacheFit, baseline: Algorithm::Rho };
    ExperimentChart::new(JobConfig::PerfReport(config), results, Vec::new())
}

/// The runs of chart 1 of the example report, with their results.
fn example_chart_1() -> (r: ExperimentChart)
    ensures
        is_example_chart(r, 1),
{
    let mut results: Vec<(TeebenchArgs, HashMap<String, String>)> = Vec::new();
    let ghost before = results@;
    let run = sample_run(Platform::Sgx, Dataset::CacheExceed, Algorithm::Rho, 2);
    let measured = sample_results(vec![("totalTime", "2468680"), ("threads", "2"), ("matches", "52428800"), ("throughput", "26.5470"), ("relR", "13107200"), ("phase2Time", "0"), ("phase2Cycles", "187156882"), ("cyclesPerTuple", "128"), ("algorithm", "RHO"), ("phase1Cycles", "8226046256"), ("phase1Time", "0"), ("relS", "52428800")]);
    results.push((run, measured));
    proof {
        assert forall|j: int| 0 <= j < results@.len() implies is_example_run(#[trigger] results@[j], 1, j) by {
            if j < 0 {
                assert(results@[j] == before[j]);
            }
        }
    }
    let ghost before = results@;
    let run = sample_run(Platform::Native, Dataset::CacheExceed, Algorithm::Commit(1), 2);
    let measured = sample_results(vec![("phase1Cycles", "0"), ("algorithm", "SortMergeJoin_QuickSort"), ("phase2Cycles", "0"), ("phase1Time", "4957181"), ("totalTime", "5012861"), ("throughput", "13.0736"), ("threads", "2"), ("relR", "13107200"), ("relS", "52428800"), ("matches", "52428800"), ("phase2Time", "55680"), ("cyclesPerTuple", "260")]);
    results.push((run, measured));
    proof {
        assert forall|j: int| 0 <= j < results@.len() implies is_example_run(#[trigger] results@[j], 1, j) by {
            if j < 1 {
                assert(results@[j] == before[j]);
            }
        }
    }
    let ghost before = results@;
    let run = sample_run(Platform::Sgx, Dataset::CacheExceed, Algorithm::Commit(1), 2);
    let measured = sample_results(vec![("throughput", "12.9637"), ("cyclesPerTuple", "262"), ("relS", "52428800"), ("phase2Cycles", "0"), ("phase2Time", "55460"), ("matches", "52428800"), ("totalTime", "5055358"), ("phase1Cycles", "0"), ("algorithm", "SortMergeJoin_QuickSort"), ("relR", "13107200"), ("phase1Time", "4999898"), ("threads", "2")]);
    results.push((run, measured));
    proof {
        assert forall|j: int| 0 <= j < results@.len() implies is_example_run(#[trigger] results@[j], 1, j) by {
            if j < 2 {
                assert(results@[j] == before[j]);
            }
        }
    }
    let ghost before = results@;
    let run = sample_run(Platform::Native, Dataset::CacheExceed, Algorithm::Rho, 2);
    let measured = sample_results(vec![("cyclesPerTuple", "14"), ("phase2Time", "0"), ("relR", "13107200"), ("phase2Cycles", "187798056"), ("relS", "52428800"), ("matches", "52428800"), ("phase1Time", "0"), ("phase1Cycles", "749569428"), ("totalTime", "275050"), ("throughput", "238.2694"), ("threads", "2"), ("algorithm", "RHO")]);
    results.push((run, measured));
    proof {
        assert forall|j: int| 0 <= j < results@.len() implies is_example_run(#[trigger] results@[j], 1, j) by {
            if j < 3 {
                assert(results@[j] == before[j]);
            }
        }
    }
    let config = PerfReportConfig { id: 1, exp_type: ExperimentType::Throughput, dataset: Dataset::CacheExceed, baseline: Algorithm::Rho };
    ExperimentChart::new(JobConfig::PerfReport(config), results, Vec::new())
}

/// The runs of chart 2 of the example report, with their results.
fn example_chart_2() -> (r: ExperimentChart)
    ensures
        is_example_chart(r, 2),
{
    let mut results: Vec<(TeebenchArgs, HashMap<String, String>)> = Vec::new();
    let ghost before = results@;
    let run = sample_run(Platform::Sgx, Dataset::CacheFit, Algorithm::Rho, 2);
    let measured = sample_results(vec![("throughput", "39.6187"), ("phase2Time", "0"), ("cyclesPerTuple", "86"), ("relS", "5242880"), ("totalTime", "165417"), ("phase1Cycles", "530011722"), ("threads", "2"), ("algorithm", "RHO"), ("relR", "1310720"), ("phase1Time", "0"), ("matches", "5242880"), ("phase2Cycles", "33695012")]);
    results.push((run, measured));
    proof {
        assert forall|j: int| 0 <= j < results@.len() implies is_example_run(#[trigger] results@[j], 2, j) by {
            if j < 0 {
                assert(results@[j] == before[j]);
            }
        }
    }
    let ghost before = results@;
    let run = sample_run(Platform::Sgx, Dataset::CacheFit, Algorithm::Commit(1), 2);
    let measured = sample_results(vec![("algorithm", "SortMergeJoin_QuickSort"), ("threads", "2"), ("throughput", "14.9850"), ("relR", "1310720"), ("matches", "5242880"), ("totalTime", "437344"), ("phase1Time", "431840"), ("phase2Time", "5504"), ("relS", "5242880"), ("phase2Cycles", "0"), ("cyclesPerTuple", "227"), ("phase1Cycles", "0")]);
    results.push((run, measured));
    proof {
        assert forall|j: int| 0 <= j < results@.len() implies is_example_run(#[trigger] results@[j], 2, j) by {
            if j < 1 {
                assert(results@[j] == before[j]);
            }
        }
    }
    let ghost before = results@;
    let run = sample_run(Platform::Sgx, Dataset::CacheFit, Algorithm::Commit(1), 3);
    let measured = sample_results(vec![("phase2Cycles", "0"), ("cyclesPerTuple", "227"), ("phase1Time", "431258"), ("totalTime", "436717"), ("phase1Cycles", "0"), ("threads", "3"), ("phase2Time", "5459"), ("relR", "1310720"), ("algorithm", "SortMergeJoin_QuickSort"), ("relS", "5242880"), ("throughput", "15.0065"), ("matches", "5242880")]);
    results.push((run, measured));
    proof {
        assert forall|j: int| 0 <= j < results@.len() implies is_example_run(#[trigger] results@[j], 2, j) by {
            if j < 2 {
                assert(results@[j] == before[j]);
            }
        }
    }
    let ghost before = results@;
    let run = sample_run(Platform::Sgx, Dataset::CacheFit, Algorithm::Rho, 3);
    let measured = sample_results(vec![("algorithm", "RHO"), ("relR", "1310720"), ("totalTime", "225796"), ("phase1Cycles", "487045936"), ("matches", "5242880"), ("phase2Cycles", "282430982"), ("cyclesPerTuple", "117"), ("throughput", "29.0244"), ("phase1Time", "0"), ("threads", "3"), ("relS", "5242880"), ("phase2Time", "0")]);
    results.push((run, measured));
    proof {
        assert forall|j: int| 0 <= j < results@.len() implies is_example_run(#[trigger] results@[j], 2, j) by {
            if j < 3 {
                assert(results@[j] == before[j]);
            }
        }
    }
    let ghost before = results@;
    let run = sample_run(Platform::Sgx, Dataset::CacheFit, Algorithm::Rho, 4);
    let measured = sample_results(vec![("relS", "5242880"), ("phase2Time", "0"), ("phase2Cycles", "285763134"), ("algorithm", "RHO"), ("phase1Cycles", "652819238"), ("threads", "4"), ("relR", "1310720"), ("cyclesPerTuple", "143"), ("phase1Time", "0"), ("totalTime", "275417"), ("throughput", "23.7952"), ("matches", "5242880")]);
    results.push((run, measured));
    proof {
        assert forall|j: int| 0 <= j < results@.len() implies is_example_run(#[trigger] results@[j], 2, j) by {
            if j < 4 {
                assert(results@[j] == before[j]);
            }
        }
    }
    let ghost before = results@;
    let run = sample_run(Platform::Sgx, Dataset::CacheFit, Algorithm::Rho, 5);
    let measured = sample_results(vec![("relS", "5242880"), ("phase1Cycles", "784086642"), ("cyclesPerTuple", "164"), ("relR", "1310720"), ("phase1Time", "0"), ("totalTime", "315886"), ("algorithm", "RHO"), ("phase2Time", "0"), ("throughput", "20.7467"), ("threads", "5"), ("matches", "5242880"), ("phase2Cycles", "292418104")]);
    results.push((run, measured));
    proof {
        assert forall|j: int| 0 <= j < results@.len() implies is_example_run(#[trigger] results@[j], 2, j) by {
            if j < 5 {
                assert(results@[j] == before[j]);
            }
        }
    }
    let ghost before = results@;
    let run = sample_run(Platform::Sgx, Dataset::CacheFit, Algorithm::Commit(1), 7);
    let measured = sample_results(vec![("phase2Time", "5495"), ("algorithm", "SortMergeJoin_QuickSort"), ("relS", "5242880"), ("phase2Cycles", "0"), ("totalTime", "435847"), ("phase1Time", "430352"), ("throughput", "15.0365"), ("threads", "7"), ("phase1Cycles", "0"), ("matches", "5242880"), ("relR", "1310720"), ("cyclesPerTuple", "226")]);
    results.push((run, measured));
    proof {
        assert forall|j: int| 0 <= j < results@.len() implies is_example_run(#[trigger] results@[j], 2, j) by {
            if j < 6 {
                assert(results@[j] == before[j]);
            }
        }
    }
    let ghost before = results@;
    let run = sample_run(Platform::Sgx, Dataset::CacheFit, Algorithm::Commit(1), 8);
    let measured = sample_results(vec![("relS", "5242880"), ("cyclesPerTuple", "227"), ("algorithm", "SortMergeJoin_QuickSort"), ("matches", "5242880"), ("phase2Cycles", "0"), ("threads", "8"), ("relR", "1310720"), ("phase1Cycles", "0"), ("phase1Time", "431362"), ("phase2Time", "5497"), ("totalTime", "436859"), ("throughput", "15.0016")]);
    results.push((run, measured));
    proof {
        assert forall|j: int| 0 <= j < results@.len() implies is_example_run(#[trigger] results@[j], 2, j) by {
            if j < 7 {
                assert(results@[j] == before[j]);
            }
        }
    }
    let ghost before = results@;
    let run = sample_run(Platform::Sgx, Dataset::CacheFit, Algorithm::Commit(1), 5);
    let measured = sample_results(vec![("relR", "1310720"), ("throughput", "14.9472"), ("relS", "5242880"), ("matches", "5242880"), ("algorithm", "SortMergeJoin_QuickSort"), ("threads", "5"), ("phase1Time", "433048"), ("cyclesPerTuple", "227"), ("phase1Cycles", "0"), ("phase2Time", "5402"), ("phase2Cycles", "0"), ("totalTime", "438450")]);
    results.push((run, measured));
    proof {
        assert forall|j: int| 0 <= j < results@.len() implies is_example_run(#[trigger] results@[j], 2, j) by {
            if j < 8 {
                assert(results@[j] == before[j]);
            }
        }
    }
    let ghost before = results@;
    let run = sample_run(Platform::Sgx, Dataset::CacheFit, Algorithm::Commit(1), 1);
    let measured = sample_results(vec![("cyclesPerTuple", "226"), ("phase2Time", "5462"), ("totalTime", "435478"), ("relR", "1310720"), ("relS", "5242880"), ("threads", "1"), ("phase2Cycles", "0"), ("matches", "5242880"), ("algorithm", "SortMergeJoin_QuickSort"), ("phase1Time", "430016"), ("throughput", "15.0492"), ("phase1Cycles", "0")]);
    results.push((run, measured));
    proof {
        assert forall|j: int| 0 <= j < results@.len() implies is_example_run(#[trigger] results@[j], 2, j) by {
            if j < 9 {
                assert(results@[j] == before[j]);
            }
        }
    }
    let ghost before = results@;
    let run = sample_run(Platform::Sgx, Dataset::CacheFit, Algorithm::Commit(1), 4);
    let measured = sample_results(vec![("cyclesPerTuple", "226"), ("algorithm", "SortMergeJoin_QuickSort"), ("phase1Time", "430985"), ("phase2Time", "5406"), ("totalTime", "436391"), ("throughput", "15.0177"), ("matches", "5242880"), ("phase2Cycles", "0"), ("phase1Cycles", "0"), ("relR", "1310720"), ("relS", "5242880"), ("threads", "4")]);
    results.push((run, measured));
    proof {
        assert forall|j: int| 0 <= j < results@.len() implies is_example_run(#[trigger] results@[j], 2, j) by {
            if j < 10 {
                assert(results@[j] == before[j]);
            }
        }
    }
    let ghost before = results@;
    let run = sample_run(Platform::Sgx, Dataset::CacheFit, Algorithm::Rho, 7);
    let measured = sample_results(vec![("cyclesPerTuple", "217"), ("matches", "5242880"), ("relR", "1310720"), ("algorithm", "RHO"), ("phase1Time", "0"), ("phase2Time", "0"), ("phase2Cycles", "381193574"), ("totalTime", "417966"), ("throughput", "15.6797"), ("threads", "7"), ("relS", "5242880"), ("phase1Cycles", "1043157714")]);
    results.push((run, measured));
    proof {
        assert forall|j: int| 0 <= j < results@.len() implies is_example_run(#[trigger] results@[j], 2, j) by {
            if j < 11 {
                assert(results@[j] == before[j]);
            }
        }
    }
    let ghost before = results@;
    let run = sample_run(Platform::Sgx, Dataset::CacheFit, Algorithm::Rho, 8);
    let measured = sample_results(vec![("phase1Time", "0"), ("cyclesPerTuple", "989"), ("relS", "5242880"), ("matches", "5242880"), ("phase2Time", "0"), ("algorithm", "RHO"), ("throughput", "3.4450"), ("relR", "1310720"), ("threads", "8"), ("totalTime", "1902337"), ("phase2Cycles", "3419103076"), ("phase1Cycles", "3063948414")]);
    results.push((run, measured));
    proof {
        assert forall|j: int| 0 <= j < results@.len() implies is_example_run(#[trigger] results@[j], 2, j) by {
            if j < 12 {
                assert(results@[j] == before[j]);
            }
        }
    }
    let ghost before = results@;
    let run = sample_run(Platform::Sgx, Dataset::CacheFit, Algorithm::Rho, 1);
    let measured = sample_results(vec![("relR", "1310720"), ("phase2Cycles", "43284636"), ("phase1Time", "0"), ("phase1Cycles", "762161740"), ("totalTime", "236350"), ("cyclesPerTuple", "122"), ("relS", "5242880"), ("threads", "1"), ("algorithm", "RHO"), ("phase2Time", "0"), ("throughput", "27.7284"), ("matches", "5242880")]);
    results.push((run, measured));
    proof {
        assert forall|j: int| 0 <= j < results@.len() implies is_example_run(#[trigger] results@[j], 2, j) by {
            if j < 13 {
                assert(results@[j] == before[j]);
            }
        }
    }
    let ghost before = results@;
    let run = sample_run(Platform::Sgx, Dataset::CacheFit, Algorithm::Commit(1), 6);
    let measured = sample_results(vec![("throughput", "14.9652"), ("phase2Time", "5456"), ("phase1Cycles", "0"), ("algorithm", "SortMergeJoin_QuickSort"), ("cyclesPerTuple", "227"), ("phase1Time", "432467"), ("relS", "5242880"), ("matches", "5242880"), ("relR", "1310720"), ("threads", "6"), ("phase2Cycles", "0"), ("totalTime", "437923")]);
    results.push((run, measured));
    proof {
        assert forall|j: int| 0 <= j < results@.len() implies is_example_run(#[trigger] results@[j], 2, j) by {
            if j < 14 {
                assert(results@[j] == before[j]);
            }
        }
    }
    let ghost before = results@;
    let run = sample_run(Platform::Sgx, Dataset::CacheFit, Algorithm::Rho, 6);
    let measured = sample_results(vec![("totalTime", "322788"), ("relS", "5242880"), ("cyclesPerTuple", "167"), ("throughput", "20.3031"), ("phase1Time", "0"), ("phase2Time", "0"), ("phase2Cycles", "298642494"), ("phase1Cycles", "801364368"), ("algorithm", "RHO"), ("matches", "5242880"), ("relR", "1310720"), ("threads", "6")]);
    results.push((run, measured));
    proof {
        assert forall|j: int| 0 <= j < results@.len() implies is_example_run(#[trigger] results@[j], 2, j) by {
            if j < 15 {
                assert(results@[j] == before[j]);
            }
        }
    }
    let config = PerfReportConfig { id: 1, exp_type: ExperimentType::Scalability, dataset: Dataset::CacheFit, baseline: Algorithm::Rho };
    ExperimentChart::new(JobConfig::PerfReport(config), results, Vec::new())
}

/// The runs of chart 3 of the example report, with their results.
fn example_chart_3() -> (r: ExperimentChart)
    ensures
        is_example_chart(r, 3),
{
    let mut results: Vec<(TeebenchArgs, HashMap<String, String>)> = Vec::new();
    let ghost before = results@;
    let run = sample_run(Platform::Sgx, Dataset::CacheExceed, Algorithm::Rho, 4);
    let measured = sample_results(vec![("algorithm", "RHO"), ("throughput", "26.0781"), ("phase1Cycles", "8286369108"), ("matches", "52428800"), ("threads", "4"), ("phase2Cycles", "278079694"), ("cyclesPerTuple", "130"), ("phase2Time", "0"), ("relS", "52428800"), ("totalTime", "2513062"), ("relR", "13107200"), ("phase1Time", "0")]);
    results.push((run, measured));
    proof {
        assert forall|j: int| 0 <= j < results@.len() implies is_example_run(#[trigger] results@[j], 3, j) by {
            if j < 0 {
                assert(results@[j] == before[j]);
            }
        }
    }
    let ghost before = results@;
    let run = sample_run(Platform::Sgx, Dataset::CacheExceed, Algorithm::Rho, 6);
    let measured = sample_results(vec![("phase2Cycles", "348332420"), ("relS", "52428800"), ("relR", "13107200"), ("phase2Time", "0"), ("phase1Cycles", "9178323368"), ("cyclesPerTuple", "145"), ("matches", "52428800"), ("algorithm", "RHO"), ("threads", "6"), ("phase1Time", "0"), ("totalTime", "2795399"), ("throughput", "23.4442")]);
    results.push((run, measured));
    proof {
        assert forall|j: int| 0 <= j < results@.len() implies is_example_run(#[trigger] results@[j], 3, j) by {
            if j < 1 {
                assert(results@[j] == before[j]);
            }
        }
    }
    let ghost before = results@;
    let run = sample_run(Platform::Sgx, Dataset::CacheExceed, Algorithm::Commit(1), 2);
    let measured = sample_results(vec![("phase1Time", "5008557"), ("phase2Time", "55516"), ("matches", "52428800"), ("phase2Cycles", "0"), ("relS", "52428800"), ("algorithm", "SortMergeJoin_QuickSort"), ("phase1Cycles", "0"), ("cyclesPerTuple", "263"), ("threads", "2"), ("relR", "13107200"), ("totalTime", "5064073"), ("throughput", "12.9414")]);
    results.push((run, measured));
    proof {
        assert forall|j: int| 0 <= j < results@.len() implies is_example_run(#[trigger] results@[j], 3, j) by {
            if j < 2 {
                assert(results@[j] == before[j]);
            }
        }
    }
    let ghost before = results@;
    let run = sample_run(Platform::Sgx, Dataset::CacheExceed, Algorithm::Commit(1), 8);
    let measured = sample_results(vec![("algorithm", "SortMergeJoin_QuickSort"), ("phase1Time", "5006090"), ("relR", "13107200"), ("phase2Time", "55276"), ("throughput", "12.9483"), ("matches", "52428800"), ("phase2Cycles", "0"), ("relS", "52428800"), ("totalTime", "5061366"), ("threads", "8"), ("cyclesPerTuple", "263"), ("phase1Cycles", "0")]);
    results.push((run, measured));
    proof {
        assert forall|j: int| 0 <= j < results@.len() implies is_example_run(#[trigger] results@[j], 3, j) by {
            if j < 3 {
                assert(results@[j] == before[j]);
            }
        }
    }
    let ghost before = results@;
    let run = sample_run(Platform::Sgx, Dataset::CacheExceed, Algorithm::Commit(1), 1);
    let measured = sample_results(vec![("threads", "1"), ("matches", "52428800"), ("totalTime", "5121168"), ("throughput", "12.7971"), ("relS", "52428800"), ("algorithm", "SortMergeJoin_QuickSort"), ("relR", "13107200"), ("phase1Time", "5065499"), ("phase2Time", "55669"), ("phase2Cycles", "0"), ("phase1Cycles", "0"), ("cyclesPerTuple", "266")]);
    results.push((run, measured));
    proof {
        assert forall|j: int| 0 <= j < results@.len() implies is_example_run(#[trigger] results@[j], 3, j) by {
            if j < 4 {
                assert(results@[j] == before[j]);
            }
        }
    }
    let ghost before = results@;
    let run = sample_run(Platform::Sgx, Dataset::CacheExceed, Algorithm::Commit(1), 4);
    let measured = sample_results(vec![("relR", "13107200"), ("phase2Time", "55399"), ("throughput", "12.9485"), ("relS", "52428800"), ("matches", "52428800"), ("cyclesPerTuple", "263"), ("phase1Time", "5005885"), ("totalTime", "5061284"), ("algorithm", "SortMergeJoin_QuickSort"), ("threads", "4"), ("phase2Cycles", "0"), ("phase1Cycles", "0")]);
    results.push((run, measured));
    proof {
        assert forall|j: int| 0 <= j < results@.len() implies is_example_run(#[trigger] results@[j], 3, j) by {
            if j < 5 {
                assert(results@[j] == before[j]);
            }
        }
    }
    let ghost before = results@;
    let run = sample_run(Platform::Sgx, Dataset::CacheExceed, Algorithm::Commit(1), 6);
    let measured = sample_results(vec![("relS", "52428800"), ("phase2Cycles", "0"), ("matches", "52428800"), ("cyclesPerTuple", "262"), ("phase1Time", "5002025"), ("phase1Cycles", "0"), ("threads", "6"), ("algorithm", "SortMergeJoin_QuickSort"), ("phase2Time", "55275"), ("relR", "13107200"), ("totalTime", "5057300"), ("throughput", "12.9587")]);
    results.push((run, measured));
    proof {
        assert forall|j: int| 0 <= j < results@.len() implies is_example_run(#[trigger] results@[j], 3, j) by {
            if j < 6 {
                assert(results@[j] == before[j]);
            }
        }
    }
    let ghost before = results@;
    let run = sample_run(Platform::Sgx, Dataset::CacheExceed, Algorithm::Rho, 5);
    let measured = sample_results(vec![("relS", "52428800"), ("threads", "5"), ("totalTime", "2667828"), ("throughput", "24.5653"), ("phase1Cycles", "8766491270"), ("relR", "13107200"), ("phase2Cycles", "325404832"), ("phase1Time", "0"), ("phase2Time", "0"), ("algorithm", "RHO"), ("matches", "52428800"), ("cyclesPerTuple", "138")]);
    results.push((run, measured));
    proof {
        assert forall|j: int| 0 <= j < results@.len() implies is_example_run(#[trigger] results@[j], 3, j) by {
            if j < 7 {
                assert(results@[j] == before[j]);
            }
        }
    }
    let ghost before = results@;
    let run = sample_run(Platform::Sgx, Dataset::CacheExceed, Algorithm::Rho, 7);
    let measured = sample_results(vec![("relS", "52428800"), ("algorithm", "RHO"), ("matches", "52428800"), ("phase1Time", "0"), ("phase2Time", "0"), ("phase1Cycles", "9424344144"), ("threads", "7"), ("relR", "13107200"), ("cyclesPerTuple", "190"), ("throughput", "17.8528"), ("totalTime", "3670906"), ("phase2Cycles", "3085984936")]);
    results.push((run, measured));
    proof {
        assert forall|j: int| 0 <= j < results@.len() implies is_example_run(#[trigger] results@[j], 3, j) by {
            if j < 8 {
                assert(results@[j] == before[j]);
            }
        }
    }
    let ghost before = results@;
    let run = sample_run(Platform::Sgx, Dataset::CacheExceed, Algorithm::Rho, 1);
    let measured = sample_results(vec![("relS", "52428800"), ("totalTime", "3416459"), ("algorithm", "RHO"), ("relR", "13107200"), ("matches", "52428800"), ("phase2Cycles", "346621958"), ("phase2Time", "0"), ("phase1Cycles", "11296600124"), ("threads", "1"), ("cyclesPerTuple", "177"), ("phase1Time", "0"), ("throughput", "19.1824")]);
    results.push((run, measured));
    proof {
        assert forall|j: int| 0 <= j < results@.len() implies is_example_run(#[trigger] results@[j], 3, j) by {
            if j < 9 {
                assert(results@[j] == before[j]);
            }
        }
    }
    let ghost before = results@;
    let run = sample_run(Platform::Sgx, Dataset::CacheExceed, Algorithm::Commit(1), 7);
    let measured = sample_results(vec![("phase2Time", "55665"), ("phase1Time", "4998130"), ("cyclesPerTuple", "262"), ("matches", "52428800"), ("relR", "13107200"), ("phase2Cycles", "0"), ("relS", "52428800"), ("threads", "7"), ("totalTime", "5053795"), ("throughput", "12.9677"), ("algorithm", "SortMergeJoin_QuickSort"), ("phase1Cycles", "0")]);
    results.push((run, measured));
    proof {
        assert forall|j: int| 0 <= j < results@.len() implies is_example_run(#[trigger] results@[j], 3, j) by {
            if j < 10 {
                assert(results@[j] == before[j]);
            }
        }
    }
    let ghost before = results@;
    let run = sample_run(Platform::Sgx, Dataset::CacheExceed, Algorithm::Commit(1), 3);
    let measured = sample_results(vec![("matches", "52428800"), ("threads", "3"), ("relR", "13107200"), ("cyclesPerTuple", "263"), ("algorithm", "SortMergeJoin_QuickSort"), ("phase1Cycles", "0"), ("phase2Cycles", "0"), ("relS", "52428800"), ("phase1Time", "5016109"), ("phase2Time", "56036"), ("totalTime", "5072145"), ("throughput", "12.9208")]);
    results.push((run, measured));
    proof {
        assert forall|j: int| 0 <= j < results@.len() implies is_example_run(#[trigger] results@[j], 3, j) by {
            if j < 11 {
                assert(results@[j] == before[j]);
            }
        }
    }
    let ghost before = results@;
    let run = sample_run(Platform::Sgx, Dataset::CacheExceed, Algorithm::Rho, 8);
    let measured = sample_results(vec![("throughput", "17.9746"), ("matches", "52428800"), ("phase1Time", "0"), ("algorithm", "RHO"), ("relS", "52428800"), ("threads", "8"), ("cyclesPerTuple", "189"), ("totalTime", "3646033"), ("phase1Cycles", "9661897054"), ("phase2Time", "0"), ("phase2Cycles", "2763660838"), ("relR", "13107200")]);
    results.push((run, measured));
    proof {
        assert forall|j: int| 0 <= j < results@.len() implies is_example_run(#[trigger] results@[j], 3, j) by {
            if j < 12 {
                assert(results@[j] == before[j]);
            }
        }
    }
    let ghost before = results@;
    let run = sample_run(Platform::Sgx, Dataset::CacheExceed, Algorithm::Rho, 2);
    let measured = sample_results(vec![("threads", "2"), ("phase2Cycles", "187494972"), ("phase1Time", "0"), ("relR", "13107200"), ("totalTime", "2442270"), ("matches", "52428800"), ("algorithm", "RHO"), ("throughput", "26.8341"), ("phase2Time", "0"), ("relS", "52428800"), ("cyclesPerTuple", "127"), ("phase1Cycles", "8135700342")]);
    results.push((run, measured));
    proof {
        assert forall|j: int| 0 <= j < results@.len() implies is_example_run(#[trigger] results@[j], 3, j) by {
            if j < 13 {
                assert(results@[j] == before[j]);
            }
        }
    }
    let ghost before = results@;
    let run = sample_run(Platform::Sgx, Dataset::CacheExceed, Algorithm::Commit(1), 5);
    let measured = sample_results(vec![("relS", "52428800"), ("phase1Time", "4996703"), ("phase2Cycles", "0"), ("algorithm", "SortMergeJoin_QuickSort"), ("relR", "13107200"), ("phase1Cycles", "0"), ("cyclesPerTuple", "262"), ("matches", "52428800"), ("totalTime", "5051978"), ("phase2Time", "55275"), ("throughput", "12.9723"), ("threads", "5")]);
    results.push((run, measured));
    proof {
        assert forall|j: int| 0 <= j < results@.len() implies is_example_run(#[trigger] results@[j], 3, j) by {
            if j < 14 {
                assert(results@[j] == before[j]);
            }
        }
    }
    let ghost before = results@;
    let run = sample_run(Platform::Sgx, Dataset::CacheExceed, Algorithm::Rho, 3);
    let measured = sample_results(vec![("cyclesPerTuple", "122"), ("throughput", "27.7553"), ("phase1Time", "0"), ("totalTime", "2361206"), ("relS", "52428800"), ("relR", "13107200"), ("phase1Cycles", "7906488236"), ("algorithm", "RHO"), ("threads", "3"), ("matches", "52428800"), ("phase2Time", "0"), ("phase2Cycles", "140443000")]);
    results.push((run, measured));
    proof {
        assert forall|j: int| 0 <= j < results@.len() implies is_example_run(#[trigger] results@[j], 3, j) by {
            if j < 15 {
                assert(results@[j] == before[j]);
            }
        }
    }
    let config = PerfReportConfig { id: 1, exp_type: ExperimentType::Scalability, dataset: Dataset::CacheExceed, baseline: Algorithm::Rho };
    ExperimentChart::new(JobConfig::PerfReport(config), results, Vec::new())
}

/// The example commit: `merge_example` version `0.0.1`, a join uploaded on 25 April 2023
/// as commit `1` against the baseline RHO, compiled, with its performance report of four
/// charts and no findings.
pub fn predefined_commit() -> (c: Commit)
    ensures
        c.title@ == "merge_example"@,
        c.version@ == "0.0.1"@,
        c.operator == Operator::Join,
        c.datetime == example_datetime(),
        c.code@ == MERGE_EXAMPLE_CODE@,
        c.id == 1,
        c.baseline == Algorithm::Rho,
        c.compilation matches CompilationStatus::Successful(m) && m@.len() == 0,
        c.perf_report_running == PerfReportStatus::Idle,
        c.report matches Some(JobResult::Exp(Ok(rep))) && rep.findings@.len() == 0 && rep.charts@.len() == 4
            && forall|k: int| 0 <= k < 4 ==> is_example_chart(#[trigger] rep.charts@[k], k),
{
    let mut charts: Vec<ExperimentChart> = Vec::new();
    charts.push(example_chart_0());
    charts.push(example_chart_1());
    charts.push(example_chart_2());
    charts.push(example_chart_3());
    let report = Some(JobResult::Exp(Ok(Report { charts, findings: Vec::new() })));
    let datetime = DateTime { unix_timestamp: 1682420400, offset_seconds: 3600 };
    let mut c = Commit::new(
        String::from_str("merge_example"),
        String::from_str("0.0.1"),
        Operator::Join,
        datetime,
        String::from_str(MERGE_EXAMPLE_CODE),
        report,
        1,
        Algorithm::Rho,
    );
    c.compilation = CompilationStatus::Successful(String::new());
    c
}

} // verus!
