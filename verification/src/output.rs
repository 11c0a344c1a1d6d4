//! The results of a TeeBench run: read from the CSV that TeeBench prints, and stored in
//! and read back from the columns of the result cache.

use vstd::prelude::*;
use crate::text::str_eq;

verus! {

/// The error of a run that printed no CSV record.
pub open spec fn no_output_message() -> Seq<char> {
    "Task produced no CSV output!"@
}

/// The error of a run whose CSV output could not be read.
pub open spec fn csv_error_message() -> Seq<char> {
    "Error processing CSV!"@
}

/// The header row of the CSV text `bytes`, or the text of the error met reading it, as
/// the `csv` crate reads them with its default settings.
pub uninterp spec fn csv_header_row(bytes: Seq<u8>) -> Result<Seq<Seq<char>>, Seq<char>>;

/// The first record after the header row of the CSV text `bytes` (`None` where there is
/// none), or the text of the error met reading it, as the `csv` crate reads them with its
/// default settings.
pub uninterp spec fn csv_first_record(bytes: Seq<u8>) -> Option<Result<Seq<Seq<char>>, Seq<char>>>;

/// The view of a list of fields, or of an error.
pub open spec fn fields_view(r: Result<Vec<String>, String>) -> Result<Seq<Seq<char>>, Seq<char>> {
    match r {
        Ok(f) => Ok(f.deep_view()),
        Err(e) => Err(e@),
    }
}

/// Calls `csv::Reader::from_reader` on `bytes` and `headers` on the reader; each field of
/// the header row becomes a `String`, an error its `Display` text. Claimed: the outcome is
/// a function of the bytes alone, named `csv_header_row`. What it is, is not stated.
#[verifier::external_body]
fn read_csv_header(bytes: &[u8]) -> (r: Result<Vec<String>, String>)
    ensures
        fields_view(r) == csv_header_row(bytes@),
{
    let mut rdr = csv::Reader::from_reader(bytes);
    match rdr.headers() {
        Ok(h) => Ok(h.iter().map(String::from).collect()),
        Err(e) => Err(e.to_string()),
    }
}

/// Calls `csv::Reader::from_reader` on `bytes` and takes the first item of `records`; each
/// field of the record becomes a `String`, an error its `Display` text. Claimed: the
/// outcome is a function of the bytes alone, named `csv_first_record`. What it is, is not
/// stated.
#[verifier::external_body]
fn read_csv_first_record(bytes: &[u8]) -> (r: Option<Result<Vec<String>, String>>)
    ensures
        match r {
            None => csv_first_record(bytes@) is None,
            Some(x) => csv_first_record(bytes@) == Some(fields_view(x)),
        },
{
    let mut rdr = csv::Reader::from_reader(bytes);
    match rdr.records().next() {
        None => None,
        Some(Ok(rec)) => Some(Ok(rec.iter().map(String::from).collect())),
        Some(Err(e)) => Some(Err(e.to_string())),
    }
}

/// Each header with the field below it, as far as both go.
pub open spec fn zip_fields(header: Seq<Seq<char>>, fields: Seq<Seq<char>>) -> Seq<(Seq<char>, Seq<char>)> {
    Seq::new(
        if header.len() < fields.len() { header.len() } else { fields.len() },
        |i: int| (header[i], fields[i]),
    )
}

/// The results of a run from its CSV header row and first record: each header with its
/// field; an error where there is no record, or where either could not be read.
pub open spec fn results_from_csv(
    header: Result<Seq<Seq<char>>, Seq<char>>,
    first: Option<Result<Seq<Seq<char>>, Seq<char>>>,
) -> Result<Seq<(Seq<char>, Seq<char>)>, Seq<char>> {
    match first {
        None => Err(no_output_message()),
        Some(Err(_)) => Err(csv_error_message()),
        Some(Ok(fields)) => match header {
            Err(_) => Err(csv_error_message()),
            Ok(h) => Ok(zip_fields(h, fields)),
        },
    }
}

/// The view of a list of (name, value) pairs.
pub open spec fn pairs_view(v: Seq<(String, String)>) -> Seq<(Seq<char>, Seq<char>)> {
    v.map_values(|p: (String, String)| (p.0@, p.1@))
}

/// The view of a list of pairs, or of an error.
pub open spec fn pairs_result_view(r: Result<Vec<(String, String)>, String>) -> Result<Seq<(Seq<char>, Seq<char>)>, Seq<char>> {
    match r {
        Ok(v) => Ok(pairs_view(v@)),
        Err(e) => Err(e@),
    }
}

/// The results of a run from its CSV header row and first record (see `results_from_csv`).
pub fn results_from_fields(
    header: Result<Vec<String>, String>,
    first: Option<Result<Vec<String>, String>>,
) -> (r: Result<Vec<(String, String)>, String>)
    ensures
        pairs_result_view(r) == results_from_csv(fields_view(header), match first {
            None => None,
            Some(x) => Some(fields_view(x)),
        }),
{
    match first {
        None => Err(String::from_str("Task produced no CSV output!")),
        Some(Err(_)) => Err(String::from_str("Error processing CSV!")),
        Some(Ok(fields)) => match header {
            Err(_) => Err(String::from_str("Error processing CSV!")),
            Ok(h) => {
                let n = if h.len() < fields.len() { h.len() } else { fields.len() };
                let ghost hv = h.deep_view();
                let ghost fv = fields.deep_view();
                let mut r: Vec<(String, String)> = Vec::new();
                let mut i: usize = 0;
                while i < n
                    invariant
                        i <= n,
                        n <= h@.len(),
                        n <= fields@.len(),
                        hv == h.deep_view(),
                        fv == fields.deep_view(),
                        n == (if hv.len() < fv.len() { hv.len() } else { fv.len() }),
                        pairs_view(r@) == zip_fields(hv, fv).subrange(0, i as int),
                    decreases n - i,
                {
                    let ghost before = r@;
                    r.push((h[i].clone(), fields[i].clone()));
                    assert(pairs_view(r@) =~= pairs_view(before).push((hv[i as int], fv[i as int])));
                    assert(zip_fields(hv, fv).subrange(0, i + 1) =~= zip_fields(hv, fv).subrange(0, i as int).push((hv[i as int], fv[i as int])));
                    i = i + 1;
                }
                assert(zip_fields(hv, fv).subrange(0, n as int) =~= zip_fields(hv, fv));
                Ok(r)
            },
        },
    }
}

/// The results of a run from the CSV that TeeBench printed: the names of the header row
/// with the fields of the first record below them.
pub fn parse_output(out: &Vec<u8>) -> (r: Result<Vec<(String, String)>, String>)
    ensures
        pairs_result_view(r) == results_from_csv(csv_header_row(out@), csv_first_record(out@)),
{
    let first = read_csv_first_record(out.as_slice());
    let header = read_csv_header(out.as_slice());
    results_from_fields(header, first)
}

/// The columns of the result cache, in the order they are written and read: the
/// results every run has, then those only some runs report.
pub open spec fn output_columns() -> Seq<Seq<char>> {
    seq![
        "algorithm"@,
        "threads"@,
        "relR"@,
        "relS"@,
        "matches"@,
        "phase1Cycles"@,
        "phase2Cycles"@,
        "cyclesPerTuple"@,
        "phase1Time"@,
        "phase2Time"@,
        "totalTime"@,
        "throughput"@,
        "phase1L3CacheMisses"@,
        "phase1L3HitRatio"@,
        "phase1L2CacheMisses"@,
        "phase1L2HitRatio"@,
        "phase1IPC"@,
        "phase1IR"@,
        "phase1EWB"@,
        "phase1VoluntaryCS"@,
        "phase1InvoluntaryCS"@,
        "phase1UserCpuTime"@,
        "phase1SystemCpuTime"@,
        "phase2L3CacheMisses"@,
        "phase2L3HitRatio"@,
        "phase2L2CacheMisses"@,
        "phase2L2HitRatio"@,
        "phase2IPC"@,
        "phase2IR"@,
        "phase2EWB"@,
        "phase2VoluntaryCS"@,
        "phase2InvoluntaryCS"@,
        "phase2UserCpuTime"@,
        "phase2SystemCpuTime"@,
        "totalL3CacheMisses"@,
        "totalL3HitRatio"@,
        "totalL2CacheMisses"@,
        "totalL2HitRatio"@,
        "totalIPC"@,
        "totalIR"@,
        "totalEWB"@,
        "totalVoluntaryCS"@,
        "totalInvoluntaryCS"@,
        "totalUserCpuTime"@,
        "totalSystemCpuTime"@
    ]
}

/// How many of the columns, from the first, every run has.
pub const REQUIRED_OUTPUT_COLUMNS: usize = 12;

/// How many columns the result cache has.
pub const OUTPUT_COLUMNS: usize = 45;

/// The name of column `i` of the result cache.
pub fn output_column(i: usize) -> (r: &'static str)
    requires
        i < OUTPUT_COLUMNS,
    ensures
        r@ == output_columns()[i as int],
{
    match i {
        0 => "algorithm",
        1 => "threads",
        2 => "relR",
        3 => "relS",
        4 => "matches",
        5 => "phase1Cycles",
        6 => "phase2Cycles",
        7 => "cyclesPerTuple",
        8 => "phase1Time",
        9 => "phase2Time",
        10 => "totalTime",
        11 => "throughput",
        12 => "phase1L3CacheMisses",
        13 => "phase1L3HitRatio",
        14 => "phase1L2CacheMisses",
        15 => "phase1L2HitRatio",
        16 => "phase1IPC",
        17 => "phase1IR",
        18 => "phase1EWB",
        19 => "phase1VoluntaryCS",
        20 => "phase1InvoluntaryCS",
        21 => "phase1UserCpuTime",
        22 => "phase1SystemCpuTime",
        23 => "phase2L3CacheMisses",
        24 => "phase2L3HitRatio",
        25 => "phase2L2CacheMisses",
        26 => "phase2L2HitRatio",
        27 => "phase2IPC",
        28 => "phase2IR",
        29 => "phase2EWB",
        30 => "phase2VoluntaryCS",
        31 => "phase2InvoluntaryCS",
        32 => "phase2UserCpuTime",
        33 => "phase2SystemCpuTime",
        34 => "totalL3CacheMisses",
        35 => "totalL3HitRatio",
        36 => "totalL2CacheMisses",
        37 => "totalL2HitRatio",
        38 => "totalIPC",
        39 => "totalIR",
        40 => "totalEWB",
        41 => "totalVoluntaryCS",
        42 => "totalInvoluntaryCS",
        43 => "totalUserCpuTime",
        44 => "totalSystemCpuTime",
        _ => "totalSystemCpuTime",
    }
}

/// The value of the last pair named `key`.
pub open spec fn lookup(pairs: Seq<(Seq<char>, Seq<char>)>, key: Seq<char>) -> Option<Seq<char>>
    decreases pairs.len(),
{
    if pairs.len() == 0 {
        None
    } else if pairs.last().0 == key {
        Some(pairs.last().1)
    } else {
        lookup(pairs.drop_last(), key)
    }
}

/// The value of the last pair named `key`.
pub fn lookup_value(pairs: &Vec<(String, String)>, key: &str) -> (r: Option<String>)
    ensures
        match r {
            Some(v) => lookup(pairs_view(pairs@), key@) == Some(v@),
            None => lookup(pairs_view(pairs@), key@) is None,
        },
{
    let ghost pv = pairs_view(pairs@);
    let mut i: usize = pairs.len();
    assert(pv.subrange(0, i as int) =~= pv);
    while i > 0
        invariant
            i <= pairs@.len(),
            pv == pairs_view(pairs@),
            lookup(pv, key@) == lookup(pv.subrange(0, i as int), key@),
        decreases i,
    {
        let ghost pre = pv.subrange(0, i as int);
        assert(pre.drop_last() =~= pv.subrange(0, i - 1));
        assert(pre.last() == (pairs@[i - 1].0@, pairs@[i - 1].1@));
        if str_eq(pairs[i - 1].0.as_str(), key) {
            return Some(pairs[i - 1].1.clone());
        }
        i = i - 1;
    }
    None
}

/// The view of a list of optional values.
pub open spec fn values_view(v: Seq<Option<String>>) -> Seq<Option<Seq<char>>> {
    v.map_values(|o: Option<String>| match o {
        Some(s) => Some(s@),
        None => None,
    })
}

/// Whether every column that every run has is among the results.
pub open spec fn has_required_results(results: Seq<(Seq<char>, Seq<char>)>) -> bool {
    forall|i: int| 0 <= i < REQUIRED_OUTPUT_COLUMNS ==> lookup(results, #[trigger] output_columns()[i]) is Some
}

/// The value that each column of the result cache is written with: the result of that
/// name, where the run has one.
pub open spec fn column_values(results: Seq<(Seq<char>, Seq<char>)>) -> Seq<Option<Seq<char>>> {
    Seq::new(OUTPUT_COLUMNS as nat, |i: int| lookup(results, output_columns()[i]))
}

/// The values a run's results are stored with, one per column of the result cache;
/// `None` where a result that every run has is missing.
pub fn output_values(results: &Vec<(String, String)>) -> (r: Option<Vec<Option<String>>>)
    ensures
        r is None <==> !has_required_results(pairs_view(results@)),
        r matches Some(v) ==> values_view(v@) == column_values(pairs_view(results@)),
{
    let ghost rv = pairs_view(results@);
    let mut v: Vec<Option<String>> = Vec::new();
    let mut i: usize = 0;
    while i < OUTPUT_COLUMNS
        invariant
            i <= OUTPUT_COLUMNS,
            rv == pairs_view(results@),
            values_view(v@) == column_values(rv).subrange(0, i as int),
            forall|k: int| 0 <= k < i && k < REQUIRED_OUTPUT_COLUMNS ==> lookup(rv, #[trigger] output_columns()[k]) is Some,
        decreases OUTPUT_COLUMNS - i,
    {
        let x = lookup_value(results, output_column(i));
        if i < REQUIRED_OUTPUT_COLUMNS && x.is_none() {
            return None;
        }
        let ghost before = v@;
        v.push(x);
        assert(values_view(v@) =~= values_view(before).push(column_values(rv)[i as int]));
        assert(column_values(rv).subrange(0, i + 1) =~= column_values(rv).subrange(0, i as int).push(column_values(rv)[i as int]));
        i = i + 1;
    }
    assert(column_values(rv).subrange(0, OUTPUT_COLUMNS as int) =~= column_values(rv));
    Some(v)
}

/// The results that the first `n` columns of a stored row hold: each column with its
/// value, where it has one, in column order.
pub open spec fn row_results(values: Seq<Option<Seq<char>>>, n: int) -> Seq<(Seq<char>, Seq<char>)>
    decreases n,
{
    if n <= 0 {
        Seq::empty()
    } else {
        match values[n - 1] {
            Some(v) => row_results(values, n - 1).push((output_columns()[n - 1], v)),
            None => row_results(values, n - 1),
        }
    }
}

/// The results that a row of the result cache holds: each column with its value, where
/// it has one, in column order.
pub fn results_from_row(values: &Vec<Option<String>>) -> (r: Vec<(String, String)>)
    requires
        values@.len() == OUTPUT_COLUMNS,
    ensures
        pairs_view(r@) == row_results(values_view(values@), OUTPUT_COLUMNS as int),
{
    let ghost vv = values_view(values@);
    let mut r: Vec<(String, String)> = Vec::new();
    let mut i: usize = 0;
    while i < OUTPUT_COLUMNS
        invariant
            i <= OUTPUT_COLUMNS,
            values@.len() == OUTPUT_COLUMNS,
            vv == values_view(values@),
            pairs_view(r@) == row_results(vv, i as int),
        decreases OUTPUT_COLUMNS - i,
    {
        match &values[i] {
            Some(x) => {
                let ghost before = r@;
                let name = output_column(i);
                r.push((String::from_str(name), x.clone()));
                assert(pairs_view(r@) =~= pairs_view(before).push((output_columns()[i as int], x@)));
            },
            None => {},
        }
        i = i + 1;
    }
    r
}

/// The results of a run restricted to the columns of the result cache: each column with
/// the run's result of that name, where it has one, in column order.
pub open spec fn known_results(results: Seq<(Seq<char>, Seq<char>)>, n: int) -> Seq<(Seq<char>, Seq<char>)>
    decreases n,
{
    if n <= 0 {
        Seq::empty()
    } else {
        match lookup(results, output_columns()[n - 1]) {
            Some(v) => known_results(results, n - 1).push((output_columns()[n - 1], v)),
            None => known_results(results, n - 1),
        }
    }
}

/// The first `n` columns of a stored row hold the run's results for those columns.
proof fn lemma_row_results(results: Seq<(Seq<char>, Seq<char>)>, n: int)
    requires
        0 <= n <= OUTPUT_COLUMNS,
    ensures
        row_results(column_values(results), n) == known_results(results, n),
    decreases n,
{
    if n > 0 {
        lemma_row_results(results, n - 1);
    }
}

/// Storing a run's results in the result cache and reading the row back gives the run's
/// results for the columns of the cache, in column order.
pub proof fn law_cache_row_round_trip(results: Seq<(Seq<char>, Seq<char>)>)
    ensures
        row_results(column_values(results), OUTPUT_COLUMNS as int) == known_results(results, OUTPUT_COLUMNS as int),
{
    lemma_row_results(results, OUTPUT_COLUMNS as int);
}

} // verus!
