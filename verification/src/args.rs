//! The command line grammar of TeeBench: reading an argument list into `TeebenchArgs`.
//!
//! Options are written `--name value`, `--name=value`, `-x value`, `-xvalue` or `-x=value`;
//! flags are written `--name`. An option's value may not begin with `-`. Each option may be
//! given once; `--` ends the options and may not be followed by anything; `-h`, `--help`,
//! `-V` and `--version` ask for help instead of a run. Options that are not given take
//! TeeBench's defaults, except the algorithm, which has no valid default and must be given.

use vstd::prelude::*;
use crate::data_types::{
    algorithm_from_arg, dataset_from_arg, Algorithm, Dataset, Platform, TeebenchArgs,
};
use crate::text::{parse_unsigned, parse_unsigned_bounded, starts_with_char, str_eq};

verus! {

/// The options and flags of a TeeBench command line.
#[derive(Debug, Clone, Copy, PartialEq, Eq, Structural)]
pub enum ArgOption {
    Dataset,
    Algorithm,
    Threads,
    Selectivity,
    DataSkew,
    SealChunkSize,
    RTuples,
    STuples,
    RPath,
    SPath,
    RSize,
    SSize,
    Seal,
    SortR,
    SortS,
    Csv,
}

/// Why an argument list is not a TeeBench command line.
#[derive(Debug, Clone, Copy, PartialEq, Eq, Structural)]
pub enum ArgsError {
    /// An option name that TeeBench does not know.
    UnknownArgument,
    /// An argument that is neither an option nor an option's value.
    UnexpectedArgument,
    /// An option without its value.
    MissingValue,
    /// A flag given a value.
    UnexpectedValue,
    /// An option given more than once.
    RepeatedArgument,
    /// A value that the option does not accept (or no algorithm at all).
    InvalidValue(ArgOption),
    /// A request for help or for the version.
    HelpOrVersion,
}

/// An option as it occurs on the command line, with its value (empty for a flag).
pub type Occurrence = (ArgOption, Seq<char>);

impl ArgOption {
    /// The option's long name, written after `--`.
    pub open spec fn long(self) -> Seq<char> {
        match self {
            ArgOption::Dataset => "dataset"@,
            ArgOption::Algorithm => "algorithm"@,
            ArgOption::Threads => "threads"@,
            ArgOption::Selectivity => "selectivity"@,
            ArgOption::DataSkew => "data-skew"@,
            ArgOption::SealChunkSize => "seal-chunk-size"@,
            ArgOption::RTuples => "r-tuples"@,
            ArgOption::STuples => "s-tuples"@,
            ArgOption::RPath => "r-path"@,
            ArgOption::SPath => "s-path"@,
            ArgOption::RSize => "r-size"@,
            ArgOption::SSize => "s-size"@,
            ArgOption::Seal => "seal"@,
            ArgOption::SortR => "sort-r"@,
            ArgOption::SortS => "sort-s"@,
            ArgOption::Csv => "csv"@,
        }
    }

    /// Whether the option takes a value (the others are flags).
    pub open spec fn takes_value(self) -> bool {
        match self {
            ArgOption::Seal | ArgOption::SortR | ArgOption::SortS | ArgOption::Csv => false,
            _ => true,
        }
    }
}

/// The option with the long name `name`.
pub open spec fn option_by_long(name: Seq<char>) -> Option<ArgOption> {
    if name == "dataset"@ { Some(ArgOption::Dataset) }
    else if name == "algorithm"@ { Some(ArgOption::Algorithm) }
    else if name == "threads"@ { Some(ArgOption::Threads) }
    else if name == "selectivity"@ { Some(ArgOption::Selectivity) }
    else if name == "data-skew"@ { Some(ArgOption::DataSkew) }
    else if name == "seal-chunk-size"@ { Some(ArgOption::SealChunkSize) }
    else if name == "r-tuples"@ { Some(ArgOption::RTuples) }
    else if name == "s-tuples"@ { Some(ArgOption::STuples) }
    else if name == "r-path"@ { Some(ArgOption::RPath) }
    else if name == "s-path"@ { Some(ArgOption::SPath) }
    else if name == "r-size"@ { Some(ArgOption::RSize) }
    else if name == "s-size"@ { Some(ArgOption::SSize) }
    else if name == "seal"@ { Some(ArgOption::Seal) }
    else if name == "sort-r"@ { Some(ArgOption::SortR) }
    else if name == "sort-s"@ { Some(ArgOption::SortS) }
    else if name == "csv"@ { Some(ArgOption::Csv) }
    else { None }
}

/// The option with the short name `c` (every short option takes a value).
pub open spec fn option_by_short(c: char) -> Option<ArgOption> {
    if c == 'd' { Some(ArgOption::Dataset) }
    else if c == 'a' { Some(ArgOption::Algorithm) }
    else if c == 'n' { Some(ArgOption::Threads) }
    else if c == 'l' { Some(ArgOption::Selectivity) }
    else if c == 'z' { Some(ArgOption::DataSkew) }
    else if c == 'c' { Some(ArgOption::SealChunkSize) }
    else if c == 'r' { Some(ArgOption::RTuples) }
    else if c == 's' { Some(ArgOption::STuples) }
    else if c == 't' { Some(ArgOption::RPath) }
    else if c == 'u' { Some(ArgOption::SPath) }
    else if c == 'x' { Some(ArgOption::RSize) }
    else if c == 'y' { Some(ArgOption::SSize) }
    else { None }
}

/// Position of the first `=` in `s`, or its length where there is none.
pub open spec fn index_of_eq(s: Seq<char>) -> int
    decreases s.len(),
{
    if s.len() == 0 {
        0
    } else if s[0] == '=' {
        0
    } else {
        1 + index_of_eq(s.drop_first())
    }
}

/// Whether `t` begins with `-`.
pub open spec fn dashed(t: Seq<char>) -> bool {
    t.len() > 0 && t[0] == '-'
}

/// Option `o`, taking its value from the argument after position `i`.
pub open spec fn value_from_next(ts: Seq<Seq<char>>, i: int, o: ArgOption) -> Result<Option<(ArgOption, Seq<char>, int)>, ArgsError> {
    if i + 1 < ts.len() && !dashed(ts[i + 1]) {
        Ok(Some((o, ts[i + 1], i + 2)))
    } else {
        Err(ArgsError::MissingValue)
    }
}

/// What argument `i` of `ts` contributes: an option with its value and the position of
/// the next argument, the end of the options, or an error.
pub open spec fn read_token(ts: Seq<Seq<char>>, i: int) -> Result<Option<(ArgOption, Seq<char>, int)>, ArgsError> {
    let t = ts[i];
    if t == "--"@ {
        if i + 1 < ts.len() { Err(ArgsError::UnexpectedArgument) } else { Ok(None) }
    } else if t.len() > 2 && t[0] == '-' && t[1] == '-' {
        let body = t.subrange(2, t.len() as int);
        let e = index_of_eq(body);
        let name = body.subrange(0, e);
        if name == "help"@ || name == "version"@ {
            Err(ArgsError::HelpOrVersion)
        } else {
            match option_by_long(name) {
                None => Err(ArgsError::UnknownArgument),
                Some(o) => if !o.takes_value() {
                    if e < body.len() { Err(ArgsError::UnexpectedValue) } else { Ok(Some((o, Seq::<char>::empty(), i + 1))) }
                } else if e < body.len() {
                    Ok(Some((o, body.subrange(e + 1, body.len() as int), i + 1)))
                } else {
                    value_from_next(ts, i, o)
                },
            }
        }
    } else if t.len() >= 2 && t[0] == '-' {
        let c = t[1];
        let rest = t.subrange(2, t.len() as int);
        if c == 'h' || c == 'V' {
            Err(ArgsError::HelpOrVersion)
        } else {
            match option_by_short(c) {
                None => Err(ArgsError::UnknownArgument),
                Some(o) => if rest.len() > 0 {
                    Ok(Some((o, if rest[0] == '=' { rest.drop_first() } else { rest }, i + 1)))
                } else {
                    value_from_next(ts, i, o)
                },
            }
        }
    } else {
        Err(ArgsError::UnexpectedArgument)
    }
}

/// Whether option `o` occurs in `occs`.
pub open spec fn has_option(occs: Seq<Occurrence>, o: ArgOption) -> bool {
    exists|k: int| 0 <= k < occs.len() && (#[trigger] occs[k]).0 == o
}

/// The options of `ts` from position `i` on, after those in `acc`, or the first error.
pub open spec fn scan(ts: Seq<Seq<char>>, i: int, acc: Seq<Occurrence>) -> Result<Seq<Occurrence>, ArgsError>
    decreases ts.len() - i,
{
    if i < 0 || i >= ts.len() {
        Ok(acc)
    } else {
        match read_token(ts, i) {
            Err(e) => Err(e),
            Ok(None) => Ok(acc),
            Ok(Some((o, v, next))) => if has_option(acc, o) {
                Err(ArgsError::RepeatedArgument)
            } else if next <= i {
                Ok(acc)
            } else {
                scan(ts, next, acc.push((o, v)))
            },
        }
    }
}

/// The value given to option `o`, if it occurs.
pub open spec fn occurrence(occs: Seq<Occurrence>, o: ArgOption) -> Option<Seq<char>>
    decreases occs.len(),
{
    if occs.len() == 0 {
        None
    } else if occs[0].0 == o {
        Some(occs[0].1)
    } else {
        occurrence(occs.drop_first(), o)
    }
}

/// The dataset: the one given, or the one that fits the cache.
pub open spec fn dataset_value(occs: Seq<Occurrence>) -> Option<Dataset> {
    match occurrence(occs, ArgOption::Dataset) {
        Some(v) => dataset_from_arg(v),
        None => Some(Dataset::CacheFit),
    }
}

/// The algorithm: the one given (there is no valid default).
pub open spec fn algorithm_value(occs: Seq<Occurrence>) -> Option<Algorithm> {
    match occurrence(occs, ArgOption::Algorithm) {
        Some(v) => algorithm_from_arg(v),
        None => None,
    }
}

/// A numeric option up to `max`: the number given, or `default`.
pub open spec fn number_value(occs: Seq<Occurrence>, o: ArgOption, max: nat, default: nat) -> Option<nat> {
    match occurrence(occs, o) {
        Some(v) => parse_unsigned(v, max),
        None => Some(default),
    }
}

/// An optional numeric option up to `max`: `Some(None)` where it is not given.
pub open spec fn optional_number(occs: Seq<Occurrence>, o: ArgOption, max: nat) -> Option<Option<nat>> {
    match occurrence(occs, o) {
        Some(v) => match parse_unsigned(v, max) {
            Some(n) => Some(Some(n)),
            None => None,
        },
        None => Some(None),
    }
}

/// The first option whose value is not accepted, in the order of the fields.
pub open spec fn first_invalid(occs: Seq<Occurrence>) -> Option<ArgsError> {
    if dataset_value(occs) is None {
        Some(ArgsError::InvalidValue(ArgOption::Dataset))
    } else if algorithm_value(occs) is None {
        Some(ArgsError::InvalidValue(ArgOption::Algorithm))
    } else if number_value(occs, ArgOption::Threads, 255, 2) is None {
        Some(ArgsError::InvalidValue(ArgOption::Threads))
    } else if number_value(occs, ArgOption::Selectivity, 255, 100) is None {
        Some(ArgsError::InvalidValue(ArgOption::Selectivity))
    } else if number_value(occs, ArgOption::DataSkew, u32::MAX as nat, 0) is None {
        Some(ArgsError::InvalidValue(ArgOption::DataSkew))
    } else if number_value(occs, ArgOption::SealChunkSize, u32::MAX as nat, 0) is None {
        Some(ArgsError::InvalidValue(ArgOption::SealChunkSize))
    } else if number_value(occs, ArgOption::RTuples, u32::MAX as nat, 2097152) is None {
        Some(ArgsError::InvalidValue(ArgOption::RTuples))
    } else if number_value(occs, ArgOption::STuples, u32::MAX as nat, 2097152) is None {
        Some(ArgsError::InvalidValue(ArgOption::STuples))
    } else if optional_number(occs, ArgOption::RSize, u32::MAX as nat) is None {
        Some(ArgsError::InvalidValue(ArgOption::RSize))
    } else if optional_number(occs, ArgOption::SSize, u32::MAX as nat) is None {
        Some(ArgsError::InvalidValue(ArgOption::SSize))
    } else {
        None
    }
}

/// The options of the argument list `ts` (without the program name), or why it is not a
/// TeeBench command line.
pub open spec fn parse_args(ts: Seq<Seq<char>>) -> Result<Seq<Occurrence>, ArgsError> {
    match scan(ts, 0, Seq::empty()) {
        Err(e) => Err(e),
        Ok(occs) => match first_invalid(occs) {
            Some(e) => Err(e),
            None => Ok(occs),
        },
    }
}

/// Whether the text option `s` holds what `occs` gives for `o`.
pub open spec fn text_matches(s: Option<String>, v: Option<Seq<char>>) -> bool {
    match s {
        Some(x) => v == Some(x@),
        None => v is None,
    }
}

/// `n` as an optional natural number.
pub open spec fn opt_nat(n: Option<u32>) -> Option<nat> {
    match n {
        Some(x) => Some(x as nat),
        None => None,
    }
}

/// Whether `a` holds, for platform `app`, what the options `occs` say.
pub open spec fn args_from_occurrences(a: TeebenchArgs, app: Platform, occs: Seq<Occurrence>) -> bool {
    &&& a.app_name == app
    &&& dataset_value(occs) == Some(a.dataset)
    &&& algorithm_value(occs) == Some(a.algorithm)
    &&& number_value(occs, ArgOption::Threads, 255, 2) == Some(a.threads as nat)
    &&& number_value(occs, ArgOption::Selectivity, 255, 100) == Some(a.selectivity as nat)
    &&& number_value(occs, ArgOption::DataSkew, u32::MAX as nat, 0) == Some(a.data_skew as nat)
    &&& number_value(occs, ArgOption::SealChunkSize, u32::MAX as nat, 0) == Some(a.seal_chunk_size as nat)
    &&& number_value(occs, ArgOption::RTuples, u32::MAX as nat, 2097152) == Some(a.r_tuples as nat)
    &&& number_value(occs, ArgOption::STuples, u32::MAX as nat, 2097152) == Some(a.s_tuples as nat)
    &&& text_matches(a.r_path, occurrence(occs, ArgOption::RPath))
    &&& text_matches(a.s_path, occurrence(occs, ArgOption::SPath))
    &&& optional_number(occs, ArgOption::RSize, u32::MAX as nat) == Some(opt_nat(a.r_size))
    &&& optional_number(occs, ArgOption::SSize, u32::MAX as nat) == Some(opt_nat(a.s_size))
    &&& a.seal == has_option(occs, ArgOption::Seal)
    &&& a.sort_r == has_option(occs, ArgOption::SortR)
    &&& a.sort_s == has_option(occs, ArgOption::SortS)
    &&& a.csv == has_option(occs, ArgOption::Csv)
}

/// A short option `-c` followed by a value that does not begin with `-`.
pub proof fn lemma_read_short(ts: Seq<Seq<char>>, i: int, c: char, o: ArgOption)
    requires
        0 <= i,
        i + 1 < ts.len(),
        ts[i] == seq!['-', c],
        option_by_short(c) == Some(o),
        !dashed(ts[i + 1]),
    ensures
        read_token(ts, i) == Ok::<Option<(ArgOption, Seq<char>, int)>, ArgsError>(Some((o, ts[i + 1], i + 2))),
{
    reveal_strlit("--");
    assert(ts[i] != "--"@);
    assert(ts[i].subrange(2, 2) =~= Seq::<char>::empty());
}

/// A flag written `--name`.
pub proof fn lemma_read_long_flag(ts: Seq<Seq<char>>, i: int, name: Seq<char>, o: ArgOption)
    requires
        0 <= i < ts.len(),
        ts[i] == seq!['-', '-'] + name,
        name.len() > 0,
        forall|k: int| 0 <= k < name.len() ==> name[k] != '=',
        option_by_long(name) == Some(o),
        !o.takes_value(),
        name != "help"@,
        name != "version"@,
    ensures
        read_token(ts, i) == Ok::<Option<(ArgOption, Seq<char>, int)>, ArgsError>(Some((o, Seq::<char>::empty(), i + 1))),
{
    reveal_strlit("--");
    assert(ts[i].len() > 2);
    assert(ts[i] != "--"@);
    let body = ts[i].subrange(2, ts[i].len() as int);
    assert(body =~= name);
    lemma_index_of_eq(name, name.len() as int);
    assert(name.subrange(0, name.len() as int) =~= name);
}

/// One option read off the command line moves on to the next argument.
pub proof fn lemma_scan_step(ts: Seq<Seq<char>>, i: int, acc: Seq<Occurrence>, o: ArgOption, v: Seq<char>, next: int)
    requires
        0 <= i < ts.len(),
        read_token(ts, i) == Ok::<Option<(ArgOption, Seq<char>, int)>, ArgsError>(Some((o, v, next))),
        next > i,
        !has_option(acc, o),
    ensures
        scan(ts, i, acc) == scan(ts, next, acc.push((o, v))),
{
}

/// Where the first `=` of `s` stands when none comes before `j` and `s[j]` is one (or `j` is the end).
pub proof fn lemma_index_of_eq(s: Seq<char>, j: int)
    requires
        0 <= j <= s.len(),
        forall|k: int| 0 <= k < j ==> s[k] != '=',
        j == s.len() || s[j] == '=',
    ensures
        index_of_eq(s) == j,
    decreases j,
{
    if j > 0 {
        assert(s[0] != '=');
        let t = s.drop_first();
        assert forall|k: int| 0 <= k < j - 1 implies t[k] != '=' by {
            assert(t[k] == s[k + 1]);
        }
        lemma_index_of_eq(t, j - 1);
    }
}


/// The options read so far, as occurrences.
pub open spec fn occ_view(v: Seq<(ArgOption, String)>) -> Seq<Occurrence> {
    v.map_values(|p: (ArgOption, String)| (p.0, p.1@))
}

/// What an exec result of reading one argument stands for.
pub open spec fn token_view(r: Result<Option<(ArgOption, String, usize)>, ArgsError>) -> Result<Option<(ArgOption, Seq<char>, int)>, ArgsError> {
    match r {
        Err(e) => Err(e),
        Ok(None) => Ok(None),
        Ok(Some((o, v, n))) => Ok(Some((o, v@, n as int))),
    }
}

/// The first occurrence of `o` is at `k`.
pub proof fn lemma_occurrence_at(s: Seq<Occurrence>, o: ArgOption, k: int)
    requires
        0 <= k < s.len(),
        s[k].0 == o,
        forall|m: int| 0 <= m < k ==> s[m].0 != o,
    ensures
        occurrence(s, o) == Some(s[k].1),
    decreases k,
{
    if k > 0 {
        let t = s.drop_first();
        assert forall|m: int| 0 <= m < k - 1 implies t[m].0 != o by {
            assert(t[m] == s[m + 1]);
        }
        lemma_occurrence_at(t, o, k - 1);
    }
}

/// `o` does not occur.
pub proof fn lemma_occurrence_none(s: Seq<Occurrence>, o: ArgOption)
    requires
        forall|m: int| 0 <= m < s.len() ==> s[m].0 != o,
    ensures
        occurrence(s, o) is None,
    decreases s.len(),
{
    if s.len() > 0 {
        let t = s.drop_first();
        assert forall|m: int| 0 <= m < t.len() implies t[m].0 != o by {
            assert(t[m] == s[m + 1]);
        }
        lemma_occurrence_none(t, o);
    }
}

impl ArgOption {
    /// Whether the option takes a value.
    pub fn is_valued(&self) -> (r: bool)
        ensures
            r == self.takes_value(),
    {
        match self {
            ArgOption::Seal | ArgOption::SortR | ArgOption::SortS | ArgOption::Csv => false,
            _ => true,
        }
    }

    /// The option with the long name `name`.
    pub fn from_long(name: &str) -> (r: Option<ArgOption>)
        ensures
            r == option_by_long(name@),
    {
        if str_eq(name, "dataset") { Some(ArgOption::Dataset) }
        else if str_eq(name, "algorithm") { Some(ArgOption::Algorithm) }
        else if str_eq(name, "threads") { Some(ArgOption::Threads) }
        else if str_eq(name, "selectivity") { Some(ArgOption::Selectivity) }
        else if str_eq(name, "data-skew") { Some(ArgOption::DataSkew) }
        else if str_eq(name, "seal-chunk-size") { Some(ArgOption::SealChunkSize) }
        else if str_eq(name, "r-tuples") { Some(ArgOption::RTuples) }
        else if str_eq(name, "s-tuples") { Some(ArgOption::STuples) }
        else if str_eq(name, "r-path") { Some(ArgOption::RPath) }
        else if str_eq(name, "s-path") { Some(ArgOption::SPath) }
        else if str_eq(name, "r-size") { Some(ArgOption::RSize) }
        else if str_eq(name, "s-size") { Some(ArgOption::SSize) }
        else if str_eq(name, "seal") { Some(ArgOption::Seal) }
        else if str_eq(name, "sort-r") { Some(ArgOption::SortR) }
        else if str_eq(name, "sort-s") { Some(ArgOption::SortS) }
        else if str_eq(name, "csv") { Some(ArgOption::Csv) }
        else { None }
    }

    /// The option with the short name `c`.
    pub fn from_short(c: char) -> (r: Option<ArgOption>)
        ensures
            r == option_by_short(c),
    {
        if c == 'd' { Some(ArgOption::Dataset) }
        else if c == 'a' { Some(ArgOption::Algorithm) }
        else if c == 'n' { Some(ArgOption::Threads) }
        else if c == 'l' { Some(ArgOption::Selectivity) }
        else if c == 'z' { Some(ArgOption::DataSkew) }
        else if c == 'c' { Some(ArgOption::SealChunkSize) }
        else if c == 'r' { Some(ArgOption::RTuples) }
        else if c == 's' { Some(ArgOption::STuples) }
        else if c == 't' { Some(ArgOption::RPath) }
        else if c == 'u' { Some(ArgOption::SPath) }
        else if c == 'x' { Some(ArgOption::RSize) }
        else if c == 'y' { Some(ArgOption::SSize) }
        else { None }
    }
}

/// Option `o` with its value taken from the argument after position `i`.
fn value_from_next_exec(args: &Vec<String>, i: usize, o: ArgOption) -> (r: Result<Option<(ArgOption, String, usize)>, ArgsError>)
    requires
        i < args.len(),
    ensures
        token_view(r) == value_from_next(args.deep_view(), i as int, o),
{
    if i + 1 < args.len() && !starts_with_char(args[i + 1].as_str(), '-') {
        Ok(Some((o, args[i + 1].clone(), i + 2)))
    } else {
        Err(ArgsError::MissingValue)
    }
}

/// Reads argument `i` of `args`.
fn read_token_exec(args: &Vec<String>, i: usize) -> (r: Result<Option<(ArgOption, String, usize)>, ArgsError>)
    requires
        i < args.len(),
    ensures
        token_view(r) == read_token(args.deep_view(), i as int),
{
    let ghost ts = args.deep_view();
    let t: &str = args[i].as_str();
    assert(t@ == ts[i as int]);
    let n = t.unicode_len();
    if str_eq(t, "--") {
        if i + 1 < args.len() {
            Err(ArgsError::UnexpectedArgument)
        } else {
            Ok(None)
        }
    } else if n > 2 && t.get_char(0) == '-' && t.get_char(1) == '-' {
        let ghost body = t@.subrange(2, n as int);
        let mut j: usize = 2;
        while j < n && t.get_char(j) != '='
            invariant
                2 <= j <= n,
                n == t@.len(),
                forall|k: int| 2 <= k < j ==> t@[k] != '=',
            decreases n - j,
        {
            j = j + 1;
        }
        proof {
            assert forall|k: int| 0 <= k < j - 2 implies body[k] != '=' by {
                assert(body[k] == t@[k + 2]);
            }
            lemma_index_of_eq(body, j - 2);
        }
        let name = t.substring_char(2, j);
        assert(name@ =~= body.subrange(0, j - 2));
        if str_eq(name, "help") || str_eq(name, "version") {
            return Err(ArgsError::HelpOrVersion);
        }
        match ArgOption::from_long(name) {
            None => Err(ArgsError::UnknownArgument),
            Some(o) => {
                if !o.is_valued() {
                    if j < n {
                        Err(ArgsError::UnexpectedValue)
                    } else {
                        Ok(Some((o, String::new(), i + 1)))
                    }
                } else if j < n {
                    let v = t.substring_char(j + 1, n);
                    assert(v@ =~= body.subrange(j - 2 + 1, body.len() as int));
                    Ok(Some((o, String::from_str(v), i + 1)))
                } else {
                    value_from_next_exec(args, i, o)
                }
            },
        }
    } else if n >= 2 && t.get_char(0) == '-' {
        let c = t.get_char(1);
        let ghost rest = t@.subrange(2, n as int);
        if c == 'h' || c == 'V' {
            return Err(ArgsError::HelpOrVersion);
        }
        match ArgOption::from_short(c) {
            None => Err(ArgsError::UnknownArgument),
            Some(o) => {
                if n > 2 {
                    assert(rest[0] == t@[2]);
                    if t.get_char(2) == '=' {
                        let v = t.substring_char(3, n);
                        assert(v@ =~= rest.drop_first());
                        Ok(Some((o, String::from_str(v), i + 1)))
                    } else {
                        let v = t.substring_char(2, n);
                        assert(v@ =~= rest);
                        Ok(Some((o, String::from_str(v), i + 1)))
                    }
                } else {
                    value_from_next_exec(args, i, o)
                }
            },
        }
    } else {
        proof { reveal_strlit("--"); }
        Err(ArgsError::UnexpectedArgument)
    }
}

/// Whether option `o` occurs among the options read so far.
fn has_option_exec(occs: &Vec<(ArgOption, String)>, o: ArgOption) -> (r: bool)
    ensures
        r == has_option(occ_view(occs@), o),
{
    let mut k: usize = 0;
    while k < occs.len()
        invariant
            k <= occs.len(),
            forall|m: int| 0 <= m < k ==> (#[trigger] occs@[m]).0 != o,
        decreases occs.len() - k,
    {
        if occs[k].0 == o {
            assert(occ_view(occs@)[k as int].0 == o);
            return true;
        }
        k = k + 1;
    }
    assert forall|m: int| 0 <= m < occ_view(occs@).len() implies (#[trigger] occ_view(occs@)[m]).0 != o by {
        assert(occs@[m].0 != o);
    }
    false
}

/// The position of the value given to option `o`, if it occurs.
fn find_option(occs: &Vec<(ArgOption, String)>, o: ArgOption) -> (r: Option<usize>)
    ensures
        match r {
            Some(k) => k < occs@.len() && occurrence(occ_view(occs@), o) == Some(occs@[k as int].1@),
            None => occurrence(occ_view(occs@), o) is None,
        },
{
    let mut k: usize = 0;
    while k < occs.len()
        invariant
            k <= occs.len(),
            forall|m: int| 0 <= m < k ==> (#[trigger] occs@[m]).0 != o,
        decreases occs.len() - k,
    {
        if occs[k].0 == o {
            proof {
                assert forall|m: int| 0 <= m < k implies (#[trigger] occ_view(occs@)[m]).0 != o by {
                    assert(occs@[m].0 != o);
                }
                lemma_occurrence_at(occ_view(occs@), o, k as int);
            }
            return Some(k);
        }
        k = k + 1;
    }
    proof {
        assert forall|m: int| 0 <= m < occ_view(occs@).len() implies (#[trigger] occ_view(occs@)[m]).0 != o by {
            assert(occs@[m].0 != o);
        }
        lemma_occurrence_none(occ_view(occs@), o);
    }
    None
}

/// The numeric option `o` up to `max`, or `default` where it is not given.
fn number_option(occs: &Vec<(ArgOption, String)>, o: ArgOption, max: u64, default: u64) -> (r: Option<u64>)
    requires
        max <= u32::MAX,
    ensures
        match r {
            Some(n) => number_value(occ_view(occs@), o, max as nat, default as nat) == Some(n as nat),
            None => number_value(occ_view(occs@), o, max as nat, default as nat) is None,
        },
{
    match find_option(occs, o) {
        Some(k) => parse_unsigned_bounded(occs[k].1.as_str(), max),
        None => Some(default),
    }
}

/// The optional numeric option `o` up to `max`.
fn optional_number_option(occs: &Vec<(ArgOption, String)>, o: ArgOption, max: u64) -> (r: Option<Option<u64>>)
    requires
        max <= u32::MAX,
    ensures
        match r {
            Some(Some(n)) => optional_number(occ_view(occs@), o, max as nat) == Some(Some(n as nat)),
            Some(None) => optional_number(occ_view(occs@), o, max as nat) == Some(None::<nat>),
            None => optional_number(occ_view(occs@), o, max as nat) is None,
        },
{
    match find_option(occs, o) {
        Some(k) => match parse_unsigned_bounded(occs[k].1.as_str(), max) {
            Some(n) => Some(Some(n)),
            None => None,
        },
        None => Some(None),
    }
}

/// The text option `o`.
fn text_option(occs: &Vec<(ArgOption, String)>, o: ArgOption) -> (r: Option<String>)
    ensures
        text_matches(r, occurrence(occ_view(occs@), o)),
{
    match find_option(occs, o) {
        Some(k) => Some(occs[k].1.clone()),
        None => None,
    }
}

impl TeebenchArgs {
    /// Reads the arguments of a TeeBench run on `app_name` from `args` (the command line
    /// without the program name).
    pub fn from_args_list(app_name: Platform, args: &Vec<String>) -> (r: Result<TeebenchArgs, ArgsError>)
        ensures
            r is Err <==> parse_args(args.deep_view()) is Err,
            r matches Err(e) ==> parse_args(args.deep_view()) == Err::<Seq<Occurrence>, ArgsError>(e),
            r matches Ok(a) ==> (parse_args(args.deep_view()) matches Ok(occs) && args_from_occurrences(a, app_name, occs)),
    {
        let ghost ts = args.deep_view();
        let mut occs: Vec<(ArgOption, String)> = Vec::new();
        let mut i: usize = 0;
        assert(occ_view(occs@) =~= Seq::<Occurrence>::empty());
        while i < args.len()
            invariant_except_break
                scan(ts, 0, Seq::empty()) == scan(ts, i as int, occ_view(occs@)),
            invariant
                ts == args.deep_view(),
            ensures
                scan(ts, 0, Seq::empty()) == Ok::<Seq<Occurrence>, ArgsError>(occ_view(occs@)),
            decreases args.len() - i,
        {
            let t = read_token_exec(args, i);
            match t {
                Err(e) => {
                    return Err(e);
                },
                Ok(None) => {
                    break;
                },
                Ok(Some((o, v, next))) => {
                    if has_option_exec(&occs, o) {
                        return Err(ArgsError::RepeatedArgument);
                    }
                    let ghost before = occ_view(occs@);
                    occs.push((o, v));
                    assert(occ_view(occs@) =~= before.push((o, v@)));
                    i = next;
                },
            }
        }
        let ghost gocc = occ_view(occs@);
        let dataset = match find_option(&occs, ArgOption::Dataset) {
            Some(k) => match Dataset::from_cmd_arg(occs[k].1.as_str()) {
                Ok(d) => d,
                Err(_) => {
                    return Err(ArgsError::InvalidValue(ArgOption::Dataset));
                },
            },
            None => Dataset::CacheFit,
        };
        let algorithm = match find_option(&occs, ArgOption::Algorithm) {
            Some(k) => match Algorithm::from_cmd_arg(occs[k].1.as_str()) {
                Ok(a) => a,
                Err(_) => {
                    return Err(ArgsError::InvalidValue(ArgOption::Algorithm));
                },
            },
            None => {
                return Err(ArgsError::InvalidValue(ArgOption::Algorithm));
            },
        };
        let threads = match number_option(&occs, ArgOption::Threads, 255, 2) {
            Some(n) => n as u8,
            None => {
                return Err(ArgsError::InvalidValue(ArgOption::Threads));
            },
        };
        let selectivity = match number_option(&occs, ArgOption::Selectivity, 255, 100) {
            Some(n) => n as u8,
            None => {
                return Err(ArgsError::InvalidValue(ArgOption::Selectivity));
            },
        };
        let data_skew = match number_option(&occs, ArgOption::DataSkew, 0xffff_ffff, 0) {
            Some(n) => n as u32,
            None => {
                return Err(ArgsError::InvalidValue(ArgOption::DataSkew));
            },
        };
        let seal_chunk_size = match number_option(&occs, ArgOption::SealChunkSize, 0xffff_ffff, 0) {
            Some(n) => n as u32,
            None => {
                return Err(ArgsError::InvalidValue(ArgOption::SealChunkSize));
            },
        };
        let r_tuples = match number_option(&occs, ArgOption::RTuples, 0xffff_ffff, 2097152) {
            Some(n) => n as u32,
            None => {
                return Err(ArgsError::InvalidValue(ArgOption::RTuples));
            },
        };
        let s_tuples = match number_option(&occs, ArgOption::STuples, 0xffff_ffff, 2097152) {
            Some(n) => n as u32,
            None => {
                return Err(ArgsError::InvalidValue(ArgOption::STuples));
            },
        };
        let r_size = match optional_number_option(&occs, ArgOption::RSize, 0xffff_ffff) {
            Some(Some(n)) => Some(n as u32),
            Some(None) => None,
            None => {
                return Err(ArgsError::InvalidValue(ArgOption::RSize));
            },
        };
        let s_size = match optional_number_option(&occs, ArgOption::SSize, 0xffff_ffff) {
            Some(Some(n)) => Some(n as u32),
            Some(None) => None,
            None => {
                return Err(ArgsError::InvalidValue(ArgOption::SSize));
            },
        };
        let r_path = text_option(&occs, ArgOption::RPath);
        let s_path = text_option(&occs, ArgOption::SPath);
        let seal = has_option_exec(&occs, ArgOption::Seal);
        let sort_r = has_option_exec(&occs, ArgOption::SortR);
        let sort_s = has_option_exec(&occs, ArgOption::SortS);
        let csv = has_option_exec(&occs, ArgOption::Csv);
        let a = TeebenchArgs {
            app_name,
            dataset,
            algorithm,
            threads,
            selectivity,
            data_skew,
            seal_chunk_size,
            r_tuples,
            s_tuples,
            r_path,
            s_path,
            r_size,
            s_size,
            seal,
            sort_r,
            sort_s,
            csv,
        };
        assert(first_invalid(gocc) is None);
        assert(args_from_occurrences(a, app_name, gocc));
        Ok(a)
    }
}

} // verus!
