//! The vocabulary of experiments: operators, join algorithms, datasets,
//! platforms and the names under which each of them is printed and read back.

use vstd::prelude::*;
use crate::text::str_eq;
use std::collections::HashMap;
use crate::profiling::JobConfig;
use crate::datetime::{now_utc, DateTime, Duration};

verus! {

/// Identifier of an uploaded commit.
pub type CommitIdType = usize;

/// Name of the algorithm that TeeBench always replaces with the current commit's code.
pub const REPLACE_ALG: &'static str = "___";

/// Kind of database operator a commit implements.
#[derive(Debug, Clone, Copy, PartialEq, Eq, Structural)]
pub enum Operator {
    Join,
    GroupBy,
    Projection,
    OrderBy,
}

impl Operator {
    /// The operator's printed name.
    pub open spec fn display(self) -> Seq<char> {
        match self {
            Operator::Join => "JOIN"@,
            Operator::GroupBy => "GROUP BY"@,
            Operator::Projection => "PROJECTION"@,
            Operator::OrderBy => "ORDER BY"@,
        }
    }

    /// The operator's printed name.
    pub fn to_string(&self) -> (s: String)
        ensures
            s@ == self.display(),
    {
        match self {
            Operator::Join => String::from_str("JOIN"),
            Operator::GroupBy => String::from_str("GROUP BY"),
            Operator::Projection => String::from_str("PROJECTION"),
            Operator::OrderBy => String::from_str("ORDER BY"),
        }
    }
}

/// The operator printed as `s`.
pub open spec fn operator_named(s: Seq<char>) -> Option<Operator> {
    if s == Operator::Join.display() {
        Some(Operator::Join)
    } else if s == Operator::GroupBy.display() {
        Some(Operator::GroupBy)
    } else if s == Operator::Projection.display() {
        Some(Operator::Projection)
    } else if s == Operator::OrderBy.display() {
        Some(Operator::OrderBy)
    } else {
        None
    }
}

impl Operator {
    /// Reads a operator by its printed name.
    pub fn from_str(s: &str) -> (r: Result<Operator, ParseError>)
        ensures
            r is Ok <==> operator_named(s@) is Some,
            r matches Ok(v) ==> operator_named(s@) == Some(v),
            r matches Err(e) ==> e == ParseError::VariantNotFound,
    {
        if str_eq(s, "JOIN") {
            Ok(Operator::Join)
        } else if str_eq(s, "GROUP BY") {
            Ok(Operator::GroupBy)
        } else if str_eq(s, "PROJECTION") {
            Ok(Operator::Projection)
        } else if str_eq(s, "ORDER BY") {
            Ok(Operator::OrderBy)
        } else {
            Err(ParseError::VariantNotFound)
        }
    }
}

impl Default for Operator {
    fn default() -> (r: Self)
        ensures
            r == Operator::Join,
    {
        Operator::Join
    }
}

/// Error of an experiment as it is shown to users.
#[derive(Debug, Clone, Copy, PartialEq, Eq, Structural)]
pub enum TeeBenchWebError {
    NoResults,
    Unknown,
}

impl TeeBenchWebError {
    /// The error's message.
    pub open spec fn message(self) -> Seq<char> {
        match self {
            TeeBenchWebError::NoResults => "Could not retrieve results"@,
            TeeBenchWebError::Unknown => "Unknown error"@,
        }
    }

    /// The error's message.
    pub fn to_string(&self) -> (s: String)
        ensures
            s@ == self.message(),
    {
        match self {
            TeeBenchWebError::NoResults => String::from_str("Could not retrieve results"),
            TeeBenchWebError::Unknown => String::from_str("Unknown error"),
        }
    }
}

impl Default for TeeBenchWebError {
    fn default() -> (r: Self)
        ensures
            r == TeeBenchWebError::Unknown,
    {
        TeeBenchWebError::Unknown
    }
}

/// A join algorithm of TeeBench, or an uploaded commit that stands in for one.
#[derive(Debug, Clone, Copy, PartialEq, Eq, Structural, PartialOrd, Ord, Hash)]
pub enum Algorithm {
    Rho,
    Pht,
    Psm,
    Mway,
    Rht,
    Cht,
    Rsm,
    Inl,
    Crkj,
    Nlj,
    Commit(CommitIdType),
}

/// Every algorithm in declaration order; commits are represented by commit `0`.
pub open spec fn all_algorithms() -> Seq<Algorithm> {
    seq![
        Algorithm::Rho,
        Algorithm::Pht,
        Algorithm::Psm,
        Algorithm::Mway,
        Algorithm::Rht,
        Algorithm::Cht,
        Algorithm::Rsm,
        Algorithm::Inl,
        Algorithm::Crkj,
        Algorithm::Nlj,
        Algorithm::Commit(0),
    ]
}

/// The algorithm printed as `s`, where there is one (a commit reads back as commit `0`).
pub open spec fn algorithm_named(s: Seq<char>) -> Option<Algorithm> {
    if s == Algorithm::Rho.display() {
        Some(Algorithm::Rho)
    } else if s == Algorithm::Pht.display() {
        Some(Algorithm::Pht)
    } else if s == Algorithm::Psm.display() {
        Some(Algorithm::Psm)
    } else if s == Algorithm::Mway.display() {
        Some(Algorithm::Mway)
    } else if s == Algorithm::Rht.display() {
        Some(Algorithm::Rht)
    } else if s == Algorithm::Cht.display() {
        Some(Algorithm::Cht)
    } else if s == Algorithm::Rsm.display() {
        Some(Algorithm::Rsm)
    } else if s == Algorithm::Inl.display() {
        Some(Algorithm::Inl)
    } else if s == Algorithm::Crkj.display() {
        Some(Algorithm::Crkj)
    } else if s == Algorithm::Nlj.display() {
        Some(Algorithm::Nlj)
    } else if s == Algorithm::Commit(0).display() {
        Some(Algorithm::Commit(0))
    } else {
        None
    }
}

/// The algorithm that the command line argument `s` selects: a printed name, or the
/// placeholder for the current commit, which selects commit `1`.
pub open spec fn algorithm_from_arg(s: Seq<char>) -> Option<Algorithm> {
    match algorithm_named(s) {
        Some(a) => Some(a),
        None => if s == REPLACE_ALG@ { Some(Algorithm::Commit(1)) } else { None },
    }
}

impl Algorithm {
    /// The algorithm's printed name; every commit prints as `Latest Operator`.
    pub open spec fn display(self) -> Seq<char> {
        match self {
            Algorithm::Rho => "RHO"@,
            Algorithm::Pht => "PHT"@,
            Algorithm::Psm => "PSM"@,
            Algorithm::Mway => "MWAY"@,
            Algorithm::Rht => "RHT"@,
            Algorithm::Cht => "CHT"@,
            Algorithm::Rsm => "RSM"@,
            Algorithm::Inl => "INL"@,
            Algorithm::Crkj => "CRKJ"@,
            Algorithm::Nlj => "NLJ"@,
            Algorithm::Commit(_) => "Latest Operator"@,
        }
    }

    /// The argument that selects this algorithm on a TeeBench command line:
    /// its printed name, or the placeholder for a commit.
    pub open spec fn cmd_arg(self) -> Seq<char> {
        match self {
            Algorithm::Commit(_) => REPLACE_ALG@,
            _ => self.display(),
        }
    }

    /// The algorithm's printed name.
    pub fn to_string(&self) -> (s: String)
        ensures
            s@ == self.display(),
    {
        match self {
            Algorithm::Rho => String::from_str("RHO"),
            Algorithm::Pht => String::from_str("PHT"),
            Algorithm::Psm => String::from_str("PSM"),
            Algorithm::Mway => String::from_str("MWAY"),
            Algorithm::Rht => String::from_str("RHT"),
            Algorithm::Cht => String::from_str("CHT"),
            Algorithm::Rsm => String::from_str("RSM"),
            Algorithm::Inl => String::from_str("INL"),
            Algorithm::Crkj => String::from_str("CRKJ"),
            Algorithm::Nlj => String::from_str("NLJ"),
            Algorithm::Commit(_) => String::from_str("Latest Operator"),
        }
    }

    /// The argument that selects this algorithm on a TeeBench command line.
    pub fn to_cmd_arg(&self) -> (s: String)
        ensures
            s@ == self.cmd_arg(),
    {
        match self {
            Algorithm::Commit(_) => String::from_str(REPLACE_ALG),
            _ => self.to_string(),
        }
    }

    /// Whether this algorithm stands for an uploaded commit.
    pub fn is_commit(&self) -> (r: bool)
        ensures
            r == (*self is Commit),
    {
        match self {
            Algorithm::Commit(_) => true,
            _ => false,
        }
    }

    /// Reads an algorithm by its printed name (a commit reads back as commit `0`).
    pub fn from_str(s: &str) -> (r: Result<Algorithm, ParseError>)
        ensures
            r is Ok <==> algorithm_named(s@) is Some,
            r matches Ok(a) ==> algorithm_named(s@) == Some(a),
            r matches Err(e) ==> e == ParseError::VariantNotFound,
    {
        if str_eq(s, "RHO") {
            Ok(Algorithm::Rho)
        } else if str_eq(s, "PHT") {
            Ok(Algorithm::Pht)
        } else if str_eq(s, "PSM") {
            Ok(Algorithm::Psm)
        } else if str_eq(s, "MWAY") {
            Ok(Algorithm::Mway)
        } else if str_eq(s, "RHT") {
            Ok(Algorithm::Rht)
        } else if str_eq(s, "CHT") {
            Ok(Algorithm::Cht)
        } else if str_eq(s, "RSM") {
            Ok(Algorithm::Rsm)
        } else if str_eq(s, "INL") {
            Ok(Algorithm::Inl)
        } else if str_eq(s, "CRKJ") {
            Ok(Algorithm::Crkj)
        } else if str_eq(s, "NLJ") {
            Ok(Algorithm::Nlj)
        } else if str_eq(s, "Latest Operator") {
            Ok(Algorithm::Commit(0))
        } else {
            Err(ParseError::VariantNotFound)
        }
    }

    /// Reads the algorithm that a TeeBench `-a` argument selects: a printed name,
    /// or the placeholder `___`, which selects commit `1`.
    pub fn from_cmd_arg(string: &str) -> (r: Result<Self, &'static str>)
        ensures
            r is Ok <==> algorithm_from_arg(string@) is Some,
            r matches Ok(a) ==> algorithm_from_arg(string@) == Some(a),
            r matches Err(m) ==> m@ == "Could not find this Operator/Algorithm!"@,
    {
        match Algorithm::from_str(string) {
            Ok(a) => Ok(a),
            Err(_) => {
                if str_eq(string, REPLACE_ALG) {
                    Ok(Algorithm::Commit(1))
                } else {
                    Err("Could not find this Operator/Algorithm!")
                }
            },
        }
    }
}

impl Default for Algorithm {
    fn default() -> (r: Self)
        ensures
            r == Algorithm::Rho,
    {
        Algorithm::Rho
    }
}


/// A name that does not belong to any variant.
#[derive(Debug, Clone, Copy, PartialEq, Eq, Structural)]
pub enum ParseError {
    VariantNotFound,
}

/// Preconfigured kinds of experiments.
#[derive(Debug, Clone, Copy, PartialEq, Eq, Structural)]
pub enum ExperimentType {
    EpcPaging,
    Throughput,
    Scalability,
    Custom,
}

impl ExperimentType {
    /// The experiment type's printed name.
    pub open spec fn display(self) -> Seq<char> {
        match self {
            ExperimentType::EpcPaging => "EPC Paging"@,
            ExperimentType::Throughput => "Throughput"@,
            ExperimentType::Scalability => "Scalability"@,
            ExperimentType::Custom => "Custom"@,
        }
    }

    /// The text that explains the experiment type to users.
    pub open spec fn spec_description(self) -> Seq<char> {
        match self {
            ExperimentType::EpcPaging => "View the first selected algorithm/operator's throughput and EPC misses in relation to the dataset size"@,
            ExperimentType::Throughput => "Compares througput of all selected algorithms with a chart for each dataset"@,
            ExperimentType::Scalability => "Compares throughput of all selected algorithms with an increasing number of threads with a chart for each dataset"@,
            ExperimentType::Custom => "A custom experiment"@,
        }
    }

    /// The experiment type's printed name.
    pub fn to_string(&self) -> (s: String)
        ensures
            s@ == self.display(),
    {
        match self {
            ExperimentType::EpcPaging => String::from_str("EPC Paging"),
            ExperimentType::Throughput => String::from_str("Throughput"),
            ExperimentType::Scalability => String::from_str("Scalability"),
            ExperimentType::Custom => String::from_str("Custom"),
        }
    }

    /// The text that explains the experiment type to users.
    pub fn description(&self) -> (s: &'static str)
        ensures
            s@ == self.spec_description(),
    {
        match self {
            ExperimentType::EpcPaging => "View the first selected algorithm/operator's throughput and EPC misses in relation to the dataset size",
            ExperimentType::Throughput => "Compares througput of all selected algorithms with a chart for each dataset",
            ExperimentType::Scalability => "Compares throughput of all selected algorithms with an increasing number of threads with a chart for each dataset",
            ExperimentType::Custom => "A custom experiment",
        }
    }
}

/// The experiment type printed as `s`.
pub open spec fn experiment_type_named(s: Seq<char>) -> Option<ExperimentType> {
    if s == ExperimentType::EpcPaging.display() {
        Some(ExperimentType::EpcPaging)
    } else if s == ExperimentType::Throughput.display() {
        Some(ExperimentType::Throughput)
    } else if s == ExperimentType::Scalability.display() {
        Some(ExperimentType::Scalability)
    } else if s == ExperimentType::Custom.display() {
        Some(ExperimentType::Custom)
    } else {
        None
    }
}

impl ExperimentType {
    /// Reads a experiment type by its printed name.
    pub fn from_str(s: &str) -> (r: Result<ExperimentType, ParseError>)
        ensures
            r is Ok <==> experiment_type_named(s@) is Some,
            r matches Ok(v) ==> experiment_type_named(s@) == Some(v),
            r matches Err(e) ==> e == ParseError::VariantNotFound,
    {
        if str_eq(s, "EPC Paging") {
            Ok(ExperimentType::EpcPaging)
        } else if str_eq(s, "Throughput") {
            Ok(ExperimentType::Throughput)
        } else if str_eq(s, "Scalability") {
            Ok(ExperimentType::Scalability)
        } else if str_eq(s, "Custom") {
            Ok(ExperimentType::Custom)
        } else {
            Err(ParseError::VariantNotFound)
        }
    }
}

impl Default for ExperimentType {
    fn default() -> (r: Self)
        ensures
            r == ExperimentType::Custom,
    {
        ExperimentType::Custom
    }
}

/// The parameter that an experiment varies.
#[derive(Debug, Clone, Copy, PartialEq, Eq, Structural)]
pub enum Parameter {
    Threads,
    DataSkew,
    JoinSelectivity,
}

impl Parameter {
    /// The parameter's printed name.
    pub open spec fn display(self) -> Seq<char> {
        match self {
            Parameter::Threads => "Threads"@,
            Parameter::DataSkew => "Data Skew"@,
            Parameter::JoinSelectivity => "Join Selectivity"@,
        }
    }

    /// The TeeBench option that sets the parameter.
    pub open spec fn flag(self) -> Seq<char> {
        match self {
            Parameter::Threads => "-n"@,
            Parameter::DataSkew => "-z"@,
            Parameter::JoinSelectivity => "-l"@,
        }
    }

    /// The parameter's printed name.
    pub fn to_string(&self) -> (s: String)
        ensures
            s@ == self.display(),
    {
        match self {
            Parameter::Threads => String::from_str("Threads"),
            Parameter::DataSkew => String::from_str("Data Skew"),
            Parameter::JoinSelectivity => String::from_str("Join Selectivity"),
        }
    }

    /// The TeeBench option that sets the parameter.
    pub fn to_flag(&self) -> (s: &'static str)
        ensures
            s@ == self.flag(),
    {
        match self {
            Parameter::Threads => "-n",
            Parameter::DataSkew => "-z",
            Parameter::JoinSelectivity => "-l",
        }
    }
}

/// The parameter printed as `s`.
pub open spec fn parameter_named(s: Seq<char>) -> Option<Parameter> {
    if s == Parameter::Threads.display() {
        Some(Parameter::Threads)
    } else if s == Parameter::DataSkew.display() {
        Some(Parameter::DataSkew)
    } else if s == Parameter::JoinSelectivity.display() {
        Some(Parameter::JoinSelectivity)
    } else {
        None
    }
}

impl Parameter {
    /// Reads a parameter by its printed name.
    pub fn from_str(s: &str) -> (r: Result<Parameter, ParseError>)
        ensures
            r is Ok <==> parameter_named(s@) is Some,
            r matches Ok(v) ==> parameter_named(s@) == Some(v),
            r matches Err(e) ==> e == ParseError::VariantNotFound,
    {
        if str_eq(s, "Threads") {
            Ok(Parameter::Threads)
        } else if str_eq(s, "Data Skew") {
            Ok(Parameter::DataSkew)
        } else if str_eq(s, "Join Selectivity") {
            Ok(Parameter::JoinSelectivity)
        } else {
            Err(ParseError::VariantNotFound)
        }
    }
}

impl Default for Parameter {
    fn default() -> (r: Self)
        ensures
            r == Parameter::Threads,
    {
        Parameter::Threads
    }
}

/// What an experiment measures.
#[derive(Debug, Clone, Copy, PartialEq, Eq, Structural)]
pub enum Measurement {
    Throughput,
    EpcPaging,
}

impl Measurement {
    /// The measurement's printed name.
    pub open spec fn display(self) -> Seq<char> {
        match self {
            Measurement::Throughput => "Throughput"@,
            Measurement::EpcPaging => "Epc Paging"@,
        }
    }

    /// The measurement's printed name.
    pub fn to_string(&self) -> (s: String)
        ensures
            s@ == self.display(),
    {
        match self {
            Measurement::Throughput => String::from_str("Throughput"),
            Measurement::EpcPaging => String::from_str("Epc Paging"),
        }
    }
}

/// The measurement printed as `s`.
pub open spec fn measurement_named(s: Seq<char>) -> Option<Measurement> {
    if s == Measurement::Throughput.display() {
        Some(Measurement::Throughput)
    } else if s == Measurement::EpcPaging.display() {
        Some(Measurement::EpcPaging)
    } else {
        None
    }
}

impl Measurement {
    /// Reads a measurement by its printed name.
    pub fn from_str(s: &str) -> (r: Result<Measurement, ParseError>)
        ensures
            r is Ok <==> measurement_named(s@) is Some,
            r matches Ok(v) ==> measurement_named(s@) == Some(v),
            r matches Err(e) ==> e == ParseError::VariantNotFound,
    {
        if str_eq(s, "Throughput") {
            Ok(Measurement::Throughput)
        } else if str_eq(s, "Epc Paging") {
            Ok(Measurement::EpcPaging)
        } else {
            Err(ParseError::VariantNotFound)
        }
    }
}

impl Default for Measurement {
    fn default() -> (r: Self)
        ensures
            r == Measurement::Throughput,
    {
        Measurement::Throughput
    }
}

/// The predefined input relations of TeeBench.
#[derive(Debug, Clone, Copy, PartialEq, Eq, Structural, PartialOrd, Ord, Hash)]
pub enum Dataset {
    CacheFit,
    CacheExceed,
}

/// The dataset that one of the accepted spellings of a `-d` argument names.
pub open spec fn dataset_from_arg(s: Seq<char>) -> Option<Dataset> {
    if s == "cache-fit"@ || s == "Cache Fit"@ || s == "CacheFit"@ {
        Some(Dataset::CacheFit)
    } else if s == "cache-exceed"@ || s == "Cache Exceed"@ || s == "CacheExceed"@ {
        Some(Dataset::CacheExceed)
    } else {
        None
    }
}

/// The dataset printed as `s`.
pub open spec fn dataset_named(s: Seq<char>) -> Option<Dataset> {
    if s == Dataset::CacheFit.display() {
        Some(Dataset::CacheFit)
    } else if s == Dataset::CacheExceed.display() {
        Some(Dataset::CacheExceed)
    } else {
        None
    }
}

impl Dataset {
    /// The dataset's printed name.
    pub open spec fn display(self) -> Seq<char> {
        match self {
            Dataset::CacheFit => "Cache Fit"@,
            Dataset::CacheExceed => "Cache Exceed"@,
        }
    }

    /// The argument that selects the dataset on a TeeBench command line.
    pub open spec fn cmd_arg(self) -> Seq<char> {
        match self {
            Dataset::CacheFit => "cache-fit"@,
            Dataset::CacheExceed => "cache-exceed"@,
        }
    }

    /// The dataset's printed name.
    pub fn to_string(&self) -> (s: String)
        ensures
            s@ == self.display(),
    {
        match self {
            Dataset::CacheFit => String::from_str("Cache Fit"),
            Dataset::CacheExceed => String::from_str("Cache Exceed"),
        }
    }

    /// Reads a dataset by its printed name.
    pub fn from_str(s: &str) -> (r: Result<Dataset, ParseError>)
        ensures
            r is Ok <==> dataset_named(s@) is Some,
            r matches Ok(d) ==> dataset_named(s@) == Some(d),
            r matches Err(e) ==> e == ParseError::VariantNotFound,
    {
        if str_eq(s, "Cache Fit") {
            Ok(Dataset::CacheFit)
        } else if str_eq(s, "Cache Exceed") {
            Ok(Dataset::CacheExceed)
        } else {
            Err(ParseError::VariantNotFound)
        }
    }

    /// The dataset's variant name.
    pub open spec fn debug_name(self) -> Seq<char> {
        match self {
            Dataset::CacheFit => "CacheFit"@,
            Dataset::CacheExceed => "CacheExceed"@,
        }
    }

    /// The dataset's variant name.
    pub fn to_debug_string(&self) -> (s: String)
        ensures
            s@ == self.debug_name(),
    {
        match self {
            Dataset::CacheFit => String::from_str("CacheFit"),
            Dataset::CacheExceed => String::from_str("CacheExceed"),
        }
    }

    /// The argument that selects the dataset on a TeeBench command line.
    pub fn to_cmd_arg(&self) -> (s: String)
        ensures
            s@ == self.cmd_arg(),
    {
        match self {
            Dataset::CacheFit => String::from_str("cache-fit"),
            Dataset::CacheExceed => String::from_str("cache-exceed"),
        }
    }

    /// Reads a dataset from a command line argument, its printed name or its variant name.
    pub fn from_cmd_arg(string: &str) -> (r: Result<Self, &'static str>)
        ensures
            r is Ok <==> dataset_from_arg(string@) is Some,
            r matches Ok(d) ==> dataset_from_arg(string@) == Some(d),
            r matches Err(m) ==> m@ == "Dataset can only be Cache Fit or Cache Exceed!"@,
    {
        if str_eq(string, "cache-fit") || str_eq(string, "Cache Fit") || str_eq(string, "CacheFit") {
            Ok(Dataset::CacheFit)
        } else if str_eq(string, "cache-exceed") || str_eq(string, "Cache Exceed") || str_eq(
            string,
            "CacheExceed",
        ) {
            Ok(Dataset::CacheExceed)
        } else {
            Err("Dataset can only be Cache Fit or Cache Exceed!")
        }
    }
}

impl Default for Dataset {
    fn default() -> (r: Self)
        ensures
            r == Dataset::CacheFit,
    {
        Dataset::CacheFit
    }
}

/// Whether TeeBench runs inside an SGX enclave or natively.
#[derive(Debug, Clone, Copy, PartialEq, Eq, Structural, PartialOrd, Ord, Hash)]
pub enum Platform {
    Sgx,
    Native,
}

/// The platform that an executable of the given file name simulates.
pub open spec fn platform_of_app(s: Seq<char>) -> Option<Platform> {
    if s == "fake_teebench"@ || s == "sgx"@ || s == "app"@ {
        Some(Platform::Sgx)
    } else if s == "native"@ {
        Some(Platform::Native)
    } else {
        None
    }
}

impl Platform {
    /// The platform's printed name.
    pub open spec fn display(self) -> Seq<char> {
        match self {
            Platform::Sgx => "SGX"@,
            Platform::Native => "Native"@,
        }
    }

    /// The path, relative to the binary folder, of the TeeBench executable for the platform.
    pub open spec fn app_name(self) -> Seq<char> {
        match self {
            Platform::Sgx => "./sgx"@,
            Platform::Native => "./native"@,
        }
    }

    /// The platform's printed name.
    pub fn to_string(&self) -> (s: String)
        ensures
            s@ == self.display(),
    {
        match self {
            Platform::Sgx => String::from_str("SGX"),
            Platform::Native => String::from_str("Native"),
        }
    }

    /// The platform that an executable of the file name `s` simulates.
    pub fn from_app_name(s: &str) -> (r: Result<Self, String>)
        ensures
            r is Ok <==> platform_of_app(s@) is Some,
            r matches Ok(p) ==> platform_of_app(s@) == Some(p),
            r matches Err(m) ==> m@ == "Platform cannot be "@ + s@,
    {
        if str_eq(s, "fake_teebench") || str_eq(s, "sgx") || str_eq(s, "app") {
            Ok(Platform::Sgx)
        } else if str_eq(s, "native") {
            Ok(Platform::Native)
        } else {
            Err(String::from_str("Platform cannot be ").concat(s))
        }
    }

    /// The platform's variant name.
    pub open spec fn debug_name(self) -> Seq<char> {
        match self {
            Platform::Sgx => "Sgx"@,
            Platform::Native => "Native"@,
        }
    }

    /// The platform's variant name.
    pub fn to_debug_string(&self) -> (s: String)
        ensures
            s@ == self.debug_name(),
    {
        match self {
            Platform::Sgx => String::from_str("Sgx"),
            Platform::Native => String::from_str("Native"),
        }
    }

    /// The path, relative to the binary folder, of the TeeBench executable for the platform.
    pub fn to_app_name(&self) -> (s: String)
        ensures
            s@ == self.app_name(),
    {
        match self {
            Platform::Sgx => String::from_str("./sgx"),
            Platform::Native => String::from_str("./native"),
        }
    }
}

/// The final component of `path`, as `std::path::Path::file_name` finds it; `None` where
/// the path has none.
pub uninterp spec fn path_file_name(path: Seq<char>) -> Option<Seq<char>>;

/// Calls `std::path::Path::file_name` on `path`. Claimed: the outcome is a function of the
/// path's text alone, named `path_file_name`; the component of a path given as text is
/// text again. Which component it is, is not stated.
#[verifier::external_body]
fn file_name(path: &str) -> (r: Option<String>)
    ensures
        match r {
            Some(n) => path_file_name(path@) == Some(n@),
            None => path_file_name(path@) is None,
        },
{
    std::path::Path::new(path).file_name().and_then(|n| n.to_str()).map(String::from)
}

/// The platform an executable of the given file name simulates: the recognised names
/// as `from_app_name` reads them, SGX for any other.
pub open spec fn platform_for_name(name: Seq<char>) -> Platform {
    match platform_of_app(name) {
        Some(p) => p,
        None => Platform::Sgx,
    }
}

impl Platform {
    /// The platform an executable of the file name `name` simulates; SGX for a name that
    /// is not recognised.
    pub fn for_file_name(name: &str) -> (r: Platform)
        ensures
            r == platform_for_name(name@),
    {
        match Platform::from_app_name(name) {
            Ok(p) => p,
            Err(_) => Platform::Sgx,
        }
    }

    /// The platform that the program started as `arg0` simulates, by the file name of
    /// that path; `None` where the path has no file name.
    pub fn arg0_to_platform(arg0: &str) -> (r: Option<Platform>)
        ensures
            r == match path_file_name(arg0@) {
                Some(n) => Some(platform_for_name(n)),
                None => None,
            },
    {
        match file_name(arg0) {
            Some(n) => Some(Platform::for_file_name(n.as_str())),
            None => None,
        }
    }
}

/// The platform printed as `s`.
pub open spec fn platform_named(s: Seq<char>) -> Option<Platform> {
    if s == Platform::Sgx.display() {
        Some(Platform::Sgx)
    } else if s == Platform::Native.display() {
        Some(Platform::Native)
    } else {
        None
    }
}

impl Platform {
    /// Reads a platform by its printed name.
    pub fn from_str(s: &str) -> (r: Result<Platform, ParseError>)
        ensures
            r is Ok <==> platform_named(s@) is Some,
            r matches Ok(v) ==> platform_named(s@) == Some(v),
            r matches Err(e) ==> e == ParseError::VariantNotFound,
    {
        if str_eq(s, "SGX") {
            Ok(Platform::Sgx)
        } else if str_eq(s, "Native") {
            Ok(Platform::Native)
        } else {
            Err(ParseError::VariantNotFound)
        }
    }
}

impl Default for Platform {
    fn default() -> (r: Self)
        ensures
            r == Platform::Sgx,
    {
        Platform::Sgx
    }
}


/// How a finding is to be read: neutral, good, so-so or bad news.
#[derive(Debug, Clone, Copy, PartialEq, Eq, Structural, Hash)]
pub enum FindingStyle {
    Neutral,
    Good,
    SoSo,
    Bad,
}

impl Default for FindingStyle {
    fn default() -> (r: Self)
        ensures
            r == FindingStyle::Neutral,
    {
        FindingStyle::Neutral
    }
}

/// An observation about the results of an experiment.
#[derive(Debug, Clone, PartialEq, Eq, Hash)]
pub struct Finding {
    pub title: String,
    pub message: String,
    pub style: FindingStyle,
}

impl Finding {
    /// A finding with the given title, message and style.
    pub fn new(title: &str, message: &str, style: FindingStyle) -> (r: Self)
        ensures
            r.title@ == title@,
            r.message@ == message@,
            r.style == style,
    {
        Finding { title: String::from_str(title), message: String::from_str(message), style }
    }
}

/// State of the compilation of a commit.
#[derive(Debug, Clone, PartialEq, Eq)]
pub enum CompilationStatus {
    Uncompiled,
    Compiling,
    Successful(String),
    Failed(String),
}

/// One experiment of a performance report.
#[derive(Debug, Clone, Copy, PartialEq, Eq, Structural)]
pub struct PerfReportConfig {
    pub id: CommitIdType,
    pub exp_type: ExperimentType,
    pub dataset: Dataset,
    pub baseline: Algorithm,
}

impl PerfReportConfig {
    /// The throughput experiments of commit `id` against `baseline`, on the dataset
    /// that fits the cache and on the one that exceeds it.
    pub fn for_throughput(id: CommitIdType, baseline: Algorithm) -> (r: (Self, Self))
        ensures
            r.0 == (PerfReportConfig { id, exp_type: ExperimentType::Throughput, dataset: Dataset::CacheFit, baseline }),
            r.1 == (PerfReportConfig { id, exp_type: ExperimentType::Throughput, dataset: Dataset::CacheExceed, baseline }),
    {
        (
            Self { id, exp_type: ExperimentType::Throughput, dataset: Dataset::CacheFit, baseline },
            Self { id, exp_type: ExperimentType::Throughput, dataset: Dataset::CacheExceed, baseline },
        )
    }

    /// The scalability experiments of commit `id` against `baseline`, on the dataset
    /// that fits the cache and on the one that exceeds it.
    pub fn for_scalability(id: CommitIdType, baseline: Algorithm) -> (r: (Self, Self))
        ensures
            r.0 == (PerfReportConfig { id, exp_type: ExperimentType::Scalability, dataset: Dataset::CacheFit, baseline }),
            r.1 == (PerfReportConfig { id, exp_type: ExperimentType::Scalability, dataset: Dataset::CacheExceed, baseline }),
    {
        (
            Self { id, exp_type: ExperimentType::Scalability, dataset: Dataset::CacheFit, baseline },
            Self { id, exp_type: ExperimentType::Scalability, dataset: Dataset::CacheExceed, baseline },
        )
    }
}

/// The arguments of one TeeBench run, with TeeBench's defaults for those not given.
#[derive(Debug, Clone, PartialEq, Eq, PartialOrd, Ord, Hash)]
pub struct TeebenchArgs {
    /// The platform the run simulates.
    pub app_name: Platform,
    /// `-d`: the predefined dataset.
    pub dataset: Dataset,
    /// `-a`: the join algorithm.
    pub algorithm: Algorithm,
    /// `-n`: number of threads.
    pub threads: u8,
    /// `-l`: join selectivity, in percent.
    pub selectivity: u8,
    /// `-z`: data skew.
    pub data_skew: u32,
    /// `-c`: seal chunk size in kB; `0` seals everything at once.
    pub seal_chunk_size: u32,
    /// `-r`: number of tuples of relation R.
    pub r_tuples: u32,
    /// `-s`: number of tuples of relation S.
    pub s_tuples: u32,
    /// `-t`: file to build relation R from.
    pub r_path: Option<String>,
    /// `-u`: file to build relation S from.
    pub s_path: Option<String>,
    /// `-x`: size of R in MB.
    pub r_size: Option<u32>,
    /// `-y`: size of S in MB.
    pub s_size: Option<u32>,
    /// `--seal`: seal the join input.
    pub seal: bool,
    /// `--sort-r`: pre-sort relation R.
    pub sort_r: bool,
    /// `--sort-s`: pre-sort relation S.
    pub sort_s: bool,
    /// `--csv`: print only CSV.
    pub csv: bool,
}

impl TeebenchArgs {
    /// Whether every field except the platform, dataset and algorithm holds TeeBench's default
    /// (with CSV output on).
    pub open spec fn has_default_settings(self) -> bool {
        &&& self.threads == 2
        &&& self.selectivity == 100
        &&& self.data_skew == 0
        &&& self.seal_chunk_size == 0
        &&& self.r_tuples == 2097152
        &&& self.s_tuples == 2097152
        &&& self.r_path is None
        &&& self.s_path is None
        &&& self.r_size is None
        &&& self.s_size is None
        &&& !self.seal
        &&& !self.sort_r
        &&& !self.sort_s
        &&& self.csv
    }

    /// The arguments of a default throughput run of `algorithm` on `app_name` and `dataset`.
    pub fn for_throughput(algorithm: Algorithm, app_name: Platform, dataset: Dataset) -> (r: Self)
        ensures
            r.algorithm == algorithm,
            r.app_name == app_name,
            r.dataset == dataset,
            r.has_default_settings(),
    {
        TeebenchArgs {
            app_name,
            dataset,
            algorithm,
            threads: 2,
            selectivity: 100,
            data_skew: 0,
            seal_chunk_size: 0,
            r_tuples: 2097152,
            s_tuples: 2097152,
            r_path: None,
            s_path: None,
            r_size: None,
            s_size: None,
            seal: false,
            sort_r: false,
            sort_s: false,
            csv: true,
        }
    }
}

impl Default for TeebenchArgs {
    fn default() -> (r: Self)
        ensures
            r.app_name == Platform::Sgx,
            r.dataset == Dataset::CacheFit,
            r.algorithm == Algorithm::Rho,
            r.has_default_settings(),
    {
        TeebenchArgs::for_throughput(Algorithm::Rho, Platform::Sgx, Dataset::CacheFit)
    }
}

/// One chart of a report: what was run, the raw results of each run and what was found in them.
#[derive(Debug, Clone, PartialEq)]
pub struct ExperimentChart {
    pub config: JobConfig,
    pub results: Vec<(TeebenchArgs, HashMap<String, String>)>,
    pub findings: Vec<Finding>,
}

impl ExperimentChart {
    /// A chart made of the given parts.
    pub fn new(
        config: JobConfig,
        results: Vec<(TeebenchArgs, HashMap<String, String>)>,
        findings: Vec<Finding>,
    ) -> (r: Self)
        ensures
            r.config == config,
            r.results == results,
            r.findings == findings,
    {
        Self { config, results, findings }
    }
}

/// The charts of an experiment and the findings shown above them.
#[derive(Debug, Clone, PartialEq)]
pub struct Report {
    pub charts: Vec<ExperimentChart>,
    pub findings: Vec<Finding>,
}

/// What a finished job produced.
#[derive(Debug, PartialEq)]
pub enum JobResult {
    Exp(Result<Report, TeeBenchWebError>),
    Compile(Result<String, String>),
}

/// Whether a job waits in the queue or has finished, with how long it ran and what it produced.
#[derive(Debug, PartialEq)]
pub enum JobStatus {
    Waiting,
    Done { runtime: Duration, result: JobResult },
}

impl Default for JobStatus {
    fn default() -> (r: Self)
        ensures
            r is Waiting,
    {
        JobStatus::Waiting
    }
}

/// A job submitted by a client.
#[derive(Debug, PartialEq)]
pub struct Job {
    pub config: JobConfig,
    pub submitted: DateTime,
    pub status: JobStatus,
}

impl Default for Job {
    /// A waiting profiling job with the default configuration, submitted now.
    fn default() -> (r: Self)
        ensures
            r.config matches JobConfig::Profiling(c) && c.is_default(),
            r.submitted.offset_seconds == 0,
            r.submitted.valid(),
            r.status is Waiting,
    {
        Job { config: JobConfig::default(), submitted: now_utc(), status: JobStatus::default() }
    }
}

/// Messages from the server to a client.
#[derive(Debug, PartialEq)]
pub enum ServerMessage {
    /// The job at the front of the queue has finished: the client removes it from its
    /// queue and keeps its result.
    RemoveQueueItem(Job),
}

/// Messages from a client to the server.
#[derive(Debug, Clone, Copy, PartialEq, Eq, Structural)]
pub enum ClientMessage {
    RequestClear,
    Acknowledge,
}

} // verus!
