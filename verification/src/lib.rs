//! Verified core of a web front end for the TeeBench benchmark suite:
//! the experiment configuration model, the command lines it expands into,
//! the argument grammar those command lines are read back with, and the
//! bookkeeping around commits, jobs and cached results.

pub mod text;
pub mod data_types;
pub mod commandline;
pub mod profiling;
pub mod args;
pub mod hardcoded;
pub mod predefined;
pub mod commit;
pub mod datetime;
pub mod caching;
pub mod output;
pub mod runner;
pub mod queue;
pub mod laws;
pub mod findings;
