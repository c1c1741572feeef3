//! Verified core of a regression-testing driver: it decides which
//! regressions a request selects, reads their `config.yaml` settings and
//! steps through the checks, commands and comparisons of one regression,
//! while the program around it performs the file and process work.

pub mod text;
pub mod yaml;
pub mod tags;
pub mod config;
pub mod session;
pub mod selection;
pub mod report;
pub mod batch;
pub mod world;
