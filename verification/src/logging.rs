//! Logging set-up decisions.

use vstd::prelude::*;
use crate::config::LoggingConfig;
use crate::text::{str_equals, str_uppercase, to_uppercase};

verus! {

/// A logging threshold, from silent to most verbose.
#[derive(Debug, Clone, Copy, PartialEq, Eq)]
pub enum LevelKind {
    Off,
    Error,
    Warn,
    Info,
    Debug,
    Trace,
}

/// The level an uppercased level name stands for; unknown names mean
/// `Info`.
pub open spec fn spec_level_from_uppercase(s: Seq<char>) -> LevelKind {
    if s == "TRACE"@ {
        LevelKind::Trace
    } else if s == "DEBUG"@ {
        LevelKind::Debug
    } else if s == "INFO"@ {
        LevelKind::Info
    } else if s == "WARN"@ || s == "WARNING"@ {
        LevelKind::Warn
    } else if s == "ERROR"@ {
        LevelKind::Error
    } else {
        LevelKind::Info
    }
}

/// Reads an uppercased level name.
pub fn level_from_uppercase(upper: &str) -> (r: LevelKind)
    ensures
        r == spec_level_from_uppercase(upper@),
{
    if str_equals(upper, "TRACE") {
        LevelKind::Trace
    } else if str_equals(upper, "DEBUG") {
        LevelKind::Debug
    } else if str_equals(upper, "INFO") {
        LevelKind::Info
    } else if str_equals(upper, "WARN") || str_equals(upper, "WARNING") {
        LevelKind::Warn
    } else if str_equals(upper, "ERROR") {
        LevelKind::Error
    } else {
        LevelKind::Info
    }
}

/// Reads a level name in any case; unknown names mean `Info`.
pub fn parse_level(s: &str) -> (r: LevelKind)
    ensures
        r == spec_level_from_uppercase(str_uppercase(s@)),
{
    let upper = to_uppercase(s);
    level_from_uppercase(upper.as_str())
}

/// What the logger is set up with: the console level, the file level, and
/// the directory log files go to, if any.
#[derive(Debug, Clone, PartialEq, Eq)]
pub struct LoggingPlan {
    pub stdout_level: LevelKind,
    pub fileout_level: LevelKind,
    pub file_dir: Option<String>,
}

/// Decides the logger set-up: the configured level on the console, and on
/// file into `log_dir` when logging to file, file logging off otherwise.
pub fn logging_plan(cfg: &LoggingConfig) -> (r: LoggingPlan)
    ensures
        r.stdout_level == spec_level_from_uppercase(str_uppercase(cfg.log_level@)),
        r.fileout_level == if cfg.log_to_file { r.stdout_level } else { LevelKind::Off },
        cfg.log_to_file ==> (r.file_dir matches Some(d) && d@ == cfg.log_dir@),
        !cfg.log_to_file ==> r.file_dir is None,
{
    let level = parse_level(cfg.log_level.as_str());
    if cfg.log_to_file {
        LoggingPlan { stdout_level: level, fileout_level: level, file_dir: Some(cfg.log_dir.clone()) }
    } else {
        LoggingPlan { stdout_level: level, fileout_level: LevelKind::Off, file_dir: None }
    }
}

} // verus!
