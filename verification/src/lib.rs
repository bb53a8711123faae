//! Evaluates the quality of a software project by running a set of
//! independent checks — static lint analysis, license compliance, code
//! measures — normalizing each check's findings into a comparable score, and
//! aggregating the scores into one report.
//!
//! Each check follows the same four-phase protocol: collect the raw data an
//! external engine produced, classify it into counted findings, score the
//! tallies against configurable thresholds with bounded subtraction and
//! weight normalization, and merge the score into its slot of the aggregate
//! report. The engines themselves — the lint tool, the dependency-graph and
//! license-resolution machinery, the code-metrics analyzer — stay outside
//! the library: callers hand their output in as plain values, and a failed
//! engine degrades its check's slot to absent instead of aborting the run.

pub mod check_item;
pub mod command;
pub mod config;
pub mod project;
pub mod result;
pub mod scoring;
pub mod text;
pub mod toolchains;
