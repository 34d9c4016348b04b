//! Command synthesis and job supervision rules for batch video re-encoding
//! with `ffmpeg` and `ffprobe`.
//!
//! The library decides; its caller acts. It reads the filter and modifier
//! catalogs from tab-separated text, turns a selection of options into the
//! argument lists of the external tools, decides from a probe report
//! whether a file was processed before, and steps a job through its passes
//! from the outcomes that the caller reports. It starts no process and
//! touches no file.
//!
//! - [`models`]: catalog entries and per-job options.
//! - [`catalog`]: the two tables and their defaults.
//! - [`probe`]: the status of a file from the probe tool's report.
//! - [`ordering`]: the order in which selected filters apply.
//! - [`modifiers`]: what selected modifiers contribute to a command.
//! - [`quoting`]: paths inside single-quoted filter arguments.
//! - [`naming`]: output and temporary file names, and the record of the
//!   options.
//! - [`command`]: the argument lists of the detection pass, the main pass
//!   and the remux that marks the original.
//! - [`session`]: the record of the running process and the life-cycle of
//!   one supervised run.
//! - [`job`]: the sequence of one job.
//! - [`transfer`]: moving a finished file to its place.
//! - [`preview`]: a still picture as a data URL.
//! - [`failure`]: what can go wrong.
//! - [`text`], [`decimal`]: character sequences and decimal notation.

pub mod catalog;
pub mod command;
pub mod decimal;
pub mod failure;
pub mod job;
pub mod models;
pub mod modifiers;
pub mod naming;
pub mod ordering;
pub mod preview;
pub mod probe;
pub mod quoting;
pub mod session;
pub mod text;
pub mod transfer;
