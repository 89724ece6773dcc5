//! The command line, as plain values.
use vstd::prelude::*;

use crate::latex::Engine;
use crate::logger::LogLevel;

verus! {

/// The options of one invocation.
pub struct Args {
    /// Commit hash of newer version.
    pub new: Option<String>,
    /// Commit hash of older version.
    pub old: Option<String>,
    /// The engine that compiles the documents.
    pub engine: Option<Engine>,
    /// The directory for intermediate files.
    pub tmp_dir: Option<String>,
    /// The directory from which the git repository is searched upwards.
    pub repo_dir: Option<String>,
    /// The TeX file to compile; searched for when absent.
    pub main_tex: Option<String>,
    /// Where the diff goes.
    pub output: Option<String>,
    /// Keep the intermediate files.
    pub no_clean: bool,
    pub log_level: LogLevel,
    /// The diff engine; looked up on `$PATH` when absent.
    pub latexdiff_path: Option<String>,
    /// Only report which external programs are present.
    pub health_check: bool,
    /// Stop at the first failing program.
    pub abort_if_error: bool,
}

} // verus!
