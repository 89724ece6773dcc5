//! The settings of one run, fixed before it starts.
use vstd::prelude::*;

use crate::error::{Error, ErrorKind};
use crate::latex::Engine;
use crate::paths::{join, join_of, parent, parent_of};
use crate::workspace::{fresh_scratch_root, scratch_root_of};

verus! {

/// The settings of one run.
#[derive(Debug)]
pub struct Config {
    pub repo_dir: String,
    pub tmp_dir: String,
    pub latexdiff_path: String,
    pub latexdiff_args: Vec<String>,
    pub output: String,
    /// The entry document, relative to each checked-out tree; searched for when absent.
    pub main_tex: Option<String>,
    pub new: Option<String>,
    pub old: Option<String>,
    pub no_clean: bool,
    pub abort_if_error: bool,
    pub engine: Engine,
}

/// Collects the settings of a run.
#[derive(Debug)]
pub struct ConfigBuilder {
    pub cwd: String,
    pub repo_dir: String,
    pub tmp_dir: Option<String>,
    pub latexdiff_path: Option<String>,
    pub latexdiff_args: Vec<String>,
    pub output: String,
    pub main_tex: Option<String>,
    pub new: Option<String>,
    pub old: Option<String>,
    pub no_clean: bool,
    pub abort_if_error: bool,
    pub engine: Engine,
}

/// The directory that a path given for a directory stands for: its parent
/// when it names a file.
pub open spec fn dir_of(path: Seq<char>, is_file: bool) -> Seq<char> {
    if is_file {
        parent_of(path)
    } else {
        path
    }
}

impl ConfigBuilder {
    /// Settings for a run started in `cwd`: the repository searched from
    /// `cwd`, the result written to `cwd/diff.pdf`, nothing else given.
    pub fn new(cwd: String) -> (r: ConfigBuilder)
        ensures
            r.cwd == cwd,
            r.repo_dir == cwd,
            r.tmp_dir is None,
            r.latexdiff_path is None,
            r.latexdiff_args@.len() == 0,
            r.output@ == join_of(cwd@, "diff.pdf"@),
            r.main_tex is None,
            r.new is None,
            r.old is None,
            !r.no_clean,
            !r.abort_if_error,
            r.engine == Engine::Pdflatex,
    {
        let output = join(cwd.as_str(), "diff.pdf");
        ConfigBuilder {
            repo_dir: cwd.clone(),
            cwd,
            tmp_dir: None,
            latexdiff_path: None,
            latexdiff_args: Vec::new(),
            output,
            main_tex: None,
            new: None,
            old: None,
            no_clean: false,
            abort_if_error: false,
            engine: Engine::Pdflatex,
        }
    }

    /// The directory to search for the repository from: `path`, or its
    /// parent when it names a file.
    pub fn repo_dir(self, path: String, is_file: bool) -> (r: Self)
        ensures
            r == (ConfigBuilder { repo_dir: r.repo_dir, ..self }),
            r.repo_dir@ == dir_of(path@, is_file),
    {
        let dir = if is_file {
            parent(path.as_str())
        } else {
            path
        };
        ConfigBuilder { repo_dir: dir, ..self }
    }

    /// The scratch root: `build/tmp/git_latexdiff_<seconds now>` under
    /// `path`, or under its parent when it names a file.
    pub fn tmp_dir(self, path: String, is_file: bool) -> (r: Self)
        ensures
            r == (ConfigBuilder { tmp_dir: r.tmp_dir, ..self }),
            r.tmp_dir matches Some(t) && exists|stamp: i64| t@ == scratch_root_of(
                dir_of(path@, is_file),
                stamp as int,
            ),
    {
        let dir = if is_file {
            parent(path.as_str())
        } else {
            path
        };
        let root = fresh_scratch_root(dir.as_str());
        proof {
            let stamp = choose|s: i64| root@ == scratch_root_of(dir@, s as int);
            assert(root@ == scratch_root_of(dir_of(path@, is_file), stamp as int));
        }
        ConfigBuilder { tmp_dir: Some(root), ..self }
    }

    /// The diff engine: the path given, else the one found on `$PATH`.
    pub fn latexdiff_path(self, given: Option<String>, on_path: Option<String>) -> (r: Self)
        ensures
            r == (ConfigBuilder { latexdiff_path: r.latexdiff_path, ..self }),
            r.latexdiff_path == (match given {
                Some(g) => Some(g),
                None => on_path,
            }),
    {
        let chosen = match given {
            Some(g) => Some(g),
            None => on_path,
        };
        ConfigBuilder { latexdiff_path: chosen, ..self }
    }

    pub fn latexdiff_args(self, args: Vec<String>) -> (r: Self)
        ensures
            r == (ConfigBuilder { latexdiff_args: args, ..self }),
    {
        ConfigBuilder { latexdiff_args: args, ..self }
    }

    pub fn main_tex(self, path: Option<String>) -> (r: Self)
        ensures
            r == (ConfigBuilder { main_tex: path, ..self }),
    {
        ConfigBuilder { main_tex: path, ..self }
    }

    pub fn new_hash(self, hash: Option<String>) -> (r: Self)
        ensures
            r == (ConfigBuilder { new: hash, ..self }),
    {
        ConfigBuilder { new: hash, ..self }
    }

    pub fn old_hash(self, hash: Option<String>) -> (r: Self)
        ensures
            r == (ConfigBuilder { old: hash, ..self }),
    {
        ConfigBuilder { old: hash, ..self }
    }

    pub fn no_clean(self, on: bool) -> (r: Self)
        ensures
            r == (ConfigBuilder { no_clean: on, ..self }),
    {
        ConfigBuilder { no_clean: on, ..self }
    }

    pub fn abort_if_error(self, on: bool) -> (r: Self)
        ensures
            r == (ConfigBuilder { abort_if_error: on, ..self }),
    {
        ConfigBuilder { abort_if_error: on, ..self }
    }

    pub fn engine(self, engine: Engine) -> (r: Self)
        ensures
            r == (ConfigBuilder { engine, ..self }),
    {
        ConfigBuilder { engine, ..self }
    }

    /// Where the result goes: `path` itself, or `path/diff.pdf` when it
    /// names a directory.
    pub fn output(self, path: String, is_dir: bool) -> (r: Self)
        ensures
            r == (ConfigBuilder { output: r.output, ..self }),
            r.output@ == (if is_dir {
                join_of(path@, "diff.pdf"@)
            } else {
                path@
            }),
    {
        let out = if is_dir {
            join(path.as_str(), "diff.pdf")
        } else {
            path
        };
        ConfigBuilder { output: out, ..self }
    }

    /// The settings; `BinaryNotFound("latexdiff")` when no diff engine is
    /// known. Without a scratch root one is made under the starting directory.
    pub fn build(self) -> (r: Result<Config, Error>)
        ensures
            self.latexdiff_path is None ==> (r matches Err(e) && e.kind matches ErrorKind::BinaryNotFound(n)
                && n@ == "latexdiff"@),
            self.latexdiff_path matches Some(p) ==> (r matches Ok(c) && c.latexdiff_path == p
                && c.repo_dir == self.repo_dir && c.output == self.output && c.main_tex
                == self.main_tex && c.new == self.new && c.old == self.old && c.no_clean
                == self.no_clean && c.abort_if_error == self.abort_if_error && c.engine
                == self.engine && c.latexdiff_args == self.latexdiff_args && (match self.tmp_dir {
                Some(t) => c.tmp_dir == t,
                None => exists|stamp: i64| c.tmp_dir@ == scratch_root_of(self.cwd@, stamp as int),
            })),
    {
        let latexdiff_path = match self.latexdiff_path {
            Some(p) => p,
            None => {
                return Err(Error::new(ErrorKind::BinaryNotFound(String::from_str("latexdiff"))));
            },
        };
        let tmp_dir = match self.tmp_dir {
            Some(t) => t,
            None => fresh_scratch_root(self.cwd.as_str()),
        };
        Ok(Config {
            repo_dir: self.repo_dir,
            tmp_dir,
            latexdiff_path,
            latexdiff_args: self.latexdiff_args,
            output: self.output,
            main_tex: self.main_tex,
            new: self.new,
            old: self.old,
            no_clean: self.no_clean,
            abort_if_error: self.abort_if_error,
            engine: self.engine,
        })
    }
}

} // verus!
