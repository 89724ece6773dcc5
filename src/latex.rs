//! The per-revision processing chain: which external program runs, with
//! which arguments and in which directory, and what its exit status means.
use vstd::prelude::*;

use crate::error::{Error, ErrorKind};
use crate::paths::{
    extension_of, file_name_of, has_extension, join, join_of, lemma_last_index, parent, parent_of,
    with_extension, with_extension_of,
};

verus! {

/// The typesetting engine that compiles documents.
#[derive(Copy, Clone, PartialEq, Eq, Structural, PartialOrd, Ord, Debug)]
pub enum Engine {
    Pdflatex,
    Xelatex,
    Lualatex,
}

/// The executable of an engine.
pub open spec fn engine_binary(e: Engine) -> Seq<char> {
    match e {
        Engine::Pdflatex => "pdflatex"@,
        Engine::Xelatex => "xelatex"@,
        Engine::Lualatex => "lualatex"@,
    }
}

impl Engine {
    /// The executable of this engine.
    pub fn binary(&self) -> (r: String)
        ensures
            r@ == engine_binary(*self),
    {
        match self {
            Engine::Pdflatex => String::from_str("pdflatex"),
            Engine::Xelatex => String::from_str("xelatex"),
            Engine::Lualatex => String::from_str("lualatex"),
        }
    }
}

/// The text of each string of a sequence.
pub open spec fn texts(v: Seq<String>) -> Seq<Seq<char>> {
    v.map_values(|a: String| a@)
}

/// The files of `listing` with extension `ext`, in the order given.
pub open spec fn with_ext(listing: Seq<String>, ext: Seq<char>) -> Seq<String> {
    listing.filter(|p: String| extension_of(p@) == Some(ext))
}

/// One run of an external program.
pub struct ToolCall {
    pub program: String,
    pub args: Vec<String>,
    /// The working directory; `None` keeps the caller's.
    pub cwd: Option<String>,
    /// The file that receives standard output; `None` discards it.
    pub stdout: Option<String>,
}

/// A copy of `v`.
pub fn copy_texts(v: &Vec<String>) -> (r: Vec<String>)
    ensures
        r@ == v@,
{
    let mut r: Vec<String> = Vec::new();
    let mut i: usize = 0;
    while i < v.len()
        invariant
            i <= v@.len(),
            r@ == v@.subrange(0, i as int),
        decreases v@.len() - i,
    {
        r.push(v[i].clone());
        i = i + 1;
    }
    r
}

/// What an exit status means under the abort policy: a failure is fatal
/// exactly when the policy asks to abort on errors.
pub open spec fn verdict_of(task: Seq<char>, success: bool, abort_if_error: bool) -> Result<(), Seq<char>> {
    if !success && abort_if_error {
        Err(task)
    } else {
        Ok(())
    }
}

/// Whether `r` is the outcome that `verdict_of` gives for a task named `task`.
pub open spec fn is_verdict(r: Result<(), Error>, task: Seq<char>, success: bool, abort_if_error: bool) -> bool {
    match verdict_of(task, success, abort_if_error) {
        Ok(()) => r is Ok,
        Err(t) => (r matches Err(e) && (e.kind matches ErrorKind::CompileError(n) && n@ == t)),
    }
}

/// What the exit status of the program run for `task` means: an error
/// `CompileError(task)` when it failed and the policy asks to abort.
pub fn verdict(task: &str, success: bool, abort_if_error: bool) -> (r: Result<(), Error>)
    ensures
        is_verdict(r, task@, success, abort_if_error),
{
    if !success && abort_if_error {
        Err(Error::new(ErrorKind::CompileError(String::from_str(task))))
    } else {
        Ok(())
    }
}

/// The settings of one processing chain.
pub struct Config {
    pub project_dir: String,
    pub main_tex: String,
    pub abort_if_error: bool,
    pub engine: Engine,
}

/// Collects the settings of a processing chain.
pub struct ConfigBuilder {
    pub project_dir: String,
    pub main_tex: Option<String>,
    pub abort_if_error: bool,
    pub engine: Engine,
}

impl ConfigBuilder {
    /// A builder for a chain run in `project_dir`, with no main TeX file,
    /// failures tolerated, and pdfLaTeX as engine.
    pub fn new(project_dir: String) -> (r: ConfigBuilder)
        ensures
            r.project_dir == project_dir,
            r.main_tex is None,
            !r.abort_if_error,
            r.engine == Engine::Pdflatex,
    {
        ConfigBuilder { project_dir, main_tex: None, abort_if_error: false, engine: Engine::Pdflatex }
    }

    pub fn project_dir(self, dir: String) -> (r: Self)
        ensures
            r == (ConfigBuilder { project_dir: dir, ..self }),
    {
        ConfigBuilder { project_dir: dir, ..self }
    }

    pub fn main_tex(self, file: String) -> (r: Self)
        ensures
            r == (ConfigBuilder { main_tex: Some(file), ..self }),
    {
        ConfigBuilder { main_tex: Some(file), ..self }
    }

    pub fn abort_if_error(self, on: bool) -> (r: Self)
        ensures
            r == (ConfigBuilder { abort_if_error: on, ..self }),
    {
        ConfigBuilder { abort_if_error: on, ..self }
    }

    pub fn engine(self, engine: Engine) -> (r: Self)
        ensures
            r == (ConfigBuilder { engine, ..self }),
    {
        ConfigBuilder { engine, ..self }
    }

    /// The settings, with `found` as the main TeX file when none was given.
    pub fn build(self, found: String) -> (r: Config)
        ensures
            r.project_dir == self.project_dir,
            r.main_tex == (match self.main_tex {
                Some(m) => m,
                None => found,
            }),
            r.abort_if_error == self.abort_if_error,
            r.engine == self.engine,
    {
        let main_tex = match self.main_tex {
            Some(m) => m,
            None => found,
        };
        Config {
            project_dir: self.project_dir,
            main_tex,
            abort_if_error: self.abort_if_error,
            engine: self.engine,
        }
    }
}

/// The name under which the expansion writes when asked to write over its
/// own input: the same directory, the name prefixed by `_`.
pub open spec fn sibling_temp_of(out: Seq<char>) -> Seq<char> {
    join_of(parent_of(out), seq!['_'] + file_name_of(out))
}

/// The planned run of the expansion, and the rename that follows a successful run.
pub struct Expansion {
    pub call: ToolCall,
    /// The move of the temporary file over the requested output, when the
    /// expansion writes over its own input.
    pub rename: Option<(String, String)>,
}

/// The sibling temporary name of `out` never coincides with `out`.
pub proof fn lemma_sibling_temp_differs(out: Seq<char>)
    ensures
        sibling_temp_of(out) != out,
{
    lemma_last_index(out, '/');
    let k = last_index_slash(out);
    let name = file_name_of(out);
    let under = seq!['_'] + name;
    if k < 0 {
        assert(sibling_temp_of(out) =~= under);
        assert(name =~= out);
        assert(sibling_temp_of(out).len() == out.len() + 1);
    } else if k == 0 {
        assert(parent_of(out) =~= seq!['/']);
        assert(sibling_temp_of(out) =~= seq!['/'] + under);
        assert(sibling_temp_of(out).len() == out.len() + 1);
    } else {
        let p = parent_of(out);
        assert(p =~= out.subrange(0, k));
        if out[k - 1] == '/' {
            assert(sibling_temp_of(out) =~= p + under);
            assert(sibling_temp_of(out)[k] == '_');
            assert(out[k] == '/');
        } else {
            assert(sibling_temp_of(out) =~= p + seq!['/'] + under);
            assert(sibling_temp_of(out).len() == out.len() + 1);
        }
    }
}

spec fn last_index_slash(s: Seq<char>) -> int {
    crate::paths::last_index(s, '/')
}

/// `_` followed by `name`.
fn underscored(name: &str) -> (r: String)
    ensures
        r@ == seq!['_'] + name@,
{
    proof {
        reveal_strlit("_");
    }
    let mut r = String::from_str("_");
    r.append(name);
    r
}

/// One processing chain, run in its project directory.
pub struct LaTeX {
    pub config: Config,
}

impl LaTeX {
    /// The diff of the flattened documents `old` and `new`: the diff engine
    /// of `config` with the two files first, then the extra arguments of
    /// `config`, its standard output written to `out`. Its exit status is
    /// only reported: the engine fails on harmless warnings.
    pub fn diff(config: &crate::config::Config, old: &String, new: &String, out: &String) -> (r: ToolCall)
        ensures
            r.program == config.latexdiff_path,
            texts(r.args@) == seq![old@, new@] + texts(config.latexdiff_args@),
            r.cwd is None,
            r.stdout == Some(*out),
    {
        let mut args: Vec<String> = Vec::new();
        args.push(old.clone());
        args.push(new.clone());
        let extra = copy_texts(&config.latexdiff_args);
        let mut i: usize = 0;
        while i < extra.len()
            invariant
                i <= extra@.len(),
                extra@ == config.latexdiff_args@,
                texts(args@) == seq![old@, new@] + texts(extra@.subrange(0, i as int)),
            decreases extra@.len() - i,
        {
            let ghost prev = args@;
            args.push(extra[i].clone());
            proof {
                assert(texts(args@) =~= texts(prev).push(extra@[i as int]@));
                assert(texts(extra@.subrange(0, i + 1)) =~= texts(extra@.subrange(0, i as int)).push(
                    extra@[i as int]@,
                ));
            }
            i = i + 1;
        }
        assert(extra@.subrange(0, extra@.len() as int) =~= extra@);
        ToolCall { program: config.latexdiff_path.clone(), args, cwd: None, stdout: Some(out.clone()) }
    }

    pub fn new(config: Config) -> (r: LaTeX)
        ensures
            r.config == config,
    {
        LaTeX { config }
    }

    /// The files of `listing` whose extension is `ext`, in the order given.
    pub fn ext_finder(&self, listing: &Vec<String>, ext: &str) -> (r: Vec<String>)
        ensures
            r@ == with_ext(listing@, ext@),
    {
        let mut r: Vec<String> = Vec::new();
        let mut i: usize = 0;
        while i < listing.len()
            invariant
                i <= listing@.len(),
                r@ == with_ext(listing@.subrange(0, i as int), ext@),
            decreases listing@.len() - i,
        {
            proof {
                reveal(Seq::filter);
                let s1 = listing@.subrange(0, i + 1);
                assert(s1.drop_last() =~= listing@.subrange(0, i as int));
                assert(s1.last() == listing@[i as int]);
            }
            if has_extension(listing[i].as_str(), ext) {
                r.push(listing[i].clone());
            }
            i = i + 1;
        }
        proof {
            assert(listing@.subrange(0, listing@.len() as int) == listing@);
        }
        r
    }

    /// The typesetting run on `file`, or on the main TeX file when no file
    /// is given: interaction off, output in the project directory, the file
    /// last, run from the project directory, output discarded.
    pub fn pdflatex(&self, file: Option<&String>) -> (r: ToolCall)
        ensures
            r.program@ == engine_binary(self.config.engine),
            texts(r.args@) == seq![
                "-interaction"@,
                "nonstopmode"@,
                "-output-directory"@,
                self.config.project_dir@,
                (match file {
                    Some(f) => f@,
                    None => self.config.main_tex@,
                }),
            ],
            r.cwd == Some(self.config.project_dir),
            r.stdout is None,
    {
        let main_tex = match file {
            Some(f) => f.clone(),
            None => self.config.main_tex.clone(),
        };
        let mut args: Vec<String> = Vec::new();
        args.push(String::from_str("-interaction"));
        args.push(String::from_str("nonstopmode"));
        args.push(String::from_str("-output-directory"));
        args.push(self.config.project_dir.clone());
        args.push(main_tex);
        let r = ToolCall {
            program: self.config.engine.binary(),
            args,
            cwd: Some(self.config.project_dir.clone()),
            stdout: None,
        };
        assert(texts(r.args@) =~= seq![
            "-interaction"@,
            "nonstopmode"@,
            "-output-directory"@,
            self.config.project_dir@,
            r.args@[4]@,
        ]);
        r
    }

    /// The bibliography run on the auxiliary file `aux`, named without its
    /// extension, from the project directory, output discarded.
    pub fn bibtex(&self, aux: &String) -> (r: ToolCall)
        ensures
            r.program@ == "bibtex"@,
            texts(r.args@) == seq![with_extension_of(aux@, ""@)],
            r.cwd == Some(self.config.project_dir),
            r.stdout is None,
    {
        let mut args: Vec<String> = Vec::new();
        args.push(with_extension(aux.as_str(), ""));
        let r = ToolCall {
            program: String::from_str("bibtex"),
            args,
            cwd: Some(self.config.project_dir.clone()),
            stdout: None,
        };
        assert(texts(r.args@) =~= seq![with_extension_of(aux@, ""@)]);
        r
    }

    /// The expansion of `file` (the main TeX file when none is given) with
    /// the bibliography `bbl` into `out` (the main TeX file when none is
    /// given), run from the project directory. When `out` is `file` the
    /// program writes to a sibling temporary name, which is then renamed to `out`.
    pub fn expand(&self, file: Option<&String>, out: Option<&String>, bbl: &String) -> (r: Expansion)
        ensures
            ({
                let f = match file {
                    Some(f) => f@,
                    None => self.config.main_tex@,
                };
                let o = match out {
                    Some(o) => o@,
                    None => self.config.main_tex@,
                };
                let written = if f == o { sibling_temp_of(o) } else { o };
                &&& r.call.program@ == "latexpand"@
                &&& texts(r.call.args@) == seq![f, "--output"@, written, "--expand-bbl"@, bbl@]
                &&& r.call.cwd == Some(self.config.project_dir)
                &&& r.call.stdout is None
                &&& (f == o ==> (r.rename matches Some((from, to)) && from@ == written && to@ == o))
                &&& (f != o ==> r.rename is None)
            }),
    {
        let file = match file {
            Some(f) => f.clone(),
            None => self.config.main_tex.clone(),
        };
        let out = match out {
            Some(o) => o.clone(),
            None => self.config.main_tex.clone(),
        };
        let same = file == out;
        let written = if same {
            let name = crate::paths::file_name(out.as_str());
            let under = underscored(name.as_str());
            join(parent(out.as_str()).as_str(), under.as_str())
        } else {
            out.clone()
        };
        let mut args: Vec<String> = Vec::new();
        args.push(file.clone());
        args.push(String::from_str("--output"));
        args.push(written.clone());
        args.push(String::from_str("--expand-bbl"));
        args.push(bbl.clone());
        let call = ToolCall {
            program: String::from_str("latexpand"),
            args,
            cwd: Some(self.config.project_dir.clone()),
            stdout: None,
        };
        assert(texts(call.args@) =~= seq![file@, "--output"@, written@, "--expand-bbl"@, bbl@]);
        let rename = if same {
            Some((written, out))
        } else {
            None
        };
        Expansion { call, rename }
    }
}

} // verus!
