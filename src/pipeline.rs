//! The run from two revisions to one compiled diff, as a machine: each
//! stage names the outside work to do next (`Pipeline::action`), and the
//! outcome of that work decides the next stage (`Pipeline::advance`).
//! Stages only move forward; any failure leads to the teardown of the
//! workspace, which runs once.
use vstd::prelude::*;

use crate::config::Config;
use crate::error::{Error, ErrorKind};
use crate::latex::{engine_binary, texts, verdict, with_ext, Config as TexConfig, LaTeX, ToolCall};
use crate::locate::{guess_main_tex, guess_of, main_searcher, marked_paths, SourceFile};
use crate::paths::{is_inside_path, stays_inside, join, join_of, parent, parent_of, with_extension, with_extension_of};
use crate::revision::{CommitWrapper, RevisionSpec};
use crate::workspace::{covers, lemma_join_stays_within, lemma_tree_not_empty, unsafe_root, Workspace};

verus! {

/// One of the two revisions.
#[derive(Copy, Clone, PartialEq, Eq, Structural, Debug)]
pub enum Side {
    Old,
    New,
}

/// Where a run stands.
#[derive(Copy, Clone, PartialEq, Eq, Structural, Debug)]
pub enum Stage {
    /// Create the two trees of the workspace.
    Prepare,
    /// Resolve the revision of a side.
    Resolve(Side),
    /// Check a side's snapshot out into its tree.
    Checkout(Side),
    /// Search a side's tree for its entry document.
    Locate(Side),
    /// Typeset a side's entry document once, for its auxiliary files.
    Typeset(Side),
    /// Look for a side's auxiliary file.
    FindAux(Side),
    /// Run the bibliography on a side's auxiliary file.
    Bibtex(Side),
    /// Look for a side's resolved bibliography.
    FindBbl(Side),
    /// Flatten a side's entry document.
    Expand(Side),
    /// Move the flattened document over the entry document.
    Rename(Side),
    /// Diff the two flattened documents.
    Diff,
    /// Typeset the diff; the pass counts from 0 to 2.
    Compile(u8),
    /// Copy the compiled diff to the output.
    Copy,
    /// Remove the workspace.
    Teardown,
    /// Nothing is left but to exit.
    Done,
}

/// How the outcome of a stage's work moves the run.
#[derive(Copy, Clone, PartialEq, Eq, Structural, Debug)]
pub enum Signal {
    /// The work succeeded.
    Fine,
    /// A program failed and the policy lets the run go on.
    Tolerated,
    /// A file that a step needs is absent: the step is skipped.
    Skip,
    /// The run ends: on to the teardown.
    Failed,
}

/// How far a side's stages stand after those of the old side.
pub open spec fn side_offset(d: Side) -> int {
    if d == Side::Old {
        0
    } else {
        7
    }
}

/// The position of a stage in the order of a run.
pub open spec fn index_of(s: Stage) -> int {
    match s {
        Stage::Prepare => 0,
        Stage::Resolve(d) => if d == Side::Old { 1 } else { 2 },
        Stage::Checkout(d) => if d == Side::Old { 3 } else { 4 },
        Stage::Locate(d) => 5 + side_offset(d),
        Stage::Typeset(d) => 6 + side_offset(d),
        Stage::FindAux(d) => 7 + side_offset(d),
        Stage::Bibtex(d) => 8 + side_offset(d),
        Stage::FindBbl(d) => 9 + side_offset(d),
        Stage::Expand(d) => 10 + side_offset(d),
        Stage::Rename(d) => 11 + side_offset(d),
        Stage::Diff => 19,
        Stage::Compile(i) => 20 + (if i < 3 { i as int } else { 2 }),
        Stage::Copy => 23,
        Stage::Teardown => 24,
        Stage::Done => 25,
    }
}

/// The first stage of a side's processing: its typesetting when the entry
/// document is given, else the search for it.
pub open spec fn entry_stage(d: Side, explicit: bool) -> Stage {
    if explicit {
        Stage::Typeset(d)
    } else {
        Stage::Locate(d)
    }
}

/// The stage after a side's processing.
pub open spec fn after_side(d: Side, explicit: bool) -> Stage {
    if d == Side::Old {
        entry_stage(Side::New, explicit)
    } else {
        Stage::Diff
    }
}

/// The stage that follows `s` on signal `sig`.
pub open spec fn next_of(s: Stage, sig: Signal, explicit: bool) -> Stage {
    if s == Stage::Done {
        Stage::Done
    } else if sig == Signal::Failed {
        if s == Stage::Teardown {
            Stage::Done
        } else {
            Stage::Teardown
        }
    } else {
        match s {
            Stage::Prepare => Stage::Resolve(Side::Old),
            Stage::Resolve(d) => if d == Side::Old {
                Stage::Resolve(Side::New)
            } else {
                Stage::Checkout(Side::Old)
            },
            Stage::Checkout(d) => if d == Side::Old {
                Stage::Checkout(Side::New)
            } else {
                entry_stage(Side::Old, explicit)
            },
            Stage::Locate(d) => Stage::Typeset(d),
            Stage::Typeset(d) => Stage::FindAux(d),
            Stage::FindAux(d) => if sig == Signal::Skip {
                Stage::FindBbl(d)
            } else {
                Stage::Bibtex(d)
            },
            Stage::Bibtex(d) => Stage::FindBbl(d),
            Stage::FindBbl(d) => if sig == Signal::Skip {
                after_side(d, explicit)
            } else {
                Stage::Expand(d)
            },
            Stage::Expand(d) => if sig == Signal::Fine {
                Stage::Rename(d)
            } else {
                after_side(d, explicit)
            },
            Stage::Rename(d) => after_side(d, explicit),
            Stage::Diff => Stage::Compile(0),
            Stage::Compile(i) => if i < 2 {
                Stage::Compile((i + 1) as u8)
            } else {
                Stage::Copy
            },
            Stage::Copy => Stage::Teardown,
            Stage::Teardown => Stage::Done,
            Stage::Done => Stage::Done,
        }
    }
}

/// The signal of a program's exit status at stage `s`: success goes on; a
/// failure of the diff engine is always tolerated; any other failure ends
/// the run exactly when the policy asks to abort on errors.
pub open spec fn exit_signal(s: Stage, success: bool, abort_if_error: bool) -> Signal {
    if success {
        Signal::Fine
    } else if s == Stage::Diff || !abort_if_error {
        Signal::Tolerated
    } else {
        Signal::Failed
    }
}

/// Stages only move forward: no stage is visited twice.
pub proof fn lemma_forward(s: Stage, sig: Signal, explicit: bool)
    requires
        s != Stage::Done,
        s matches Stage::Compile(i) ==> i < 3,
    ensures
        index_of(next_of(s, sig, explicit)) > index_of(s),
{
    if sig != Signal::Failed {
        match s {
            Stage::Resolve(d) => {},
            Stage::Checkout(d) => {},
            Stage::Locate(d) => {},
            Stage::Typeset(d) => {},
            Stage::FindAux(d) => {},
            Stage::Bibtex(d) => {},
            Stage::FindBbl(d) => {},
            Stage::Expand(d) => {},
            Stage::Rename(d) => {},
            Stage::Compile(i) => {},
            _ => {},
        }
    }
}

/// Any failure before the teardown leads straight to the teardown, so the
/// workspace is cleaned up whatever stage failed.
pub proof fn lemma_failure_tears_down(s: Stage, explicit: bool)
    requires
        index_of(s) < index_of(Stage::Teardown),
    ensures
        next_of(s, Signal::Failed, explicit) == Stage::Teardown,
{
}

/// The abort policy. When it tolerates errors, no exit status of a
/// program ends the run, so the diff is reached; when it asks to abort, a
/// failed typesetting ends the run at the teardown, which comes after the
/// diff stage and never leads back to it. The diff engine's own failure
/// never ends the run.
pub proof fn lemma_abort_policy(s: Stage, success: bool, explicit: bool)
    ensures
        exit_signal(s, success, false) != Signal::Failed,
        exit_signal(Stage::Diff, success, true) != Signal::Failed,
        (s is Typeset && !success) ==> next_of(s, exit_signal(s, success, true), explicit)
            == Stage::Teardown,
        index_of(Stage::Teardown) > index_of(Stage::Diff),
{
}

/// Without a failure no stage before the diff leads past it; as stages
/// only move forward, a run in which nothing fails reaches the diff.
pub proof fn lemma_diff_not_skipped(s: Stage, sig: Signal, explicit: bool)
    requires
        index_of(s) < index_of(Stage::Diff),
        sig != Signal::Failed,
    ensures
        index_of(next_of(s, sig, explicit)) <= index_of(Stage::Diff),
{
    match s {
        Stage::Resolve(d) => {},
        Stage::Checkout(d) => {},
        Stage::Locate(d) => {},
        Stage::Typeset(d) => {},
        Stage::FindAux(d) => {},
        Stage::Bibtex(d) => {},
        Stage::FindBbl(d) => {},
        Stage::Expand(d) => {},
        Stage::Rename(d) => {},
        _ => {},
    }
}

/// With the entry document given, no transition leads to a search for it,
/// so the entry documents set when the run was made stay those of the run.
pub proof fn lemma_given_entry_kept(s: Stage, sig: Signal)
    ensures
        !(next_of(s, sig, true) is Locate),
{
    match s {
        Stage::Resolve(d) => {},
        Stage::Checkout(d) => {},
        Stage::Locate(d) => {},
        Stage::Typeset(d) => {},
        Stage::FindAux(d) => {},
        Stage::Bibtex(d) => {},
        Stage::FindBbl(d) => {},
        Stage::Expand(d) => {},
        Stage::Rename(d) => {},
        _ => {},
    }
}

/// A revision that names no object ends the run at the teardown, which
/// removes the workspace, and the run exits with a non-zero code that
/// reports `InvalidCommitHash`.
pub proof fn lemma_invalid_revision_cleans_up(p: Pipeline, err: Error, explicit: bool)
    requires
        p.stage is Resolve,
        err.kind == ErrorKind::InvalidCommitHash,
    ensures
        p.signal_of(Event::Resolved(Err(err))) == Signal::Failed,
        next_of(p.stage, Signal::Failed, explicit) == Stage::Teardown,
        p.reports(Event::Resolved(Err(err)), err),
        code_of(Some(err)) == 1,
{
}

/// When every step succeeds and the entry document is given, the diff
/// comes after the two flattened documents, which come after both
/// checkouts.
pub proof fn lemma_order_of_work()
    ensures
        index_of(Stage::Checkout(Side::New)) < index_of(Stage::Typeset(Side::Old)),
        index_of(Stage::Rename(Side::Old)) < index_of(Stage::Typeset(Side::New)),
        index_of(Stage::Rename(Side::New)) < index_of(Stage::Diff),
        next_of(Stage::Rename(Side::New), Signal::Fine, true) == Stage::Diff,
        next_of(Stage::Rename(Side::Old), Signal::Fine, true) == Stage::Typeset(Side::New),
{
}

/// Outside work that a stage asks for.
pub enum Action {
    /// Create these directories, with their parents.
    MakeDirs(Vec<String>),
    /// Resolve a revision; `revision::resolve`, or the interactive selector.
    Resolve(RevisionSpec),
    /// Check the snapshot out into the directory.
    Checkout(CommitWrapper, String),
    /// Walk the tree, reading the files that `locate::is_candidate` admits.
    Scan(String),
    /// List the entries of the directory.
    List(String),
    /// Run the program and wait for it.
    Run(ToolCall),
    /// Rename the first file to the second.
    Rename(String, String),
    /// Copy the first file to the second, creating missing parents.
    Copy(String, String),
    /// Remove the directory and all it holds; a missing one is no failure.
    Remove(String),
    /// Exit with the code, after logging the error.
    Exit(i32, Option<Error>),
}

/// The outcome of an action.
pub enum Event {
    /// Whether a filesystem or checkout action succeeded.
    Done(bool),
    /// The snapshot a revision resolved to.
    Resolved(Result<CommitWrapper, Error>),
    /// The files of a tree that were read, in scan order.
    Scanned(Vec<SourceFile>),
    /// Whether a program exited with success.
    Exited(bool),
    /// The entries of a directory.
    Listed(Vec<String>),
}

/// Whether event `e` answers the action of stage `s`.
pub open spec fn fits(s: Stage, e: Event) -> bool {
    match s {
        Stage::Resolve(_) => e is Resolved,
        Stage::Locate(_) => e is Scanned,
        Stage::Typeset(_) | Stage::Bibtex(_) | Stage::Expand(_) | Stage::Diff | Stage::Compile(_) => e is Exited,
        Stage::FindAux(_) | Stage::FindBbl(_) => e is Listed,
        Stage::Done => false,
        _ => e is Done,
    }
}

/// The extension of the file a listing stage looks for.
pub open spec fn wanted_ext(s: Stage) -> Seq<char> {
    if s is FindAux {
        "aux"@
    } else {
        "bbl"@
    }
}

/// The exit code for a run that ended with `error`: 0 on success and when
/// the user cancelled the selection, 1 otherwise.
pub open spec fn code_of(error: Option<Error>) -> i32 {
    match error {
        None => 0,
        Some(e) => if e.kind is SkimAbort {
            0
        } else {
            1
        },
    }
}

/// The diff document, written beside the new entry document.
pub open spec fn diff_tex_of(new_main: Seq<char>) -> Seq<char> {
    join_of(parent_of(new_main), "diff.tex"@)
}

/// The name of the program whose failure stage `s` reports.
pub open spec fn task_of(s: Stage, engine: crate::latex::Engine) -> Seq<char> {
    match s {
        Stage::Bibtex(_) => "bibtex"@,
        Stage::Expand(_) => "latexpand"@,
        _ => engine_binary(engine),
    }
}

/// The name of the operation whose failure stage `s` reports.
pub open spec fn operation_of(s: Stage) -> Seq<char> {
    match s {
        Stage::Prepare => "create workspace"@,
        Stage::Checkout(_) => "checkout"@,
        Stage::Rename(_) => "rename"@,
        Stage::Copy => "copy"@,
        _ => "remove workspace"@,
    }
}

/// The exit code for a run that ended with `error`.
pub fn exit_code(error: &Option<Error>) -> (r: i32)
    ensures
        r == code_of(*error),
{
    match error {
        None => 0,
        Some(e) => match e.kind {
            ErrorKind::SkimAbort => 0,
            _ => 1,
        },
    }
}

/// A copy of an optional error.
fn duplicate_error(e: &Option<Error>) -> (r: Option<Error>)
    ensures
        r == *e,
{
    match e {
        Some(x) => Some(x.duplicate()),
        None => None,
    }
}

/// A copy of an optional text.
fn duplicate_text(t: &Option<String>) -> (r: Option<String>)
    ensures
        r == *t,
{
    match t {
        Some(x) => Some(x.clone()),
        None => None,
    }
}

/// The revision spec for a token given on the command line.
pub open spec fn spec_of(token: Option<String>) -> RevisionSpec {
    match token {
        Some(t) => RevisionSpec::ExplicitToken(t),
        None => RevisionSpec::Interactive,
    }
}

/// One run of the pipeline.
pub struct Pipeline {
    pub config: Config,
    pub workspace: Workspace,
    /// Paths that the removal of the workspace must not reach.
    pub protected: Vec<String>,
    pub stage: Stage,
    pub old_snap: Option<CommitWrapper>,
    pub new_snap: Option<CommitWrapper>,
    pub old_main: String,
    pub new_main: String,
    /// The auxiliary file of the side being processed.
    pub aux: String,
    /// The resolved bibliography of the side being processed.
    pub bbl: String,
    /// The first error of the run.
    pub error: Option<Error>,
}

impl Pipeline {
    /// The run's state is consistent: both snapshots are known when they are checked out.
    pub open spec fn wf(&self) -> bool {
        &&& self.stage == Stage::Resolve(Side::New) ==> self.old_snap is Some
        &&& self.stage is Checkout ==> self.old_snap is Some && self.new_snap is Some
        &&& self.stage matches Stage::Compile(i) ==> i < 3
    }

    /// The tree of side `d`.
    pub open spec fn tree(&self, d: Side) -> String {
        if d == Side::Old {
            self.workspace.old
        } else {
            self.workspace.new
        }
    }

    /// The entry document of side `d`.
    pub open spec fn main_of(&self, d: Side) -> String {
        if d == Side::Old {
            self.old_main
        } else {
            self.new_main
        }
    }

    /// How event `e` moves the run from its current stage.
    pub open spec fn signal_of(&self, e: Event) -> Signal {
        match e {
            Event::Done(b) => if b {
                Signal::Fine
            } else {
                Signal::Failed
            },
            Event::Resolved(r) => if r is Ok {
                Signal::Fine
            } else {
                Signal::Failed
            },
            Event::Scanned(files) => if guess_of(None, marked_paths(files@)) is Some {
                Signal::Fine
            } else {
                Signal::Failed
            },
            Event::Exited(b) => exit_signal(self.stage, b, self.config.abort_if_error),
            Event::Listed(listing) => if with_ext(listing@, wanted_ext(self.stage)).len() > 0 {
                Signal::Fine
            } else {
                Signal::Skip
            },
        }
    }

    /// Whether `err` is the error that event `e` at the current stage reports.
    pub open spec fn reports(&self, e: Event, err: Error) -> bool {
        match e {
            Event::Resolved(r) => r == Err::<CommitWrapper, Error>(err),
            Event::Scanned(_) => err.kind == ErrorKind::MainTeXNotFound,
            Event::Exited(_) => err.kind matches ErrorKind::CompileError(t) && t@ == task_of(
                self.stage,
                self.config.engine,
            ),
            _ => err.kind matches ErrorKind::IoError(op) && op@ == operation_of(self.stage),
        }
    }

    /// A run with `config` whose workspace removal must spare `protected`.
    /// A given entry document is that path within each side's tree; one
    /// that is empty, absolute or has a `..` component would lead out of
    /// the tree, so the run then ends at once with `InvalidMainTeX`, before
    /// anything is created.
    pub fn new(config: Config, protected: Vec<String>) -> (r: Pipeline)
        ensures
            r.wf(),
            r.config == config,
            r.protected == protected,
            r.workspace.root == config.tmp_dir,
            r.workspace.old@ == join_of(config.tmp_dir@, "old"@),
            r.workspace.new@ == join_of(config.tmp_dir@, "new"@),
            match config.main_tex {
                None => r.stage == Stage::Prepare && r.error is None,
                Some(m) => if stays_inside(m@) {
                    &&& r.stage == Stage::Prepare
                    &&& r.error is None
                    &&& r.old_main@ == join_of(r.workspace.old@, m@)
                    &&& r.new_main@ == join_of(r.workspace.new@, m@)
                    &&& covers(r.workspace.old@, r.old_main@)
                    &&& covers(r.workspace.new@, r.new_main@)
                } else {
                    &&& r.stage == Stage::Done
                    &&& r.error matches Some(e) && e.kind == ErrorKind::InvalidMainTeX(m)
                },
            },
    {
        let workspace = Workspace::create(config.tmp_dir.clone());
        proof {
            lemma_tree_not_empty(config.tmp_dir@);
        }
        let mut stage = Stage::Prepare;
        let mut error: Option<Error> = None;
        let (old_main, new_main) = match &config.main_tex {
            Some(m) => {
                if is_inside_path(m.as_str()) {
                    proof {
                        lemma_join_stays_within(workspace.old@, m@);
                        lemma_join_stays_within(workspace.new@, m@);
                    }
                } else {
                    stage = Stage::Done;
                    error = Some(Error::new(ErrorKind::InvalidMainTeX(m.clone())));
                }
                (join(workspace.old.as_str(), m.as_str()), join(workspace.new.as_str(), m.as_str()))
            },
            None => (String::new(), String::new()),
        };
        Pipeline {
            config,
            workspace,
            protected,
            stage,
            old_snap: None,
            new_snap: None,
            old_main,
            new_main,
            aux: String::new(),
            bbl: String::new(),
            error,
        }
    }

    /// The processing chain of side `d`.
    fn side_latex(&self, d: Side) -> (r: LaTeX)
        ensures
            r.config.project_dir == self.tree(d),
            r.config.main_tex == self.main_of(d),
            r.config.abort_if_error == self.config.abort_if_error,
            r.config.engine == self.config.engine,
    {
        let (dir, main) = match d {
            Side::Old => (self.workspace.old.clone(), self.old_main.clone()),
            Side::New => (self.workspace.new.clone(), self.new_main.clone()),
        };
        LaTeX::new(
            TexConfig {
                project_dir: dir,
                main_tex: main,
                abort_if_error: self.config.abort_if_error,
                engine: self.config.engine,
            },
        )
    }

    /// The diff document.
    fn diff_tex(&self) -> (r: String)
        ensures
            r@ == diff_tex_of(self.new_main@),
    {
        join(parent(self.new_main.as_str()).as_str(), "diff.tex")
    }

    /// Whether `e` answers the action of the current stage.
    pub fn accepts(&self, e: &Event) -> (r: bool)
        ensures
            r == fits(self.stage, *e),
    {
        match self.stage {
            Stage::Resolve(_) => matches!(e, Event::Resolved(_)),
            Stage::Locate(_) => matches!(e, Event::Scanned(_)),
            Stage::Typeset(_) | Stage::Bibtex(_) | Stage::Expand(_) | Stage::Diff | Stage::Compile(_) => matches!(e, Event::Exited(_)),
            Stage::FindAux(_) | Stage::FindBbl(_) => matches!(e, Event::Listed(_)),
            Stage::Done => false,
            _ => matches!(e, Event::Done(_)),
        }
    }

    /// The outside work that the current stage asks for.
    pub fn action(&self) -> (r: Action)
        requires
            self.wf(),
        ensures
            self.stage == Stage::Prepare ==> (r matches Action::MakeDirs(v) && texts(v@) == seq![
                self.workspace.old@,
                self.workspace.new@,
            ]),
            self.stage matches Stage::Resolve(d) ==> r == Action::Resolve(
                spec_of(if d == Side::Old { self.config.old } else { self.config.new }),
            ),
            self.stage matches Stage::Checkout(d) ==> (r matches Action::Checkout(c, dir) && Some(c) == (
            if d == Side::Old {
                self.old_snap
            } else {
                self.new_snap
            }) && dir == self.tree(d)),
            self.stage matches Stage::Locate(d) ==> r == Action::Scan(self.tree(d)),
            (self.stage is FindAux || self.stage is FindBbl) ==> (r matches Action::List(dir) && (
            self.stage matches Stage::FindAux(d) ==> dir == self.tree(d)) && (
            self.stage matches Stage::FindBbl(d) ==> dir == self.tree(d))),
            self.stage matches Stage::Typeset(d) ==> (r matches Action::Run(c) && c.program@
                == engine_binary(self.config.engine) && texts(c.args@) == seq![
                "-interaction"@,
                "nonstopmode"@,
                "-output-directory"@,
                self.tree(d)@,
                self.main_of(d)@,
            ] && c.cwd == Some(self.tree(d))),
            self.stage matches Stage::Bibtex(d) ==> (r matches Action::Run(c) && c.program@
                == "bibtex"@ && texts(c.args@) == seq![with_extension_of(self.aux@, ""@)] && c.cwd
                == Some(self.tree(d))),
            self.stage matches Stage::Expand(d) ==> (r matches Action::Run(c) && c.program@
                == "latexpand"@ && c.cwd == Some(self.tree(d)) && texts(c.args@) == seq![
                self.main_of(d)@,
                "--output"@,
                crate::latex::sibling_temp_of(self.main_of(d)@),
                "--expand-bbl"@,
                self.bbl@,
            ]),
            self.stage matches Stage::Rename(d) ==> (r matches Action::Rename(from, to) && from@
                == crate::latex::sibling_temp_of(self.main_of(d)@) && to@ == self.main_of(d)@),
            self.stage == Stage::Diff ==> (r matches Action::Run(c) && c.program
                == self.config.latexdiff_path && texts(c.args@) == seq![
                self.old_main@,
                self.new_main@,
            ] + texts(self.config.latexdiff_args@) && (c.stdout matches Some(o) && o@ == diff_tex_of(
                self.new_main@,
            ))),
            self.stage is Compile ==> (r matches Action::Run(c) && c.program@ == engine_binary(
                self.config.engine,
            ) && texts(c.args@) == seq![
                "-interaction"@,
                "nonstopmode"@,
                "-output-directory"@,
                self.workspace.new@,
                diff_tex_of(self.new_main@),
            ] && c.cwd == Some(self.workspace.new)),
            self.stage == Stage::Copy ==> (r matches Action::Copy(from, to) && from@
                == with_extension_of(diff_tex_of(self.new_main@), "pdf"@) && to == self.config.output),
            self.stage == Stage::Teardown ==> ({
                let bad = unsafe_root(self.workspace.root@, self.protected@.map_values(|p: String| p@));
                &&& bad ==> (r matches Action::Exit(code, Some(e)) && code == 1 && e.kind
                    == ErrorKind::UnsafeTeardown(self.workspace.root))
                &&& (!bad && self.config.no_clean) ==> r == Action::Exit(code_of(self.error), self.error)
                &&& (!bad && !self.config.no_clean) ==> r == Action::Remove(self.workspace.root)
            }),
            self.stage == Stage::Done ==> r == Action::Exit(code_of(self.error), self.error),
    {
        match self.stage {
            Stage::Prepare => {
                let mut dirs: Vec<String> = Vec::new();
                dirs.push(self.workspace.old.clone());
                dirs.push(self.workspace.new.clone());
                assert(texts(dirs@) =~= seq![self.workspace.old@, self.workspace.new@]);
                Action::MakeDirs(dirs)
            },
            Stage::Resolve(d) => {
                let token = match d {
                    Side::Old => duplicate_text(&self.config.old),
                    Side::New => duplicate_text(&self.config.new),
                };
                Action::Resolve(RevisionSpec::from_token(token))
            },
            Stage::Checkout(d) => {
                let (snap, dir) = match d {
                    Side::Old => (&self.old_snap, self.workspace.old.clone()),
                    Side::New => (&self.new_snap, self.workspace.new.clone()),
                };
                match snap {
                    Some(c) => Action::Checkout(c.duplicate(), dir),
                    None => {
                        proof {
                            assert(false);
                        }
                        Action::Exit(1, None)
                    },
                }
            },
            Stage::Locate(d) => Action::Scan(self.side_latex(d).config.project_dir),
            Stage::FindAux(d) | Stage::FindBbl(d) => Action::List(self.side_latex(d).config.project_dir),
            Stage::Typeset(d) => Action::Run(self.side_latex(d).pdflatex(None)),
            Stage::Bibtex(d) => Action::Run(self.side_latex(d).bibtex(&self.aux)),
            Stage::Expand(d) => Action::Run(self.side_latex(d).expand(None, None, &self.bbl).call),
            Stage::Rename(d) => {
                let plan = self.side_latex(d).expand(None, None, &self.bbl);
                match plan.rename {
                    Some((from, to)) => Action::Rename(from, to),
                    None => {
                        proof {
                            assert(false);
                        }
                        Action::Exit(1, None)
                    },
                }
            },
            Stage::Diff => {
                let out = self.diff_tex();
                Action::Run(LaTeX::diff(&self.config, &self.old_main, &self.new_main, &out))
            },
            Stage::Compile(_) => {
                let tex = LaTeX::new(
                    TexConfig {
                        project_dir: self.workspace.new.clone(),
                        main_tex: self.diff_tex(),
                        abort_if_error: self.config.abort_if_error,
                        engine: self.config.engine,
                    },
                );
                Action::Run(tex.pdflatex(None))
            },
            Stage::Copy => {
                let pdf = with_extension(self.diff_tex().as_str(), "pdf");
                Action::Copy(pdf, self.config.output.clone())
            },
            Stage::Teardown => match self.workspace.teardown(self.config.no_clean, &self.protected) {
                Err(e) => Action::Exit(1, Some(e)),
                Ok(None) => Action::Exit(exit_code(&self.error), duplicate_error(&self.error)),
                Ok(Some(root)) => Action::Remove(root),
            },
            Stage::Done => Action::Exit(exit_code(&self.error), duplicate_error(&self.error)),
        }
    }

    /// Records `err` as the error of the run unless one came earlier.
    fn record(&mut self, err: Error)
        ensures
            final(self).error == (if old(self).error is None {
                Some(err)
            } else {
                old(self).error
            }),
            *final(self) == (Pipeline { error: final(self).error, ..*old(self) }),
    {
        match self.error {
            None => {
                self.error = Some(err);
            },
            Some(_) => {},
        }
    }

    /// Moves the run on with the outcome `e` of the current stage's action.
    pub fn advance(&mut self, e: Event)
        requires
            old(self).wf(),
            fits(old(self).stage, e),
        ensures
            final(self).wf(),
            final(self).stage == next_of(
                old(self).stage,
                old(self).signal_of(e),
                old(self).config.main_tex is Some,
            ),
            final(self).config == old(self).config,
            final(self).workspace == old(self).workspace,
            final(self).protected == old(self).protected,
            old(self).stage != Stage::Resolve(Side::Old) ==> final(self).old_snap == old(self).old_snap,
            old(self).stage != Stage::Resolve(Side::New) ==> final(self).new_snap == old(self).new_snap,
            old(self).stage != Stage::Locate(Side::Old) ==> final(self).old_main == old(self).old_main,
            old(self).stage != Stage::Locate(Side::New) ==> final(self).new_main == old(self).new_main,
            !(old(self).stage is FindAux) ==> final(self).aux == old(self).aux,
            !(old(self).stage is FindBbl) ==> final(self).bbl == old(self).bbl,
            old(self).error is Some ==> final(self).error == old(self).error,
            old(self).error is None && old(self).signal_of(e) != Signal::Failed ==> final(self).error is None,
            old(self).error is None && old(self).signal_of(e) == Signal::Failed ==> (final(self).error matches Some(err)
                && old(self).reports(e, err)),
            old(self).stage == Stage::Resolve(Side::Old) ==> (e matches Event::Resolved(Ok(c))
                ==> final(self).old_snap == Some(c)),
            old(self).stage == Stage::Resolve(Side::New) ==> (e matches Event::Resolved(Ok(c))
                ==> final(self).new_snap == Some(c)),
            old(self).stage matches Stage::Locate(d) ==> (e matches Event::Scanned(files) ==> (guess_of(
                None,
                marked_paths(files@),
            ) matches Some(m) ==> final(self).main_of(d)@ == m)),
            old(self).stage is FindAux ==> (e matches Event::Listed(l) ==> (with_ext(l@, "aux"@).len()
                > 0 ==> final(self).aux == with_ext(l@, "aux"@).last())),
            old(self).stage is FindBbl ==> (e matches Event::Listed(l) ==> (with_ext(l@, "bbl"@).len()
                > 0 ==> final(self).bbl == with_ext(l@, "bbl"@).last())),
    {
        let explicit = match &self.config.main_tex {
            Some(_) => true,
            None => false,
        };
        let stage = self.stage;
        let sig = match e {
            Event::Done(ok) => {
                if ok {
                    Signal::Fine
                } else {
                    let op = match stage {
                        Stage::Prepare => "create workspace",
                        Stage::Checkout(_) => "checkout",
                        Stage::Rename(_) => "rename",
                        Stage::Copy => "copy",
                        _ => "remove workspace",
                    };
                    self.record(Error::new(ErrorKind::IoError(String::from_str(op))));
                    Signal::Failed
                }
            },
            Event::Resolved(r) => match r {
                Ok(c) => {
                    if stage == Stage::Resolve(Side::Old) {
                        self.old_snap = Some(c);
                    } else {
                        self.new_snap = Some(c);
                    }
                    Signal::Fine
                },
                Err(err) => {
                    self.record(err);
                    Signal::Failed
                },
            },
            Event::Scanned(files) => {
                let found = main_searcher(&files);
                match guess_main_tex(None, found) {
                    Ok(m) => {
                        if stage == Stage::Locate(Side::Old) {
                            self.old_main = m;
                        } else {
                            self.new_main = m;
                        }
                        Signal::Fine
                    },
                    Err(err) => {
                        self.record(err);
                        Signal::Failed
                    },
                }
            },
            Event::Exited(ok) => {
                if ok {
                    Signal::Fine
                } else if stage == Stage::Diff {
                    Signal::Tolerated
                } else {
                    let task = match stage {
                        Stage::Bibtex(_) => String::from_str("bibtex"),
                        Stage::Expand(_) => String::from_str("latexpand"),
                        _ => self.config.engine.binary(),
                    };
                    match verdict(task.as_str(), ok, self.config.abort_if_error) {
                        Ok(()) => Signal::Tolerated,
                        Err(err) => {
                            self.record(err);
                            Signal::Failed
                        },
                    }
                }
            },
            Event::Listed(listing) => {
                let (d, is_aux) = match stage {
                    Stage::FindAux(d) => (d, true),
                    Stage::FindBbl(d) => (d, false),
                    _ => (Side::Old, false),
                };
                let ext = if is_aux {
                    "aux"
                } else {
                    "bbl"
                };
                let mut found = self.side_latex(d).ext_finder(&listing, ext);
                match found.pop() {
                    Some(p) => {
                        if is_aux {
                            self.aux = p;
                        } else {
                            self.bbl = p;
                        }
                        Signal::Fine
                    },
                    None => Signal::Skip,
                }
            },
        };
        self.stage = next_stage(stage, sig, explicit);
    }
}

/// The stage that follows `s` on signal `sig`.
pub fn next_stage(s: Stage, sig: Signal, explicit: bool) -> (r: Stage)
    requires
        s matches Stage::Compile(i) ==> i < 3,
    ensures
        r == next_of(s, sig, explicit),
        r matches Stage::Compile(i) ==> i < 3,
{
    let entry_old = if explicit {
        Stage::Typeset(Side::Old)
    } else {
        Stage::Locate(Side::Old)
    };
    let entry_new = if explicit {
        Stage::Typeset(Side::New)
    } else {
        Stage::Locate(Side::New)
    };
    let after = |d: Side| -> (a: Stage)
        ensures
            a == after_side(d, explicit),
        {
            match d {
                Side::Old => entry_new,
                Side::New => Stage::Diff,
            }
        };
    if s == Stage::Done {
        return Stage::Done;
    }
    if sig == Signal::Failed {
        return if s == Stage::Teardown {
            Stage::Done
        } else {
            Stage::Teardown
        };
    }
    match s {
        Stage::Prepare => Stage::Resolve(Side::Old),
        Stage::Resolve(d) => match d {
            Side::Old => Stage::Resolve(Side::New),
            Side::New => Stage::Checkout(Side::Old),
        },
        Stage::Checkout(d) => match d {
            Side::Old => Stage::Checkout(Side::New),
            Side::New => entry_old,
        },
        Stage::Locate(d) => Stage::Typeset(d),
        Stage::Typeset(d) => Stage::FindAux(d),
        Stage::FindAux(d) => if sig == Signal::Skip {
            Stage::FindBbl(d)
        } else {
            Stage::Bibtex(d)
        },
        Stage::Bibtex(d) => Stage::FindBbl(d),
        Stage::FindBbl(d) => if sig == Signal::Skip {
            after(d)
        } else {
            Stage::Expand(d)
        },
        Stage::Expand(d) => if sig == Signal::Fine {
            Stage::Rename(d)
        } else {
            after(d)
        },
        Stage::Rename(d) => after(d),
        Stage::Diff => Stage::Compile(0),
        Stage::Compile(i) => if i < 2 {
            Stage::Compile(i + 1)
        } else {
            Stage::Copy
        },
        Stage::Copy => Stage::Teardown,
        Stage::Teardown => Stage::Done,
        Stage::Done => Stage::Done,
    }
}

} // verus!
