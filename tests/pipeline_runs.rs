use git2::Oid;
use git_latexdiff::config::Config;
use git_latexdiff::error::{Error, ErrorKind};
use git_latexdiff::latex::Engine;
use git_latexdiff::locate::SourceFile;
use git_latexdiff::pipeline::{exit_code, Action, Event, Pipeline, Stage};
use git_latexdiff::revision::{CommitWrapper, RevisionSpec};

const ROOT: &str = "/p/build/tmp/git_latexdiff_1";

fn config(main_tex: Option<&str>, old: &str, abort: bool) -> Config {
    Config {
        repo_dir: String::from("/p"),
        tmp_dir: String::from(ROOT),
        latexdiff_path: String::from("/usr/bin/latexdiff"),
        latexdiff_args: Vec::new(),
        output: String::from("/out/diff.pdf"),
        main_tex: main_tex.map(String::from),
        new: Some(String::from("HEAD")),
        old: Some(String::from(old)),
        no_clean: false,
        abort_if_error: abort,
        engine: Engine::Pdflatex,
    }
}

fn oid() -> Oid {
    Oid::from_str("0123456789abcdef0123456789abcdef01234567").unwrap()
}

fn step(p: &mut Pipeline, e: Event) {
    assert!(p.accepts(&e));
    p.advance(e);
}

/// Runs one side's chain with every program succeeding and every file present.
fn run_side(p: &mut Pipeline, dir: &str) {
    assert!(matches!(p.action(), Action::Run(c) if c.args.last().unwrap() == &format!("{}/main.tex", dir)));
    step(p, Event::Exited(true));
    assert!(matches!(p.action(), Action::List(d) if d == dir));
    step(p, Event::Listed(vec![format!("{}/main.log", dir), format!("{}/main.aux", dir)]));
    assert!(matches!(p.action(), Action::Run(c) if c.program == "bibtex" && c.args == vec![format!("{}/main", dir)]));
    step(p, Event::Exited(true));
    step(p, Event::Listed(vec![format!("{}/main.bbl", dir)]));
    assert!(matches!(p.action(), Action::Run(c) if c.program == "latexpand"));
    step(p, Event::Exited(true));
    assert!(matches!(p.action(), Action::Rename(f, t) if f == format!("{}/_main.tex", dir) && t == format!("{}/main.tex", dir)));
    step(p, Event::Done(true));
}

fn to_first_typeset(p: &mut Pipeline, old: CommitWrapper) {
    assert!(matches!(p.action(), Action::MakeDirs(v) if v == vec![format!("{}/old", ROOT), format!("{}/new", ROOT)]));
    step(p, Event::Done(true));
    step(p, Event::Resolved(Ok(old)));
    assert!(matches!(p.action(), Action::Resolve(RevisionSpec::ExplicitToken(t)) if t == "HEAD"));
    step(p, Event::Resolved(Ok(CommitWrapper::Commit(oid()))));
    step(p, Event::Done(true));
    step(p, Event::Done(true));
}

#[test]
fn successful_run_produces_artifact_and_cleans_up() {
    let mut p = Pipeline::new(config(Some("main.tex"), "HEAD~1", false), vec![String::from("/p")]);
    to_first_typeset(&mut p, CommitWrapper::Commit(oid()));
    run_side(&mut p, &format!("{}/old", ROOT));
    run_side(&mut p, &format!("{}/new", ROOT));
    assert_eq!(p.stage, Stage::Diff);
    assert!(matches!(p.action(), Action::Run(c) if c.stdout == Some(format!("{}/new/diff.tex", ROOT))));
    step(&mut p, Event::Exited(false));
    for _ in 0..3 {
        assert!(matches!(p.action(), Action::Run(c) if c.args.last().unwrap() == &format!("{}/new/diff.tex", ROOT)));
        step(&mut p, Event::Exited(true));
    }
    assert!(matches!(p.action(), Action::Copy(f, t) if f == format!("{}/new/diff.pdf", ROOT) && t == "/out/diff.pdf"));
    step(&mut p, Event::Done(true));
    assert!(matches!(p.action(), Action::Remove(r) if r == ROOT));
    step(&mut p, Event::Done(true));
    assert!(matches!(p.action(), Action::Exit(0, None)));
}

#[test]
fn old_index_checks_out_working_index() {
    let mut p = Pipeline::new(config(Some("main.tex"), "index", false), vec![]);
    step(&mut p, Event::Done(true));
    assert!(matches!(p.action(), Action::Resolve(RevisionSpec::ExplicitToken(t)) if t == "index"));
    step(&mut p, Event::Resolved(Ok(CommitWrapper::Index)));
    step(&mut p, Event::Resolved(Ok(CommitWrapper::Commit(oid()))));
    assert!(matches!(p.action(), Action::Checkout(CommitWrapper::Index, d) if d == format!("{}/old", ROOT)));
    step(&mut p, Event::Done(true));
    assert!(matches!(p.action(), Action::Checkout(CommitWrapper::Commit(x), _) if x == oid()));
}

#[test]
fn invalid_revision_fails_after_cleanup() {
    let mut p = Pipeline::new(config(None, "deadbeef", false), vec![]);
    step(&mut p, Event::Done(true));
    step(&mut p, Event::Resolved(Err(Error::new(ErrorKind::InvalidCommitHash))));
    assert_eq!(p.stage, Stage::Teardown);
    assert!(matches!(p.action(), Action::Remove(r) if r == ROOT));
    step(&mut p, Event::Done(true));
    match p.action() {
        Action::Exit(code, Some(e)) => {
            assert_ne!(code, 0);
            assert_eq!(e.kind, ErrorKind::InvalidCommitHash);
            assert_eq!(e.message(), "Invalid commit hash");
        }
        _ => panic!("expected exit"),
    }
}

#[test]
fn tolerant_policy_reaches_diff_despite_broken_document() {
    let mut p = Pipeline::new(config(Some("main.tex"), "HEAD~1", false), vec![]);
    to_first_typeset(&mut p, CommitWrapper::Commit(oid()));
    for _ in 0..2 {
        step(&mut p, Event::Exited(false));
        step(&mut p, Event::Listed(vec![]));
        step(&mut p, Event::Listed(vec![]));
    }
    assert_eq!(p.stage, Stage::Diff);
    assert!(p.error.is_none());
}

#[test]
fn fatal_policy_halts_before_diff() {
    let mut p = Pipeline::new(config(Some("main.tex"), "HEAD~1", true), vec![]);
    to_first_typeset(&mut p, CommitWrapper::Commit(oid()));
    step(&mut p, Event::Exited(false));
    assert_eq!(p.stage, Stage::Teardown);
    assert_eq!(p.error.clone().unwrap().kind, ErrorKind::CompileError(String::from("pdflatex")));
    step(&mut p, Event::Done(true));
    assert!(matches!(p.action(), Action::Exit(1, Some(_))));
}

#[test]
fn expansion_failure_skips_rename_when_tolerated() {
    let mut p = Pipeline::new(config(Some("main.tex"), "HEAD~1", false), vec![]);
    to_first_typeset(&mut p, CommitWrapper::Commit(oid()));
    step(&mut p, Event::Exited(true));
    step(&mut p, Event::Listed(vec![]));
    step(&mut p, Event::Listed(vec![format!("{}/old/main.bbl", ROOT)]));
    step(&mut p, Event::Exited(false));
    assert_eq!(p.stage, Stage::Typeset(git_latexdiff::pipeline::Side::New));
}

#[test]
fn search_for_entry_document() {
    let mut p = Pipeline::new(config(None, "HEAD~1", false), vec![]);
    to_first_typeset(&mut p, CommitWrapper::Commit(oid()));
    assert!(matches!(p.action(), Action::Scan(d) if d == format!("{}/old", ROOT)));
    let files = vec![SourceFile {
        path: format!("{}/old/paper.tex", ROOT),
        content: b"\\documentclass{article}\n".to_vec(),
    }];
    step(&mut p, Event::Scanned(files));
    assert_eq!(p.old_main, format!("{}/old/paper.tex", ROOT));
    step(&mut p, Event::Exited(true));
    step(&mut p, Event::Listed(vec![]));
    step(&mut p, Event::Listed(vec![]));
    step(&mut p, Event::Scanned(vec![]));
    assert_eq!(p.stage, Stage::Teardown);
    assert_eq!(p.error.clone().unwrap().kind, ErrorKind::MainTeXNotFound);
}

#[test]
fn kept_workspace_and_unsafe_root() {
    let mut cfg = config(Some("main.tex"), "HEAD~1", false);
    cfg.no_clean = true;
    let mut p = Pipeline::new(cfg, vec![]);
    step(&mut p, Event::Done(false));
    assert_eq!(p.error.clone().unwrap().kind, ErrorKind::IoError(String::from("create workspace")));
    assert!(matches!(p.action(), Action::Exit(1, Some(_))));
    let mut cfg = config(Some("main.tex"), "HEAD~1", false);
    cfg.tmp_dir = String::from("/");
    let mut p = Pipeline::new(cfg, vec![]);
    step(&mut p, Event::Done(false));
    assert!(matches!(p.action(), Action::Exit(1, Some(e)) if e.kind == ErrorKind::UnsafeTeardown(String::from("/"))));
    assert!(!p.accepts(&Event::Exited(true)));
}

#[test]
fn exit_codes() {
    assert_eq!(exit_code(&None), 0);
    assert_eq!(exit_code(&Some(Error::new(ErrorKind::SkimAbort))), 0);
    assert_eq!(exit_code(&Some(Error::new(ErrorKind::NotSupportedDevice))), 1);
}

#[test]
fn absolute_entry_document_is_refused() {
    let p = Pipeline::new(config(Some("/p/main.tex"), "HEAD~1", false), vec![]);
    assert_eq!(p.stage, Stage::Done);
    match p.action() {
        Action::Exit(1, Some(e)) => {
            assert_eq!(e.kind, ErrorKind::InvalidMainTeX(String::from("/p/main.tex")))
        }
        _ => panic!("expected exit"),
    }
    let p = Pipeline::new(config(Some("../main.tex"), "HEAD~1", false), vec![]);
    assert_eq!(p.stage, Stage::Done);
}

#[test]
fn given_entry_document_lies_in_each_tree() {
    let p = Pipeline::new(config(Some("sub/main.tex"), "HEAD~1", false), vec![]);
    assert_eq!(p.stage, Stage::Prepare);
    assert_eq!(p.old_main, format!("{}/old/sub/main.tex", ROOT));
    assert_eq!(p.new_main, format!("{}/new/sub/main.tex", ROOT));
}
