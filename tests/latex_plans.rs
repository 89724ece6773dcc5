use git_latexdiff::config::ConfigBuilder as RunConfigBuilder;
use git_latexdiff::error::ErrorKind;
use git_latexdiff::latex::{verdict, Config, ConfigBuilder, Engine, LaTeX};

fn chain(dir: &str, main: &str, abort: bool) -> LaTeX {
    LaTeX::new(Config {
        project_dir: String::from(dir),
        main_tex: String::from(main),
        abort_if_error: abort,
        engine: Engine::Pdflatex,
    })
}

#[test]
fn pdflatex_plan() {
    let tex = chain("/w/old", "/w/old/main.tex", false);
    let call = tex.pdflatex(None);
    assert_eq!(call.program, "pdflatex");
    assert_eq!(call.args, vec!["-interaction", "nonstopmode", "-output-directory", "/w/old", "/w/old/main.tex"]);
    assert_eq!(call.cwd, Some(String::from("/w/old")));
    assert_eq!(call.stdout, None);
    let other = String::from("/w/old/diff.tex");
    assert_eq!(tex.pdflatex(Some(&other)).args[4], "/w/old/diff.tex");
}

#[test]
fn engines_name_their_binaries() {
    assert_eq!(Engine::Pdflatex.binary(), "pdflatex");
    assert_eq!(Engine::Xelatex.binary(), "xelatex");
    assert_eq!(Engine::Lualatex.binary(), "lualatex");
}

#[test]
fn bibtex_plan_strips_extension() {
    let tex = chain("/w/old", "/w/old/main.tex", false);
    let call = tex.bibtex(&String::from("/w/old/main.aux"));
    assert_eq!(call.program, "bibtex");
    assert_eq!(call.args, vec!["/w/old/main"]);
    assert_eq!(call.cwd, Some(String::from("/w/old")));
}

#[test]
fn expand_in_place_renames_temporary() {
    let tex = chain("/w/old", "/w/old/main.tex", false);
    let bbl = String::from("/w/old/main.bbl");
    let plan = tex.expand(None, None, &bbl);
    assert_eq!(plan.call.program, "latexpand");
    assert_eq!(
        plan.call.args,
        vec!["/w/old/main.tex", "--output", "/w/old/_main.tex", "--expand-bbl", "/w/old/main.bbl"]
    );
    assert_eq!(plan.call.cwd, Some(String::from("/w/old")));
    let (from, to) = plan.rename.expect("rename when writing over the input");
    assert_eq!(from, "/w/old/_main.tex");
    assert_eq!(to, "/w/old/main.tex");
    assert_ne!(from, to);
}

#[test]
fn expand_elsewhere_needs_no_rename() {
    let tex = chain("/w/old", "/w/old/main.tex", false);
    let out = String::from("/w/old/flat.tex");
    let bbl = String::from("/w/old/main.bbl");
    let plan = tex.expand(None, Some(&out), &bbl);
    assert_eq!(plan.call.args[2], "/w/old/flat.tex");
    assert!(plan.rename.is_none());
}

#[test]
fn ext_finder_keeps_order() {
    let tex = chain("/w/old", "/w/old/main.tex", false);
    let listing = vec![
        String::from("/w/old/a.aux"),
        String::from("/w/old/main.log"),
        String::from("/w/old/main.aux"),
    ];
    assert_eq!(tex.ext_finder(&listing, "aux"), vec!["/w/old/a.aux", "/w/old/main.aux"]);
    assert!(tex.ext_finder(&listing, "bbl").is_empty());
}

#[test]
fn verdict_follows_policy() {
    assert!(verdict("pdflatex", true, true).is_ok());
    assert!(verdict("pdflatex", false, false).is_ok());
    let err = verdict("pdflatex", false, true).unwrap_err();
    assert_eq!(err.kind, ErrorKind::CompileError(String::from("pdflatex")));
}

#[test]
fn diff_plan_captures_stdout() {
    let cfg = RunConfigBuilder::new(String::from("/home/u/paper"))
        .latexdiff_path(None, Some(String::from("/usr/bin/latexdiff")))
        .latexdiff_args(vec![String::from("--type=CFONT")])
        .build()
        .unwrap();
    let call = LaTeX::diff(
        &cfg,
        &String::from("/w/old/main.tex"),
        &String::from("/w/new/main.tex"),
        &String::from("/w/new/diff.tex"),
    );
    assert_eq!(call.program, "/usr/bin/latexdiff");
    assert_eq!(call.args, vec!["/w/old/main.tex", "/w/new/main.tex", "--type=CFONT"]);
    assert_eq!(call.stdout, Some(String::from("/w/new/diff.tex")));
    assert_eq!(call.cwd, None);
}

#[test]
fn chain_builder_prefers_given_main() {
    let c = ConfigBuilder::new(String::from("/w/new")).build(String::from("/w/new/found.tex"));
    assert_eq!(c.main_tex, "/w/new/found.tex");
    assert!(!c.abort_if_error);
    let c = ConfigBuilder::new(String::from("/w/new"))
        .main_tex(String::from("/w/new/diff.tex"))
        .abort_if_error(true)
        .engine(Engine::Xelatex)
        .build(String::from("/w/new/found.tex"));
    assert_eq!(c.main_tex, "/w/new/diff.tex");
    assert!(c.abort_if_error);
    assert_eq!(c.engine, Engine::Xelatex);
}
