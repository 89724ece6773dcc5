use git2::{Oid, Repository, Signature};
use git_latexdiff::error::ErrorKind;
use git_latexdiff::locate::{guess_main_tex, has_marker, is_candidate, locate, main_searcher, SourceFile};
use git_latexdiff::revision::{is_index_token, resolve, selection_outcome, CommitWrapper, RevisionSpec};

fn file(path: &str, content: &str) -> SourceFile {
    SourceFile { path: String::from(path), content: content.as_bytes().to_vec() }
}

fn repo_with_commit(dir: &str) -> (Repository, Oid) {
    let repo = Repository::init(dir).unwrap();
    let tree_id = repo.index().unwrap().write_tree().unwrap();
    let tree = repo.find_tree(tree_id).unwrap();
    let sig = Signature::now("A", "a@example.org").unwrap();
    let id = repo.commit(None, &sig, &sig, "first", &tree, &[]).unwrap();
    drop(tree);
    (repo, id)
}

#[test]
fn marker_search_reads_lines() {
    assert!(has_marker(&b"% preamble\n\\documentclass{article}\n".to_vec()));
    assert!(!has_marker(&b"\\begin{document}\nno class here\n".to_vec()));
    assert!(!has_marker(&Vec::new()));
}

#[test]
fn candidates_are_tex_files() {
    assert!(is_candidate("/t/main.tex", true));
    assert!(!is_candidate("/t/main.tex", false));
    assert!(!is_candidate("/t/main.bib", true));
}

#[test]
fn empty_tree_has_no_entry_document() {
    let err = locate(None, &Vec::new()).unwrap_err();
    assert_eq!(err.kind, ErrorKind::MainTeXNotFound);
}

#[test]
fn single_marked_file_is_entry_document() {
    let files = vec![file("/t/paper.tex", "\\documentclass{article}\n\\begin{document}x\\end{document}\n")];
    assert_eq!(locate(None, &files).unwrap(), "/t/paper.tex");
}

#[test]
fn last_marked_file_wins_and_unmarked_are_ignored() {
    let files = vec![
        file("/t/a.tex", "\\documentclass{article}\n"),
        file("/t/sec.tex", "\\section{Intro}\n"),
        file("/t/b.tex", "\\documentclass{report}\n"),
    ];
    assert_eq!(main_searcher(&files), vec!["/t/a.tex", "/t/b.tex"]);
    assert_eq!(locate(None, &files).unwrap(), "/t/b.tex");
    assert_eq!(locate(Some(String::from("given.tex")), &files).unwrap(), "given.tex");
    assert_eq!(guess_main_tex(None, Vec::new()).unwrap_err().kind, ErrorKind::MainTeXNotFound);
}

#[test]
fn index_token_is_case_insensitive() {
    assert!(is_index_token("index"));
    assert!(is_index_token("INDEX"));
    assert!(is_index_token("InDeX"));
    assert!(!is_index_token("index2"));
    assert!(!is_index_token("HEAD"));
}

#[test]
fn from_lookup_decides_on_lowered_token() {
    let id = Oid::from_str("0123456789abcdef0123456789abcdef01234567").unwrap();
    assert!(matches!(CommitWrapper::from_lookup("index", None), Ok(CommitWrapper::Index)));
    assert!(matches!(CommitWrapper::from_lookup("head", Some(id)), Ok(CommitWrapper::Commit(x)) if x == id));
    let err = CommitWrapper::from_lookup("deadbeef", None).err().unwrap();
    assert_eq!(err.kind, ErrorKind::InvalidCommitHash);
}

#[test]
fn parse_against_repository() {
    let dir = "/tmp/git_latexdiff_parse_repo";
    let (repo, id) = repo_with_commit(dir);
    let upper = String::from("INDEX");
    assert!(matches!(CommitWrapper::parse(&repo, &upper), Ok(CommitWrapper::Index)));
    let hex = id.to_string();
    let first = CommitWrapper::parse(&repo, &hex);
    let second = CommitWrapper::parse(&repo, &hex);
    assert!(matches!(first, Ok(CommitWrapper::Commit(x)) if x == id));
    assert!(matches!(second, Ok(CommitWrapper::Commit(x)) if x == id));
    let bad = String::from("deadbeef");
    assert_eq!(CommitWrapper::parse(&repo, &bad).err().unwrap().kind, ErrorKind::InvalidCommitHash);
}

#[test]
fn resolve_dispatches_on_spec() {
    let dir = "/tmp/git_latexdiff_resolve_repo";
    let (repo, _id) = repo_with_commit(dir);
    assert!(resolve(&repo, &RevisionSpec::Interactive).is_none());
    assert!(matches!(resolve(&repo, &RevisionSpec::UseWorkingIndex), Some(Ok(CommitWrapper::Index))));
    let spec = RevisionSpec::ExplicitToken(String::from("Index"));
    assert!(matches!(resolve(&repo, &spec), Some(Ok(CommitWrapper::Index))));
    assert!(matches!(RevisionSpec::from_token(None), RevisionSpec::Interactive));
    assert!(matches!(RevisionSpec::from_token(Some(String::from("v1"))), RevisionSpec::ExplicitToken(t) if t == "v1"));
}

#[test]
fn selection_outcomes() {
    let id = Oid::from_str("0123456789abcdef0123456789abcdef01234567").unwrap();
    assert_eq!(selection_outcome(false, vec![id]).unwrap(), id);
    assert_eq!(selection_outcome(true, Vec::new()).unwrap_err().kind, ErrorKind::SkimAbort);
}

#[test]
fn only_tex_files_count() {
    let files = vec![
        file("/t/main.tex", "\\documentclass{article}\n"),
        file("/t/notes.txt", "\\documentclass{article}\n"),
    ];
    assert_eq!(main_searcher(&files), vec!["/t/main.tex"]);
    assert_eq!(locate(None, &files).unwrap(), "/t/main.tex");
}
