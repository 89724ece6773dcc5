use git_latexdiff::error::{Error, ErrorKind};
use git_latexdiff::health::{health_check, required_binaries};
use git_latexdiff::item;
use git_latexdiff::paths::{extension, file_name, has_extension, is_inside_path, join, parent, with_extension};

#[test]
fn join_adds_one_separator() {
    assert_eq!(join("/a/b", "c.tex"), "/a/b/c.tex");
    assert_eq!(join("/a/b/", "c.tex"), "/a/b/c.tex");
    assert_eq!(join("", "c.tex"), "c.tex");
    assert_eq!(join("/a", "/abs/c.tex"), "/abs/c.tex");
}

#[test]
fn parent_and_file_name_split_at_last_slash() {
    assert_eq!(parent("/a/b/main.tex"), "/a/b");
    assert_eq!(parent("/main.tex"), "/");
    assert_eq!(parent("main.tex"), "");
    assert_eq!(file_name("/a/b/main.tex"), "main.tex");
    assert_eq!(file_name("main.tex"), "main.tex");
}

#[test]
fn extension_follows_rules_of_last_component() {
    assert_eq!(extension("/a/main.tex"), Some(String::from("tex")));
    assert_eq!(extension("/a.d/main"), None);
    assert_eq!(extension("/a/.tex"), None);
    assert_eq!(extension("/a/archive.tar.gz"), Some(String::from("gz")));
    assert!(has_extension("x/paper.tex", "tex"));
    assert!(!has_extension("x/paper.texx", "tex"));
}

#[test]
fn with_extension_replaces_or_strips() {
    assert_eq!(with_extension("/w/new/diff.tex", "pdf"), "/w/new/diff.pdf");
    assert_eq!(with_extension("/w/old/main.aux", ""), "/w/old/main");
    assert_eq!(with_extension("/w/old/main", "pdf"), "/w/old/main.pdf");
    assert_eq!(with_extension("/w/old/", "pdf"), "/w/old/");
}

#[test]
fn error_messages_per_kind() {
    let cases = vec![
        (ErrorKind::BinaryNotFound(String::from("latexdiff")), "'latexdiff' is not given and not found in $PATH"),
        (ErrorKind::CompileError(String::from("bibtex")), "errors occurs in the bibtex compilation"),
        (ErrorKind::SkimAbort, "abort occurs in the selecting commits"),
        (ErrorKind::RepoNotFound(String::from("/r")), "Repository not found in /r"),
        (ErrorKind::MainTeXNotFound, "Main TeX not given and can not be inferred"),
        (ErrorKind::NotSupportedDevice, "Not supported device"),
        (ErrorKind::InvalidCommitHash, "Invalid commit hash"),
        (ErrorKind::IoError(String::from("copy")), "I/O error in copy"),
        (ErrorKind::UnsafeTeardown(String::from("/")), "refusing to remove /"),
        (
            ErrorKind::InvalidMainTeX(String::from("/etc/x.tex")),
            "Main TeX must be a relative path inside the repository: /etc/x.tex",
        ),
    ];
    for (kind, text) in cases {
        let e = Error::new(kind.clone());
        assert_eq!(e.kind(), &kind);
        assert_eq!(e.message(), text);
        assert_eq!(e.duplicate(), e);
    }
}

#[test]
fn health_report_is_ready_only_when_all_found() {
    let names = required_binaries();
    assert_eq!(names.len(), 8);
    assert_eq!(names[0], "perl");
    assert_eq!(names[7], "bibtex");
    let all: Vec<(String, Option<String>)> =
        names.iter().map(|n| (n.clone(), Some(format!("/usr/bin/{}", n)))).collect();
    let report = health_check(all);
    assert!(report.ready);
    assert_eq!(report.statuses[1].line(), "Binary for latexdiff: /usr/bin/latexdiff");
    let mut some: Vec<(String, Option<String>)> =
        names.iter().map(|n| (n.clone(), Some(format!("/bin/{}", n)))).collect();
    some[3].1 = None;
    let report = health_check(some);
    assert!(!report.ready);
    assert!(!report.statuses[3].found);
    assert_eq!(report.statuses[3].line(), "Binary for latexpand: Not found in $PATH");
    assert!(health_check(Vec::new()).ready);
}

#[test]
fn selector_texts() {
    let id = "0123456789abcdef0123456789abcdef01234567";
    assert_eq!(item::short_id(id), "0123456");
    assert_eq!(item::short_id("abc"), "abc");
    assert_eq!(item::text(id, "Fix typo\n"), format!("{} Fix typo\n", id));
    assert_eq!(item::display(id, "Fix typo"), "0123456 Fix typo");
    assert_eq!(item::output(id, "Fix typo"), "0123456 Fix typo has been selected.");
    assert_eq!(item::preview(id, "A <a@b>", "msg"), format!("commit {}\nAuthor: A <a@b>\n\nmsg", id));
}

#[test]
fn entry_paths_must_stay_inside() {
    assert!(is_inside_path("main.tex"));
    assert!(is_inside_path("paper/main.tex"));
    assert!(is_inside_path("a..b.tex"));
    assert!(!is_inside_path(""));
    assert!(!is_inside_path("/repo/main.tex"));
    assert!(!is_inside_path("../main.tex"));
    assert!(!is_inside_path("paper/../../main.tex"));
    assert!(!is_inside_path("paper/.."));
}
