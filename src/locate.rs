//! Finding the entry document of a source tree: the TeX file that holds
//! `\documentclass`.
use vstd::prelude::*;

use grep::regex::RegexMatcher;
use grep::searcher::sinks::UTF8;
use grep::searcher::{BinaryDetection, SearcherBuilder};

use crate::error::{Error, ErrorKind};
use crate::latex::texts;
use crate::paths::{extension_of, has_extension};

verus! {

/// The numbers of the lines of `content` that the regular expression
/// `pattern` matches.
pub uninterp spec fn line_matches(pattern: Seq<char>, content: Seq<u8>) -> Seq<u64>;

/// Adds the number of a matching line; the search goes on.
pub fn record_hit(hits: &mut Vec<u64>, line: u64) -> (r: bool)
    ensures
        final(hits)@ == old(hits)@.push(line),
        r,
{
    hits.push(line);
    true
}

/// Relies on grep's `RegexMatcher::new_line_matcher` and
/// `Searcher::search_slice` (line numbers on, binary detection that stops at
/// a NUL byte): the numbers of the lines of `content` that `pattern`
/// matches. The result depends on the two arguments alone.
#[verifier::external_body]
fn search_lines(pattern: &str, content: &Vec<u8>) -> (r: Vec<u64>)
    ensures
        r@ == line_matches(pattern@, content@),
{
    let mut hits: Vec<u64> = Vec::new();
    if let Ok(matcher) = RegexMatcher::new_line_matcher(pattern) {
        let mut searcher = SearcherBuilder::new()
            .binary_detection(BinaryDetection::quit(b'\x00'))
            .line_number(true)
            .build();
        let sink = UTF8(|lnum, _line| Ok(record_hit(&mut hits, lnum)));
        let _ = searcher.search_slice(&matcher, content.as_slice(), sink);
    }
    hits
}

/// A file of a source tree, with what it holds.
pub struct SourceFile {
    pub path: String,
    pub content: Vec<u8>,
}

/// Whether a line of `content` starts a document.
pub open spec fn is_marked(content: Seq<u8>) -> bool {
    line_matches("\\\\documentclass"@, content).len() > 0
}

/// Whether `f` is a TeX file whose content starts a document.
pub open spec fn starts_document(f: SourceFile) -> bool {
    extension_of(f.path@) == Some("tex"@) && is_marked(f.content@)
}

/// The paths of the TeX files that start a document, in the order given.
pub open spec fn marked_paths(files: Seq<SourceFile>) -> Seq<Seq<char>>
    decreases files.len(),
{
    if files.len() == 0 {
        Seq::empty()
    } else {
        let prev = marked_paths(files.drop_last());
        if starts_document(files.last()) {
            prev.push(files.last().path@)
        } else {
            prev
        }
    }
}

/// Whether an entry of a scan is worth searching: a file named `*.tex`.
pub fn is_candidate(path: &str, is_file: bool) -> (r: bool)
    ensures
        r == (is_file && extension_of(path@) == Some("tex"@)),
{
    is_file && has_extension(path, "tex")
}

/// Whether a line of `content` holds `\documentclass`.
pub fn has_marker(content: &Vec<u8>) -> (r: bool)
    ensures
        r == is_marked(content@),
{
    search_lines("\\\\documentclass", content).len() > 0
}

/// The paths of the TeX files that start a document, in scan order.
pub fn main_searcher(files: &Vec<SourceFile>) -> (r: Vec<String>)
    ensures
        texts(r@) == marked_paths(files@),
{
    let mut r: Vec<String> = Vec::new();
    let mut i: usize = 0;
    while i < files.len()
        invariant
            i <= files@.len(),
            texts(r@) == marked_paths(files@.subrange(0, i as int)),
        decreases files@.len() - i,
    {
        let ghost before = r@;
        proof {
            let s1 = files@.subrange(0, i + 1);
            assert(s1.drop_last() =~= files@.subrange(0, i as int));
            assert(s1.last() == files@[i as int]);
        }
        if has_extension(files[i].path.as_str(), "tex") && has_marker(&files[i].content) {
            r.push(files[i].path.clone());
            assert(texts(r@) =~= texts(before).push(files@[i as int].path@));
        }
        i = i + 1;
    }
    assert(files@.subrange(0, files@.len() as int) =~= files@);
    r
}

/// The text of an optional string.
pub open spec fn opt_text(o: Option<String>) -> Option<Seq<char>> {
    match o {
        Some(s) => Some(s@),
        None => None,
    }
}

/// The entry document: the one given, else the last file found to start
/// a document, else none.
pub open spec fn guess_of(explicit: Option<Seq<char>>, found: Seq<Seq<char>>) -> Option<Seq<char>> {
    match explicit {
        Some(m) => Some(m),
        None => if found.len() == 0 {
            None
        } else {
            Some(found.last())
        },
    }
}

/// The entry document: `explicit` when given, else the last of `found`;
/// `MainTeXNotFound` when neither exists.
pub fn guess_main_tex(explicit: Option<String>, found: Vec<String>) -> (r: Result<String, Error>)
    ensures
        match guess_of(opt_text(explicit), texts(found@)) {
            Some(m) => r matches Ok(p) && p@ == m,
            None => r matches Err(e) && e.kind == ErrorKind::MainTeXNotFound,
        },
{
    match explicit {
        Some(m) => Ok(m),
        None => {
            let mut found = found;
            match found.pop() {
                Some(p) => Ok(p),
                None => Err(Error::new(ErrorKind::MainTeXNotFound)),
            }
        },
    }
}

/// The entry document of a tree whose files are `files`, in scan order.
pub fn locate(explicit: Option<String>, files: &Vec<SourceFile>) -> (r: Result<String, Error>)
    ensures
        match guess_of(opt_text(explicit), marked_paths(files@)) {
            Some(m) => r matches Ok(p) && p@ == m,
            None => r matches Err(e) && e.kind == ErrorKind::MainTeXNotFound,
        },
{
    guess_main_tex(explicit, main_searcher(files))
}

/// An empty tree has no entry document, and a tree whose one file is a TeX
/// file that starts a document has that file as entry document.
pub proof fn lemma_locate_empty_and_single(files: Seq<SourceFile>)
    ensures
        files.len() == 0 ==> guess_of(None, marked_paths(files)) is None,
        files.len() == 1 && starts_document(files[0]) ==> guess_of(None, marked_paths(files))
            == Some(files[0].path@),
{
    if files.len() == 1 {
        assert(files.drop_last().len() == 0);
        assert(marked_paths(files.drop_last()) =~= Seq::<Seq<char>>::empty());
    }
}

} // verus!
