//! The report on whether the external programs the pipeline runs are present.
use vstd::prelude::*;

use crate::latex::texts;

verus! {

/// The programs that a run may need.
pub open spec fn required_of() -> Seq<Seq<char>> {
    seq![
        "perl"@,
        "latexdiff"@,
        "latexdiff-so"@,
        "latexpand"@,
        "pdflatex"@,
        "xelatex"@,
        "luatex"@,
        "bibtex"@,
    ]
}

/// The programs that a run may need.
pub fn required_binaries() -> (r: Vec<String>)
    ensures
        texts(r@) == required_of(),
{
    let mut r: Vec<String> = Vec::new();
    r.push(String::from_str("perl"));
    r.push(String::from_str("latexdiff"));
    r.push(String::from_str("latexdiff-so"));
    r.push(String::from_str("latexpand"));
    r.push(String::from_str("pdflatex"));
    r.push(String::from_str("xelatex"));
    r.push(String::from_str("luatex"));
    r.push(String::from_str("bibtex"));
    assert(texts(r@) =~= required_of());
    r
}

/// What the lookup of one program found.
pub struct BinaryStatus {
    pub name: String,
    /// The path found, or a note that there is none.
    pub shown: String,
    pub found: bool,
}

/// The report: one status per program, and whether all were found.
pub struct HealthReport {
    pub statuses: Vec<BinaryStatus>,
    pub ready: bool,
}

/// What the report shows for a lookup.
pub open spec fn shown_of(found: Option<String>) -> Seq<char> {
    match found {
        Some(p) => p@,
        None => "Not found in $PATH"@,
    }
}

/// The line printed for one program.
pub open spec fn status_line_of(name: Seq<char>, shown: Seq<char>) -> Seq<char> {
    "Binary for "@ + name + ": "@ + shown
}

impl BinaryStatus {
    /// The line printed for this program: `Binary for <name>: <shown>`.
    pub fn line(&self) -> (r: String)
        ensures
            r@ == status_line_of(self.name@, self.shown@),
    {
        let mut r = String::from_str("Binary for ");
        r.append(self.name.as_str());
        r.append(": ");
        r.append(self.shown.as_str());
        r
    }
}

/// The report for the lookups `(name, path found)`, in the order given:
/// ready exactly when every program was found.
pub fn health_check(lookups: Vec<(String, Option<String>)>) -> (r: HealthReport)
    ensures
        r.statuses@.len() == lookups@.len(),
        forall|i: int|
            0 <= i < lookups@.len() ==> {
                let s = #[trigger] r.statuses@[i];
                &&& s.name == lookups@[i].0
                &&& s.found == lookups@[i].1 is Some
                &&& s.shown@ == shown_of(lookups@[i].1)
            },
        r.ready == forall|i: int| 0 <= i < lookups@.len() ==> (#[trigger] lookups@[i]).1 is Some,
{
    let mut statuses: Vec<BinaryStatus> = Vec::new();
    let mut ready = true;
    let mut i: usize = 0;
    while i < lookups.len()
        invariant
            i <= lookups@.len(),
            statuses@.len() == i,
            forall|j: int|
                0 <= j < i ==> {
                    let s = #[trigger] statuses@[j];
                    &&& s.name == lookups@[j].0
                    &&& s.found == lookups@[j].1 is Some
                    &&& s.shown@ == shown_of(lookups@[j].1)
                },
            ready == forall|j: int| 0 <= j < i ==> (#[trigger] lookups@[j]).1 is Some,
        decreases lookups@.len() - i,
    {
        let name = lookups[i].0.clone();
        let (shown, found) = match &lookups[i].1 {
            Some(p) => (p.clone(), true),
            None => (String::from_str("Not found in $PATH"), false),
        };
        if !found {
            ready = false;
        }
        statuses.push(BinaryStatus { name, shown, found });
        i = i + 1;
    }
    HealthReport { statuses, ready }
}

} // verus!
