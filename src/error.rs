use vstd::prelude::*;

verus! {

/// The kind of an error that can occur.
#[derive(Clone, Debug, PartialEq, Eq)]
pub enum ErrorKind {
    /// The name of a binary that was not given and not found in `$PATH`.
    BinaryNotFound(String),
    /// The name of the task whose compilation failed.
    CompileError(String),
    /// The user aborted the interactive selection of a commit.
    SkimAbort,
    /// The path from which no git repository could be discovered.
    RepoNotFound(String),
    /// The main TeX file was neither given nor found by searching.
    MainTeXNotFound,
    /// Interactive selection is not supported on this platform.
    NotSupportedDevice,
    /// A revision token names no object of the repository.
    InvalidCommitHash,
    /// A filesystem operation failed; the text names the operation.
    IoError(String),
    /// The workspace root failed the check made before deleting it.
    UnsafeTeardown(String),
    /// The given main TeX file is not a relative path that stays inside the
    /// checked-out tree.
    InvalidMainTeX(String),
}

/// An error that can occur in this app.
#[derive(Clone, Debug, PartialEq, Eq)]
pub struct Error {
    pub kind: ErrorKind,
}

/// The text shown to the user for an error of kind `k`.
pub open spec fn message_of(k: ErrorKind) -> Seq<char> {
    match k {
        ErrorKind::BinaryNotFound(name) => "'"@ + name@ + "' is not given and not found in $PATH"@,
        ErrorKind::CompileError(task) => "errors occurs in the "@ + task@ + " compilation"@,
        ErrorKind::SkimAbort => "abort occurs in the selecting commits"@,
        ErrorKind::RepoNotFound(path) => "Repository not found in "@ + path@,
        ErrorKind::MainTeXNotFound => "Main TeX not given and can not be inferred"@,
        ErrorKind::NotSupportedDevice => "Not supported device"@,
        ErrorKind::InvalidCommitHash => "Invalid commit hash"@,
        ErrorKind::IoError(op) => "I/O error in "@ + op@,
        ErrorKind::UnsafeTeardown(root) => "refusing to remove "@ + root@,
        ErrorKind::InvalidMainTeX(path) => "Main TeX must be a relative path inside the repository: "@ + path@,
    }
}

/// Joins two pieces of text.
fn join2(a: &str, b: &str) -> (r: String)
    ensures
        r@ == a@ + b@,
{
    let mut r = String::from_str(a);
    r.append(b);
    r
}

/// Joins three pieces of text.
fn join3(a: &str, b: &str, c: &str) -> (r: String)
    ensures
        r@ == a@ + b@ + c@,
{
    let mut r = String::from_str(a);
    r.append(b);
    r.append(c);
    r
}

impl ErrorKind {
    /// A copy of this kind.
    pub fn duplicate(&self) -> (r: ErrorKind)
        ensures
            r == *self,
    {
        match self {
            ErrorKind::BinaryNotFound(s) => ErrorKind::BinaryNotFound(s.clone()),
            ErrorKind::CompileError(s) => ErrorKind::CompileError(s.clone()),
            ErrorKind::SkimAbort => ErrorKind::SkimAbort,
            ErrorKind::RepoNotFound(s) => ErrorKind::RepoNotFound(s.clone()),
            ErrorKind::MainTeXNotFound => ErrorKind::MainTeXNotFound,
            ErrorKind::NotSupportedDevice => ErrorKind::NotSupportedDevice,
            ErrorKind::InvalidCommitHash => ErrorKind::InvalidCommitHash,
            ErrorKind::IoError(s) => ErrorKind::IoError(s.clone()),
            ErrorKind::UnsafeTeardown(s) => ErrorKind::UnsafeTeardown(s.clone()),
            ErrorKind::InvalidMainTeX(s) => ErrorKind::InvalidMainTeX(s.clone()),
        }
    }
}

impl Error {
    pub fn new(kind: ErrorKind) -> (r: Error)
        ensures
            r.kind == kind,
    {
        Error { kind }
    }

    /// Return the kind of this error.
    pub fn kind(&self) -> (r: &ErrorKind)
        ensures
            *r == self.kind,
    {
        &self.kind
    }

    /// A copy of this error.
    pub fn duplicate(&self) -> (r: Error)
        ensures
            r == *self,
    {
        Error { kind: self.kind.duplicate() }
    }

    /// The text shown to the user for this error.
    pub fn message(&self) -> (r: String)
        ensures
            r@ == message_of(self.kind),
    {
        match &self.kind {
            ErrorKind::BinaryNotFound(name) => join3("'", name.as_str(), "' is not given and not found in $PATH"),
            ErrorKind::CompileError(task) => join3("errors occurs in the ", task.as_str(), " compilation"),
            ErrorKind::SkimAbort => String::from_str("abort occurs in the selecting commits"),
            ErrorKind::RepoNotFound(path) => join2("Repository not found in ", path.as_str()),
            ErrorKind::MainTeXNotFound => String::from_str("Main TeX not given and can not be inferred"),
            ErrorKind::NotSupportedDevice => String::from_str("Not supported device"),
            ErrorKind::InvalidCommitHash => String::from_str("Invalid commit hash"),
            ErrorKind::IoError(op) => join2("I/O error in ", op.as_str()),
            ErrorKind::UnsafeTeardown(root) => join2("refusing to remove ", root.as_str()),
            ErrorKind::InvalidMainTeX(path) => join2(
                "Main TeX must be a relative path inside the repository: ",
                path.as_str(),
            ),
        }
    }
}

} // verus!
