//! Turning a revision token into a snapshot of the repository: a commit,
//! or the working index.
use vstd::prelude::*;

use git2::{Oid, Repository};

use crate::error::{Error, ErrorKind};

verus! {

#[verifier::external_type_specification]
#[verifier::external_body]
pub struct ExOid(Oid);

#[verifier::external_type_specification]
#[verifier::external_body]
pub struct ExRepository(Repository);

/// What `str::to_lowercase` returns for `s`.
pub uninterp spec fn lower_of(s: Seq<char>) -> Seq<char>;

/// Relies on `str::to_lowercase`: the lowercase form of `s`, which depends
/// on the characters of `s` alone.
#[verifier::external_body]
fn lowercase(s: &str) -> (r: String)
    ensures
        r@ == lower_of(s@),
{
    s.to_lowercase()
}

/// Relies on git2's `Repository::revparse_single` and `Object::id`: the id
/// of the object that `token` names in `repo`, if any. The answer depends
/// on what the repository holds, so nothing is promised of it.
#[verifier::external_body]
fn lookup_revision(repo: &Repository, token: &str) -> (r: Option<Oid>) {
    match repo.revparse_single(token) {
        Ok(obj) => Some(obj.id()),
        Err(_) => None,
    }
}

/// A snapshot of the repository to check out.
pub enum CommitWrapper {
    /// The working index, with its uncommitted state.
    Index,
    /// A committed object.
    Commit(Oid),
}

/// How a revision is asked for.
pub enum RevisionSpec {
    ExplicitToken(String),
    UseWorkingIndex,
    Interactive,
}

/// The snapshot for a token whose lowercase form is `lowered`, given what
/// the repository answered when asked for the token (`found`).
pub open spec fn resolution_of(lowered: Seq<char>, found: Option<Oid>) -> Result<CommitWrapper, Error> {
    if lowered == "index"@ {
        Ok(CommitWrapper::Index)
    } else {
        match found {
            Some(id) => Ok(CommitWrapper::Commit(id)),
            None => Err(Error { kind: ErrorKind::InvalidCommitHash }),
        }
    }
}

/// Whether `token` names the working index: its lowercase form is `index`.
pub fn is_index_token(token: &str) -> (r: bool)
    ensures
        r == (lower_of(token@) == "index"@),
{
    let lowered = lowercase(token);
    lowered == String::from_str("index")
}

impl CommitWrapper {
    /// A copy of this snapshot.
    pub fn duplicate(&self) -> (r: CommitWrapper)
        ensures
            r == *self,
    {
        match self {
            CommitWrapper::Index => CommitWrapper::Index,
            CommitWrapper::Commit(id) => CommitWrapper::Commit(*id),
        }
    }

    /// The snapshot for a token whose lowercase form is `lowered`, given the
    /// object that the repository found for it.
    pub fn from_lookup(lowered: &str, found: Option<Oid>) -> (r: Result<CommitWrapper, Error>)
        ensures
            r == resolution_of(lowered@, found),
    {
        if String::from_str(lowered) == String::from_str("index") {
            Ok(CommitWrapper::Index)
        } else {
            match found {
                Some(id) => Ok(CommitWrapper::Commit(id)),
                None => Err(Error::new(ErrorKind::InvalidCommitHash)),
            }
        }
    }

    /// The snapshot that `hash` names in `repo`: the working index for
    /// `index` in any case, else the object the repository finds, else
    /// `InvalidCommitHash`.
    pub fn parse(repo: &Repository, hash: &String) -> (r: Result<CommitWrapper, Error>)
        ensures
            exists|found: Option<Oid>| r == resolution_of(lower_of(hash@), found),
            lower_of(hash@) == "index"@ ==> r == Ok::<CommitWrapper, Error>(CommitWrapper::Index),
    {
        let lowered = lowercase(hash.as_str());
        if lowered == String::from_str("index") {
            let r = Ok(CommitWrapper::Index);
            assert(r == resolution_of(lower_of(hash@), None));
            r
        } else {
            let found = lookup_revision(repo, hash.as_str());
            CommitWrapper::from_lookup(lowered.as_str(), found)
        }
    }
}

impl RevisionSpec {
    /// The way a revision is asked for on the command line: no token means
    /// interactive selection.
    pub fn from_token(token: Option<String>) -> (r: RevisionSpec)
        ensures
            match token {
                Some(t) => r == RevisionSpec::ExplicitToken(t),
                None => r is Interactive,
            },
    {
        match token {
            Some(t) => RevisionSpec::ExplicitToken(t),
            None => RevisionSpec::Interactive,
        }
    }
}

/// The snapshot for `spec`, or `None` when only the interactive selector
/// can give it.
pub fn resolve(repo: &Repository, spec: &RevisionSpec) -> (r: Option<Result<CommitWrapper, Error>>)
    ensures
        r is None <==> spec is Interactive,
        spec is UseWorkingIndex ==> r == Some(Ok::<CommitWrapper, Error>(CommitWrapper::Index)),
        spec matches RevisionSpec::ExplicitToken(t) ==> (r matches Some(o) && exists|found: Option<Oid>|
            o == resolution_of(lower_of(t@), found)),
{
    match spec {
        RevisionSpec::ExplicitToken(t) => Some(CommitWrapper::parse(repo, t)),
        RevisionSpec::UseWorkingIndex => Some(Ok(CommitWrapper::Index)),
        RevisionSpec::Interactive => None,
    }
}

/// What a finished interactive selection gives: `SkimAbort` when the user
/// cancelled, else the one item selected.
pub fn selection_outcome(aborted: bool, selected: Vec<Oid>) -> (r: Result<Oid, Error>)
    requires
        aborted || selected@.len() == 1,
    ensures
        aborted ==> r == Err::<Oid, Error>(Error { kind: ErrorKind::SkimAbort }),
        !aborted ==> r == Ok::<Oid, Error>(selected@[0]),
{
    if aborted {
        Err(Error::new(ErrorKind::SkimAbort))
    } else {
        Ok(selected[0])
    }
}

/// A token resolves to the working index exactly when its lowercase form is
/// `index`, whatever the repository holds; any other token resolves to the
/// object that the repository finds for it, and to `InvalidCommitHash` when
/// it finds none.
pub proof fn lemma_resolution_by_token(token: Seq<char>, found1: Option<Oid>, found2: Option<Oid>)
    ensures
        lower_of(token) == "index"@ ==> resolution_of(lower_of(token), found1) == resolution_of(
            lower_of(token),
            found2,
        ),
        lower_of(token) == "index"@ <==> resolution_of(lower_of(token), found1) == Ok::<
            CommitWrapper,
            Error,
        >(CommitWrapper::Index),
        lower_of(token) != "index"@ ==> (found1 is None <==> resolution_of(lower_of(token), found1)
            is Err),
{
}

} // verus!
