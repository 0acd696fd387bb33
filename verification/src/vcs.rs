//! The repository status summarizer.
//!
//! The repository reader is an outside capability: opening a
//! repository, resolving its current reference, and enumerating the
//! file status table go through trusted declarations below, and what
//! they hand back is plain data that the verified reduction works on.

use vstd::prelude::*;
use crate::status::{ReduceMode, StatusIndicator, reduce};
use crate::text::{chars_of, string_of};

verus! {

#[verifier::external_type_specification]
#[verifier::external_body]
pub struct ExRepository(git2::Repository);

#[verifier::external_type_specification]
#[verifier::external_body]
pub struct ExGitError(git2::Error);

#[verifier::external_type_specification]
#[verifier::external_body]
pub struct ExReference<'a>(git2::Reference<'a>);

#[verifier::external_type_specification]
#[verifier::external_body]
pub struct ExCommit<'a>(git2::Commit<'a>);

/// Relies on git2::Repository::open: a handle when a repository can
/// be opened at the path, nothing otherwise. The outcome depends on
/// what is on disk.
#[verifier::external_body]
fn open_repository(path: &str) -> (r: Option<git2::Repository>) {
    git2::Repository::open(path).ok()
}

/// Relies on git2::Repository::head: the current reference, or an
/// error when it cannot be resolved (for one, before any commit).
#[verifier::external_body]
fn repo_head<'r>(repo: &'r git2::Repository) -> (r: Result<git2::Reference<'r>, git2::Error>) {
    repo.head()
}

/// Relies on git2::Reference::is_branch: whether the reference names
/// a local branch.
#[verifier::external_body]
fn reference_is_branch(reference: &git2::Reference<'_>) -> (r: bool) {
    reference.is_branch()
}

/// Relies on git2::Reference::shorthand: the short name of the
/// reference, or an error when the name is not valid text.
#[verifier::external_body]
fn reference_shorthand(reference: &git2::Reference<'_>) -> (r: Result<String, git2::Error>) {
    match reference.shorthand() {
        Ok(s) => Ok(s.to_owned()),
        Err(e) => Err(e),
    }
}

/// Relies on git2::Reference::peel_to_commit: the commit the
/// reference resolves to, or an error.
#[verifier::external_body]
fn peel_to_commit<'r>(reference: &git2::Reference<'r>) -> (r: Result<
    git2::Commit<'r>,
    git2::Error,
>) {
    reference.peel_to_commit()
}

/// Relies on git2::Commit::id and the hexadecimal display of an
/// object id: forty digits for a twenty-byte id, sixty-four for a
/// thirty-two-byte one.
#[verifier::external_body]
fn commit_id_hex(commit: &git2::Commit<'_>) -> (r: String)
    ensures
        r@.len() == 40 || r@.len() == 64,
{
    commit.id().to_string()
}

/// Relies on git2::Repository::statuses, with default options, as the
/// per-file status query; each entry's flag word is handed out as its
/// plain bits, in table order. The outcome depends on what is on disk.
#[verifier::external_body]
fn repo_status_bits(repo: &git2::Repository) -> (r: Result<Vec<u32>, git2::Error>) {
    match repo.statuses(None) {
        Ok(list) => Ok(list.iter().map(|e| e.status().bits()).collect()),
        Err(e) => Err(e),
    }
}

/// The current position of a repository: a named branch, or a commit
/// the head points at directly, labeled by a prefix of its id.
#[derive(Debug, PartialEq, Eq)]
pub enum RefInfo {
    Branch(String),
    Detached(String),
}

/// The label the prompt shows for a reference.
pub open spec fn ref_label(info: RefInfo) -> Seq<char> {
    match info {
        RefInfo::Branch(name) => name@,
        RefInfo::Detached(label) => label@,
    }
}

/// Why a summary of an opened repository failed.
#[derive(Clone, Copy, PartialEq, Eq, Structural, Debug)]
pub enum VcsError {
    HeadResolution,
    ReferenceName,
    CommitResolution,
    StatusQuery,
}

/// The first six characters of an id's hexadecimal form, or all of a
/// shorter one.
pub open spec fn detached_label_spec(hex: Seq<char>) -> Seq<char> {
    if hex.len() <= 6 {
        hex
    } else {
        hex.take(6)
    }
}

/// Label a detached head by the leading characters of its commit id.
pub fn detached_label(hex: &str) -> (r: String)
    ensures
        r@ == detached_label_spec(hex@),
{
    let v = chars_of(hex);
    let mut out: Vec<char> = Vec::new();
    let mut i: usize = 0;
    while i < v.len() && i < 6
        invariant
            v@ == hex@,
            0 <= i <= v.len(),
            i <= 6,
            out@ == v@.take(i as int),
        decreases v.len() - i,
    {
        out.push(v[i]);
        proof {
            assert(out@ =~= v@.take(i + 1));
        }
        i = i + 1;
    }
    proof {
        assert(v@.take(v@.len() as int) =~= v@);
    }
    string_of(&out)
}

/// Summarize an opened repository: the current reference's label and
/// the reduction of its file status table under the given mode. A
/// reference that cannot be resolved is an error, not a silent
/// degradation.
pub fn summarize_repo(repo: &git2::Repository, mode: ReduceMode) -> (r: Result<
    (RefInfo, StatusIndicator),
    VcsError,
>)
    ensures
        r matches Ok(s) ==> (s.0 matches RefInfo::Detached(label) ==> label@.len() == 6),
{
    let head = match repo_head(repo) {
        Ok(h) => h,
        Err(_) => {
            return Err(VcsError::HeadResolution);
        },
    };
    let info = if reference_is_branch(&head) {
        match reference_shorthand(&head) {
            Ok(name) => RefInfo::Branch(name),
            Err(_) => {
                return Err(VcsError::ReferenceName);
            },
        }
    } else {
        let commit = match peel_to_commit(&head) {
            Ok(c) => c,
            Err(_) => {
                return Err(VcsError::CommitResolution);
            },
        };
        let hex = commit_id_hex(&commit);
        RefInfo::Detached(detached_label(hex.as_str()))
    };
    let bits = match repo_status_bits(repo) {
        Ok(b) => b,
        Err(_) => {
            return Err(VcsError::StatusQuery);
        },
    };
    Ok((info, reduce(&bits, mode)))
}

/// Summarize the repository at a path. No repository there is not a
/// failure: it yields `None`, the expected outcome outside a
/// version-controlled directory.
pub fn summarize(path: &str, mode: ReduceMode) -> (r: Result<
    Option<(RefInfo, StatusIndicator)>,
    VcsError,
>)
    ensures
        r matches Ok(Some(s)) ==> (s.0 matches RefInfo::Detached(label) ==> label@.len() == 6),
{
    match open_repository(path) {
        None => Ok(None),
        Some(repo) => match summarize_repo(&repo, mode) {
            Ok(s) => Ok(Some(s)),
            Err(e) => Err(e),
        },
    }
}

} // verus!
