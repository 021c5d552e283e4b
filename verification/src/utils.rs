//! Repository-handle resolution, head resolution and staging-area
//! mutation.

use vstd::prelude::*;
use vstd::utf8::decode_utf8;
use vstd::utf8::valid_utf8;

use crate::error::Error;
use crate::git;
use crate::ids::CommitId;
use crate::ids::Head;

verus! {

/// The raw libgit2 code for "the requested object could not be found".
pub const CODE_NOT_FOUND: i32 = -3;

/// The raw libgit2 code for "a reference with no target yet" (a freshly
/// initialized, commit-less repository).
pub const CODE_UNBORN_BRANCH: i32 = -9;

/// Classifies the failure of opening a repository: a not-found code means
/// no repository stands at or above the path, anything else is an
/// unclassified store failure carrying the store's message.
pub fn open_error_from(code: i32, message: String) -> (r: Error)
    ensures
        code == CODE_NOT_FOUND ==> r matches Error::NotARepository,
        code != CODE_NOT_FOUND ==> (r matches Error::UnderlyingStoreFailure(m) && m
            == message),
{
    if code == CODE_NOT_FOUND {
        Error::NotARepository
    } else {
        Error::UnderlyingStoreFailure(message)
    }
}

/// Classifies the failure of resolving the head reference: the
/// unborn-branch code is the expected commit-less case and becomes
/// `NoHead`; anything else — a genuinely broken or unreadable reference
/// included — is an unclassified store failure carrying the store's
/// message, kept distinguishable from `NoHead`.
pub fn head_error_from(code: i32, message: String) -> (r: Error)
    ensures
        code == CODE_UNBORN_BRANCH ==> r matches Error::NoHead,
        code != CODE_UNBORN_BRANCH ==> (r matches Error::UnderlyingStoreFailure(m) && m
            == message),
{
    if code == CODE_UNBORN_BRANCH {
        Error::NoHead
    } else {
        Error::UnderlyingStoreFailure(message)
    }
}

/// Validates a freshly opened handle against the store's bareness
/// answer: a bare repository is rejected with `BareRepository`, and a
/// non-bare one is handed through unchanged.
pub fn classify_open(repository: git2::Repository, bare: bool) -> (r: Result<
    git2::Repository,
    Error,
>)
    ensures
        bare ==> (r matches Err(e) && e matches Error::BareRepository),
        !bare ==> (r matches Ok(h) && h == repository),
{
    if bare {
        Err(Error::BareRepository)
    } else {
        Ok(repository)
    }
}

/// Opens the repository at or above `repo_path` and validates it: a
/// handle comes back only for a non-bare repository, so every caller
/// inherits the working-tree guarantee. Fails with `NotARepository` when
/// none is found and with `BareRepository` when the found one has no
/// working tree.
pub fn repo(repo_path: &str) -> (r: Result<git2::Repository, Error>)
    ensures
        r matches Err(e) ==> (e matches Error::NotARepository
            || e matches Error::BareRepository
            || e matches Error::UnderlyingStoreFailure(_)),
{
    match git::open_repo(repo_path) {
        Ok(repository) => {
            let bare = git::repo_is_bare(&repository);
            classify_open(repository, bare)
        }
        Err(e) => Err(open_error_from(e.0, e.1)),
    }
}

/// Whether a repository can be opened at or above `repo_path`, bare or
/// not.
pub fn is_repo(repo_path: &str) -> bool {
    git::open_repo(repo_path).is_ok()
}

/// Whether the repository at `repo_path` is bare; fails when none can be
/// opened at all.
pub fn is_bare_repo(repo_path: &str) -> (r: Result<bool, Error>)
    ensures
        r matches Err(e) ==> (e matches Error::NotARepository
            || e matches Error::UnderlyingStoreFailure(_)),
{
    match git::open_repo(repo_path) {
        Ok(repository) => Ok(git::repo_is_bare(&repository)),
        Err(e) => Err(open_error_from(e.0, e.1)),
    }
}

/// Classifies the raw working-tree resolution: no working tree at all is
/// `NoWorkDir`, a working tree whose path is not valid UTF-8 is
/// `InvalidPath`, and otherwise the path itself comes back.
pub fn work_dir_from(raw: Option<Option<String>>) -> (r: Result<String, Error>)
    ensures
        raw is None ==> (r matches Err(e) && e matches Error::NoWorkDir),
        raw matches Some(None) ==> (r matches Err(e) && e matches Error::InvalidPath),
        raw matches Some(Some(s)) ==> (r matches Ok(p) && p == s),
{
    match raw {
        Some(inner) => match inner {
            Some(p) => Ok(p),
            None => Err(Error::InvalidPath),
        },
        None => Err(Error::NoWorkDir),
    }
}

/// The working-tree root of an open repository handle.
pub fn work_dir(repo: &git2::Repository) -> (r: Result<String, Error>)
    ensures
        r matches Err(e) ==> (e matches Error::NoWorkDir || e matches Error::InvalidPath),
{
    work_dir_from(git::repo_workdir_string(repo))
}

/// Path to the repository's persisted metadata directory.
pub fn repo_dir(repo_path: &str) -> (r: Result<String, Error>)
    ensures
        r matches Err(e) ==> (e matches Error::NotARepository
            || e matches Error::BareRepository
            || e matches Error::InvalidPath
            || e matches Error::UnderlyingStoreFailure(_)),
{
    let repository = match repo(repo_path) {
        Ok(r) => r,
        Err(e) => {
            return Err(e);
        }
    };
    match git::repo_path_string(&repository) {
        Some(p) => Ok(p),
        None => Err(Error::InvalidPath),
    }
}

/// The working-tree root of the repository at `repo_path`.
pub fn repo_work_dir(repo_path: &str) -> (r: Result<String, Error>)
    ensures
        r matches Err(e) ==> (e matches Error::NotARepository
            || e matches Error::BareRepository
            || e matches Error::NoWorkDir
            || e matches Error::InvalidPath
            || e matches Error::UnderlyingStoreFailure(_)),
{
    let repository = match repo(repo_path) {
        Ok(r) => r,
        Err(e) => {
            return Err(e);
        }
    };
    work_dir(&repository)
}

/// Decodes raw store bytes as UTF-8 text: succeeds exactly on valid
/// UTF-8, and never loses data silently.
pub fn bytes2string(bytes: &[u8]) -> (r: Result<String, Error>)
    ensures
        r matches Ok(s) ==> valid_utf8(bytes@) && s@ == decode_utf8(bytes@),
        r matches Err(e) ==> !valid_utf8(bytes@) && e matches Error::InvalidUtf8,
{
    match git::utf8_string(bytes) {
        Some(s) => Ok(s),
        None => Err(Error::InvalidUtf8),
    }
}

/// Get a string value from the configuration of the repository at
/// `repo_path`; the same lookup as `config::get_config_string`, kept
/// here beside the other path-addressed operations.
pub fn get_config_string(repo_path: &str, key: &str) -> (r: Result<Option<String>, Error>)
    ensures
        r matches Err(e) ==> (e matches Error::NotARepository
            || e matches Error::BareRepository
            || e matches Error::UnderlyingStoreFailure(_)),
{
    let repository = match repo(repo_path) {
        Ok(r) => r,
        Err(e) => {
            return Err(e);
        }
    };
    crate::config::get_config_string_repo(&repository, key)
}

/// Classifies the optional target of a resolved head reference: a
/// present target yields its snapshot identifier, an absent one — a
/// reference that exists but points at no snapshot yet — yields `NoHead`,
/// never a silently defaulted identifier.
pub fn head_id_from_target(target: Option<git2::Oid>) -> (r: Result<CommitId, Error>)
    ensures
        target is Some ==> (r matches Ok(c) && c.well_formed()),
        target is None ==> (r matches Err(e) && e matches Error::NoHead),
{
    match target {
        Some(oid) => {
            let bytes = git::oid_bytes(&oid);
            Ok(CommitId::from_bytes(bytes).unwrap())
        }
        None => Err(Error::NoHead),
    }
}

/// The snapshot identifier the head of an open repository points to.
/// A freshly initialized, commit-less repository fails with `NoHead`;
/// the present/absent decision on the resolved target is stated by
/// `head_id_from_target`.
pub fn get_head_repo(repo: &git2::Repository) -> (r: Result<CommitId, Error>)
    ensures
        r matches Err(e) ==> (e matches Error::NoHead
            || e matches Error::UnderlyingStoreFailure(_)),
        r matches Ok(c) ==> c.well_formed(),
{
    match git::repo_head(repo) {
        Ok(head) => head_id_from_target(git::reference_target(&head)),
        Err(e) => Err(head_error_from(e.0, e.1)),
    }
}

/// The snapshot identifier the head of the repository at `repo_path`
/// points to.
pub fn get_head(repo_path: &str) -> (r: Result<CommitId, Error>)
    ensures
        r matches Err(e) ==> (e matches Error::NotARepository
            || e matches Error::BareRepository
            || e matches Error::NoHead
            || e matches Error::UnderlyingStoreFailure(_)),
        r matches Ok(c) ==> c.well_formed(),
{
    let repository = match repo(repo_path) {
        Ok(r) => r,
        Err(e) => {
            return Err(e);
        }
    };
    get_head_repo(&repository)
}

/// The full name of the head reference, decoded as UTF-8; raw reference
/// names that are not valid text fail with `InvalidUtf8` rather than
/// being decoded lossily.
pub fn get_head_refname(repo: &git2::Repository) -> (r: Result<String, Error>)
    ensures
        r matches Err(e) ==> (e matches Error::NoHead
            || e matches Error::InvalidUtf8
            || e matches Error::UnderlyingStoreFailure(_)),
{
    match git::repo_head(repo) {
        Ok(head) => {
            let name_bytes = git::reference_name_bytes(&head);
            bytes2string(name_bytes.as_slice())
        }
        Err(e) => Err(head_error_from(e.0, e.1)),
    }
}

/// The head reference of the repository at `repo_path`: its full name
/// and the snapshot it points to.
pub fn get_head_tuple(repo_path: &str) -> (r: Result<Head, Error>)
    ensures
        r matches Err(e) ==> (e matches Error::NotARepository
            || e matches Error::BareRepository
            || e matches Error::NoHead
            || e matches Error::InvalidUtf8
            || e matches Error::UnderlyingStoreFailure(_)),
        r matches Ok(h) ==> h.id.well_formed(),
{
    let repository = match repo(repo_path) {
        Ok(r) => r,
        Err(e) => {
            return Err(e);
        }
    };
    let id = match get_head_repo(&repository) {
        Ok(i) => i,
        Err(e) => {
            return Err(e);
        }
    };
    let name = match get_head_refname(&repository) {
        Ok(n) => n,
        Err(e) => {
            return Err(e);
        }
    };
    Ok(Head { name, id })
}

/// Stage the current working-tree content at `path` (repository-relative).
/// A missing or unreadable path fails; removed files are staged through
/// `stage_addremoved` instead. The staging area is read, mutated and
/// flushed within this one call: an unflushed mutation is never reported
/// as success.
pub fn stage_add_file(repo_path: &str, path: &str) -> (r: Result<(), Error>)
    ensures
        r matches Err(e) ==> (e matches Error::NotARepository
            || e matches Error::BareRepository
            || e matches Error::UnderlyingStoreFailure(_)),
{
    let repository = match repo(repo_path) {
        Ok(x) => x,
        Err(e) => {
            return Err(e);
        }
    };
    let mut index = match git::repo_index(&repository) {
        Ok(i) => i,
        Err(e) => {
            return Err(Error::UnderlyingStoreFailure(e.1));
        }
    };
    match git::index_add_path(&mut index, path) {
        Ok(u) => u,
        Err(e) => {
            return Err(Error::UnderlyingStoreFailure(e.1));
        }
    };
    match git::index_write(&mut index) {
        Ok(u) => Ok(u),
        Err(e) => Err(Error::UnderlyingStoreFailure(e.1)),
    }
}

/// Stage every working-tree path matching a glob pattern (a bare
/// directory name matches everything beneath it). With `no_untracked`
/// set, only paths already tracked are updated — modifications and
/// deletions are staged, but no new path is introduced; without it, any
/// matching path is staged with default options. When the match set
/// crosses into a nested repository's root the whole call fails: no
/// partial staging is flushed as success.
pub fn stage_add_all(repo_path: &str, pattern: &str, no_untracked: bool) -> (r: Result<
    (),
    Error,
>)
    ensures
        r matches Err(e) ==> (e matches Error::NotARepository
            || e matches Error::BareRepository
            || e matches Error::UnderlyingStoreFailure(_)),
{
    let repository = match repo(repo_path) {
        Ok(x) => x,
        Err(e) => {
            return Err(e);
        }
    };
    let mut index = match git::repo_index(&repository) {
        Ok(i) => i,
        Err(e) => {
            return Err(Error::UnderlyingStoreFailure(e.1));
        }
    };
    let applied = if no_untracked {
        git::index_update_all(&mut index, pattern)
    } else {
        git::index_add_all(&mut index, pattern)
    };
    match applied {
        Ok(u) => u,
        Err(e) => {
            return Err(Error::UnderlyingStoreFailure(e.1));
        }
    };
    match git::index_write(&mut index) {
        Ok(u) => Ok(u),
        Err(e) => Err(Error::UnderlyingStoreFailure(e.1)),
    }
}

/// Remove `path` from the staging area to reflect a working-tree
/// deletion that has already happened; no file on disk is touched.
pub fn stage_addremoved(repo_path: &str, path: &str) -> (r: Result<(), Error>)
    ensures
        r matches Err(e) ==> (e matches Error::NotARepository
            || e matches Error::BareRepository
            || e matches Error::UnderlyingStoreFailure(_)),
{
    let repository = match repo(repo_path) {
        Ok(x) => x,
        Err(e) => {
            return Err(e);
        }
    };
    let mut index = match git::repo_index(&repository) {
        Ok(i) => i,
        Err(e) => {
            return Err(Error::UnderlyingStoreFailure(e.1));
        }
    };
    match git::index_remove_path(&mut index, path) {
        Ok(u) => u,
        Err(e) => {
            return Err(Error::UnderlyingStoreFailure(e.1));
        }
    };
    match git::index_write(&mut index) {
        Ok(u) => Ok(u),
        Err(e) => Err(Error::UnderlyingStoreFailure(e.1)),
    }
}

} // verus!
