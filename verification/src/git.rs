//! Trusted boundary to the `git2` crate.
//!
//! Every call into the outside object store goes through exactly one of the
//! declarations below. Verus believes their contracts and never reads their
//! bodies; everything a contract here states is backed by `git2`'s own
//! source or documentation, and results that depend on the state of the
//! on-disk store carry no claim at all.

use vstd::prelude::*;
use vstd::utf8::decode_utf8;
use vstd::utf8::valid_utf8;

verus! {

#[verifier::external_type_specification]
#[verifier::external_body]
pub struct ExRepository(git2::Repository);

#[verifier::external_type_specification]
#[verifier::external_body]
pub struct ExConfig(git2::Config);

#[verifier::external_type_specification]
#[verifier::external_body]
pub struct ExConfigEntry<'a>(git2::ConfigEntry<'a>);

#[verifier::external_type_specification]
#[verifier::external_body]
pub struct ExReference<'a>(git2::Reference<'a>);

#[verifier::external_type_specification]
#[verifier::external_body]
pub struct ExIndex(git2::Index);

#[verifier::external_type_specification]
#[verifier::external_body]
pub struct ExOid(git2::Oid);

/// Relies on git2::Repository::open_ext: opens the repository at or above
/// `repo_path` (ancestor search, no ceiling), failing when none is found
/// or the store cannot be read. The outcome depends on the disk. A
/// failure comes back converted to the raw libgit2 error code (git2's
/// Error::raw_code) and the store's message (git2's Error::message).
#[verifier::external_body]
pub(crate) fn open_repo(repo_path: &str) -> Result<git2::Repository, (i32, String)> {
    git2::Repository::open_ext(
        repo_path,
        git2::RepositoryOpenFlags::empty(),
        Vec::<&std::path::Path>::new(),
    )
    .map_err(|e| (e.raw_code() as i32, e.message().to_owned()))
}

/// Relies on git2::Repository::is_bare: whether the opened repository has
/// no working tree.
#[verifier::external_body]
pub(crate) fn repo_is_bare(repo: &git2::Repository) -> bool {
    repo.is_bare()
}

/// Relies on git2::Repository::path: the repository's metadata directory,
/// `None` when that path is not valid UTF-8.
#[verifier::external_body]
pub(crate) fn repo_path_string(repo: &git2::Repository) -> Option<String> {
    repo.path().to_str().map(|s| s.to_owned())
}

/// Relies on git2::Repository::workdir: the outer `None` means the
/// repository has no working tree, the inner `None` that the working-tree
/// path is not valid UTF-8.
#[verifier::external_body]
pub(crate) fn repo_workdir_string(repo: &git2::Repository) -> Option<Option<String>> {
    repo.workdir().map(|p| p.to_str().map(|s| s.to_owned()))
}

/// Relies on git2::Repository::config: the repository's layered
/// configuration (local, global, system). A failure comes back converted
/// to the raw libgit2 error code and the store's message.
#[verifier::external_body]
pub(crate) fn repo_config(repo: &git2::Repository) -> Result<git2::Config, (i32, String)> {
    repo.config().map_err(|e| (e.raw_code() as i32, e.message().to_owned()))
}

/// Relies on git2::Config::get_entry: looks the dotted key up across the
/// configuration layers; fails when the key is absent or the lookup
/// itself fails. A failure comes back converted to the raw libgit2 error
/// code and the store's message.
#[verifier::external_body]
pub(crate) fn config_get_entry<'a>(
    cfg: &'a git2::Config,
    key: &str,
) -> Result<git2::ConfigEntry<'a>, (i32, String)> {
    cfg.get_entry(key).map_err(|e| (e.raw_code() as i32, e.message().to_owned()))
}

/// Relies on git2::ConfigEntry::has_value and git2::ConfigEntry::value.
/// `value` panics when the entry holds no value, so it is called only
/// behind the `has_value` guard; a valueless entry and a value that is
/// not valid UTF-8 both come back as `None`.
#[verifier::external_body]
pub(crate) fn entry_value(entry: &git2::ConfigEntry) -> Option<String> {
    if entry.has_value() {
        match entry.value() {
            Ok(s) => Some(s.to_owned()),
            Err(_) => None,
        }
    } else {
        None
    }
}

/// Relies on git2::Repository::head: the reference the working tree
/// points to; fails on a freshly initialized repository (unborn branch)
/// or when the reference cannot be read. A failure comes back converted
/// to the raw libgit2 error code and the store's message.
#[verifier::external_body]
pub(crate) fn repo_head<'a>(
    repo: &'a git2::Repository,
) -> Result<git2::Reference<'a>, (i32, String)> {
    repo.head().map_err(|e| (e.raw_code() as i32, e.message().to_owned()))
}

/// Relies on git2::Reference::target: the object id a direct reference
/// points to, `None` for a symbolic reference or an unborn target.
#[verifier::external_body]
pub(crate) fn reference_target(reference: &git2::Reference) -> Option<git2::Oid> {
    reference.target()
}

/// Relies on git2::Reference::name_bytes: the raw bytes of the full
/// reference name.
#[verifier::external_body]
pub(crate) fn reference_name_bytes(reference: &git2::Reference) -> Vec<u8> {
    reference.name_bytes().to_vec()
}

/// Relies on git2::Oid::as_bytes: the raw bytes of an object id, which
/// for a SHA-1 id are exactly 20.
#[verifier::external_body]
pub(crate) fn oid_bytes(oid: &git2::Oid) -> (r: Vec<u8>)
    ensures
        r@.len() == 20,
{
    oid.as_bytes().to_vec()
}

/// Relies on git2::Repository::index: the repository's staging area,
/// freshly read from disk. A failure comes back converted to the raw
/// libgit2 error code and the store's message.
#[verifier::external_body]
pub(crate) fn repo_index(repo: &git2::Repository) -> Result<git2::Index, (i32, String)> {
    repo.index().map_err(|e| (e.raw_code() as i32, e.message().to_owned()))
}

/// Relies on git2::Index::add_path: stages the working-tree content at
/// one repository-relative path; fails when the path is missing or
/// unreadable. A failure comes back converted to the raw libgit2 error
/// code and the store's message.
#[verifier::external_body]
pub(crate) fn index_add_path(
    index: &mut git2::Index,
    relative_path: &str,
) -> Result<(), (i32, String)> {
    index
        .add_path(std::path::Path::new(relative_path))
        .map_err(|e| (e.raw_code() as i32, e.message().to_owned()))
}

/// Relies on git2::Index::add_all with default options: stages every
/// working-tree path matching the pattern, tracked or untracked, and
/// fails as a whole when the match set crosses into a nested repository.
/// A failure comes back converted to the raw libgit2 error code and the
/// store's message.
#[verifier::external_body]
pub(crate) fn index_add_all(
    index: &mut git2::Index,
    pattern: &str,
) -> Result<(), (i32, String)> {
    index
        .add_all([pattern], git2::IndexAddOption::DEFAULT, None)
        .map_err(|e| (e.raw_code() as i32, e.message().to_owned()))
}

/// Relies on git2::Index::update_all: updates index entries that match
/// the pattern and are already tracked, staging their modifications and
/// deletions, and never introduces an untracked path. A failure comes
/// back converted to the raw libgit2 error code and the store's message.
#[verifier::external_body]
pub(crate) fn index_update_all(
    index: &mut git2::Index,
    pattern: &str,
) -> Result<(), (i32, String)> {
    index
        .update_all([pattern], None)
        .map_err(|e| (e.raw_code() as i32, e.message().to_owned()))
}

/// Relies on git2::Index::remove_path: removes one repository-relative
/// path from the staging area without touching the working tree. A
/// failure comes back converted to the raw libgit2 error code and the
/// store's message.
#[verifier::external_body]
pub(crate) fn index_remove_path(
    index: &mut git2::Index,
    relative_path: &str,
) -> Result<(), (i32, String)> {
    index
        .remove_path(std::path::Path::new(relative_path))
        .map_err(|e| (e.raw_code() as i32, e.message().to_owned()))
}

/// Relies on git2::Index::write: flushes the in-memory staging area to
/// its on-disk file; failure means the mutation is not durable. A
/// failure comes back converted to the raw libgit2 error code and the
/// store's message.
#[verifier::external_body]
pub(crate) fn index_write(index: &mut git2::Index) -> Result<(), (i32, String)> {
    index.write().map_err(|e| (e.raw_code() as i32, e.message().to_owned()))
}

/// Relies on std's String::from_utf8: succeeds exactly on valid UTF-8
/// input and then holds the decoded characters.
#[verifier::external_body]
pub(crate) fn utf8_string(bytes: &[u8]) -> (r: Option<String>)
    ensures
        r is Some <==> valid_utf8(bytes@),
        r matches Some(s) ==> s@ == decode_utf8(bytes@),
{
    String::from_utf8(bytes.to_vec()).ok()
}

} // verus!
