//! Configuration lookup and the untracked-files policy derived from it.

use vstd::prelude::*;

use crate::error::Error;
use crate::git;
use crate::utils::repo;

verus! {

/// Possible options for the status.showUntrackedFiles configuration key.
#[derive(Debug, Clone, Copy, PartialEq, Eq, Structural)]
pub enum ShowUntrackedFilesConfig {
    /// Don't include any untracked files.
    No,
    /// Show untracked files and directories, but do not recurse into
    /// untracked directories to find files.
    Normal,
    /// Show all untracked files recursively.
    All,
}

impl ShowUntrackedFilesConfig {
    /// Should untracked files be included at all?
    pub fn include_untracked(&self) -> (r: bool)
        ensures
            r == (*self == ShowUntrackedFilesConfig::Normal
                || *self == ShowUntrackedFilesConfig::All),
    {
        matches!(self, Self::Normal | Self::All)
    }

    /// Should untracked directories be recursed into?
    pub fn recurse_untracked_dirs(&self) -> (r: bool)
        ensures
            r == (*self == ShowUntrackedFilesConfig::All),
    {
        matches!(self, Self::All)
    }
}

/// The view of an optional owned string as an optional character sequence.
pub open spec fn opt_string_view(v: Option<String>) -> Option<Seq<char>> {
    match v {
        Some(s) => Some(s@),
        None => None,
    }
}

/// The policy a raw configuration value denotes: exactly `"no"` excludes
/// untracked files, exactly `"normal"` keeps directories opaque, and every
/// other value, as well as an absent one, falls back to the most inclusive
/// reading.
pub open spec fn untracked_policy_of(v: Option<Seq<char>>) -> ShowUntrackedFilesConfig {
    if v == Some("no"@) {
        ShowUntrackedFilesConfig::No
    } else if v == Some("normal"@) {
        ShowUntrackedFilesConfig::Normal
    } else {
        ShowUntrackedFilesConfig::All
    }
}

/// Classifies a raw configuration value (or its absence) as the
/// untracked-files policy it denotes.
pub fn untracked_config_from_value(value: &Option<String>) -> (r: ShowUntrackedFilesConfig)
    ensures
        r == untracked_policy_of(opt_string_view(*value)),
{
    match value {
        Some(s) => {
            let no_word: String = "no".to_owned();
            let normal_word: String = "normal".to_owned();
            if *s == no_word {
                ShowUntrackedFilesConfig::No
            } else if *s == normal_word {
                ShowUntrackedFilesConfig::Normal
            } else {
                ShowUntrackedFilesConfig::All
            }
        }
        None => ShowUntrackedFilesConfig::All,
    }
}

/// The three-way classification is an exhaustive partition: `No` comes
/// from exactly the value `"no"`, `Normal` from exactly `"normal"`, and
/// everything else — any other value, or no value at all — falls to `All`.
pub proof fn lemma_untracked_policy_partition(v: Option<Seq<char>>)
    ensures
        (untracked_policy_of(v) == ShowUntrackedFilesConfig::No) <==> (v == Some("no"@)),
        (untracked_policy_of(v) == ShowUntrackedFilesConfig::Normal) <==> (v == Some(
            "normal"@,
        )),
        (untracked_policy_of(v) == ShowUntrackedFilesConfig::All) <==> (v != Some("no"@)
            && v != Some("normal"@)),
{
    reveal_strlit("no");
    reveal_strlit("normal");
    assert("no"@.len() == 2);
    assert("normal"@.len() == 6);
}

/// Classifies the outcome of the policy lookup: a value that came back
/// (or its absence) is classified exactly, and a failed lookup falls to
/// the inclusive catch-all.
pub fn untracked_config_from_lookup(outcome: Result<Option<String>, Error>) -> (r:
    ShowUntrackedFilesConfig)
    ensures
        outcome matches Ok(v) ==> r == untracked_policy_of(opt_string_view(v)),
        outcome is Err ==> r == ShowUntrackedFilesConfig::All,
{
    match outcome {
        Ok(v) => untracked_config_from_value(&v),
        Err(_) => ShowUntrackedFilesConfig::All,
    }
}

/// Get the showUntrackedFiles policy for a repository: infallible
/// outward-facing, with every internal lookup failure folding into the
/// inclusive default. The classification of each outcome is stated by
/// `untracked_config_from_lookup` and `untracked_config_from_value`.
pub fn untracked_files_config(repo: &git2::Repository) -> ShowUntrackedFilesConfig {
    untracked_config_from_lookup(get_config_string_repo(repo, "status.showUntrackedFiles"))
}

/// Get a string value from the configuration of the repository at
/// `repo_path`. Only the failure to resolve the repository handle itself
/// surfaces as an error; a failed or empty key lookup is `Ok(None)`.
pub fn get_config_string(repo_path: &str, key: &str) -> (r: Result<Option<String>, Error>)
    ensures
        r matches Err(e) ==> (e matches Error::NotARepository
            || e matches Error::BareRepository
            || e matches Error::UnderlyingStoreFailure(_)),
{
    let repository = match repo(repo_path) {
        Ok(r) => r,
        Err(e) => {
            return Err(e);
        }
    };
    get_config_string_repo(&repository, key)
}

/// Collapses a raw lookup outcome the way callers must see it: a value
/// (or its recorded absence) passes through, and any failure of the
/// lookup itself becomes `None` — deliberately indistinguishable from an
/// absent key.
pub fn collapse_lookup(outcome: Result<Option<String>, (i32, String)>) -> (r: Result<
    Option<String>,
    Error,
>)
    ensures
        outcome matches Ok(v) ==> (r matches Ok(x) && x == v),
        outcome is Err ==> (r matches Ok(x) && x is None),
{
    match outcome {
        Ok(v) => Ok(v),
        Err(_) => Ok(None),
    }
}

/// Get a string value from a repository's configuration. With the handle
/// already resolved this never fails: a key that is absent or valueless,
/// and any failure of the lookup path — opening the configuration
/// included — all collapse to `Ok(None)`, as `collapse_lookup` states.
/// Callers never see why a value is missing, only that it is.
pub fn get_config_string_repo(
    repo: &git2::Repository,
    key: &str,
) -> (r: Result<Option<String>, Error>)
    ensures
        r is Ok,
{
    let cfg = match git::repo_config(repo) {
        Ok(c) => c,
        Err(e) => {
            return collapse_lookup(Err(e));
        }
    };

    let looked_up = match git::config_get_entry(&cfg, key) {
        Ok(entry) => collapse_lookup(Ok(git::entry_value(&entry))),
        Err(e) => collapse_lookup(Err(e)),
    };
    looked_up
}

} // verus!
