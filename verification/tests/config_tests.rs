use repokit::config::collapse_lookup;
use repokit::config::get_config_string;
use repokit::config::untracked_config_from_lookup;
use repokit::config::untracked_config_from_value;
use repokit::config::untracked_files_config;
use repokit::config::ShowUntrackedFilesConfig;
use repokit::error::Error;

fn repo_init() -> (tempfile::TempDir, git2::Repository) {
    let td = tempfile::TempDir::new().unwrap();
    let repo = git2::Repository::init(td.path()).unwrap();
    {
        let mut config = repo.config().unwrap();
        config.set_str("user.name", "name").unwrap();
        config.set_str("user.email", "email").unwrap();
        let mut index = repo.index().unwrap();
        let id = index.write_tree().unwrap();
        let tree = repo.find_tree(id).unwrap();
        let sig = repo.signature().unwrap();
        repo.commit(Some("HEAD"), &sig, &sig, "initial", &tree, &[])
            .unwrap();
    }
    (td, repo)
}

#[test]
fn config_test_get_config() {
    let bad_dir_cfg = get_config_string("oodly_noodly", "this.doesnt.exist");
    assert!(bad_dir_cfg.is_err());

    let (_td, repo) = repo_init();
    let path = repo.path();
    let rpath = path.as_os_str().to_str().unwrap();
    let bad_cfg = get_config_string(rpath, "this.doesnt.exist");
    assert!(bad_cfg.is_ok());
    assert!(bad_cfg.unwrap().is_none());
    // repo init sets user.name
    let good_cfg = get_config_string(rpath, "user.name");
    assert!(good_cfg.is_ok());
    assert!(good_cfg.unwrap().is_some());
}

#[test]
fn test_config_round_trip() {
    let (_td, repo) = repo_init();
    let rpath = repo.path().as_os_str().to_str().unwrap();

    assert_eq!(get_config_string(rpath, "custom.key").unwrap(), None);

    let mut config = repo.config().unwrap();
    config.set_str("custom.key", "custom value").unwrap();

    assert_eq!(
        get_config_string(rpath, "custom.key").unwrap(),
        Some(String::from("custom value"))
    );
}

#[test]
fn test_untracked_policy_from_value() {
    assert_eq!(
        untracked_config_from_value(&Some(String::from("no"))),
        ShowUntrackedFilesConfig::No
    );
    assert_eq!(
        untracked_config_from_value(&Some(String::from("normal"))),
        ShowUntrackedFilesConfig::Normal
    );
    assert_eq!(
        untracked_config_from_value(&Some(String::from("all"))),
        ShowUntrackedFilesConfig::All
    );
    assert_eq!(
        untracked_config_from_value(&Some(String::from("garbage"))),
        ShowUntrackedFilesConfig::All
    );
    assert_eq!(
        untracked_config_from_value(&Some(String::from(""))),
        ShowUntrackedFilesConfig::All
    );
    assert_eq!(
        untracked_config_from_value(&None),
        ShowUntrackedFilesConfig::All
    );
}

#[test]
fn test_collapse_lookup() {
    assert_eq!(
        collapse_lookup(Ok(Some(String::from("value")))).unwrap(),
        Some(String::from("value"))
    );
    assert_eq!(collapse_lookup(Ok(None)).unwrap(), None);
    assert_eq!(
        collapse_lookup(Err((-1, String::from("lookup failed")))).unwrap(),
        None
    );
}

#[test]
fn test_untracked_policy_from_lookup() {
    assert_eq!(
        untracked_config_from_lookup(Ok(Some(String::from("no")))),
        ShowUntrackedFilesConfig::No
    );
    assert_eq!(
        untracked_config_from_lookup(Ok(None)),
        ShowUntrackedFilesConfig::All
    );
    assert_eq!(
        untracked_config_from_lookup(Err(Error::UnderlyingStoreFailure(String::from(
            "lookup failed"
        )))),
        ShowUntrackedFilesConfig::All
    );
}

#[test]
fn test_untracked_policy_methods() {
    assert!(!ShowUntrackedFilesConfig::No.include_untracked());
    assert!(ShowUntrackedFilesConfig::Normal.include_untracked());
    assert!(ShowUntrackedFilesConfig::All.include_untracked());
    assert!(!ShowUntrackedFilesConfig::No.recurse_untracked_dirs());
    assert!(!ShowUntrackedFilesConfig::Normal.recurse_untracked_dirs());
    assert!(ShowUntrackedFilesConfig::All.recurse_untracked_dirs());
}

#[test]
fn test_untracked_files_config_for_repo() {
    let (_td, repo) = repo_init();

    // no key set: the inclusive default
    assert_eq!(
        untracked_files_config(&repo),
        ShowUntrackedFilesConfig::All
    );

    let mut config = repo.config().unwrap();
    config
        .set_str("status.showUntrackedFiles", "no")
        .unwrap();
    assert_eq!(untracked_files_config(&repo), ShowUntrackedFilesConfig::No);

    config
        .set_str("status.showUntrackedFiles", "normal")
        .unwrap();
    assert_eq!(
        untracked_files_config(&repo),
        ShowUntrackedFilesConfig::Normal
    );

    config
        .set_str("status.showUntrackedFiles", "everything")
        .unwrap();
    assert_eq!(
        untracked_files_config(&repo),
        ShowUntrackedFilesConfig::All
    );
}
