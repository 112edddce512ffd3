use palette::config::{Configuration, LoadOutcome, Repository, StoredFile};
use palette::error::PaletteError;
use palette::repo::CheckOutInfo;

fn create_test_configuration(dir: &str) -> Configuration {
    let config_file = "test_config.palette";
    Configuration {
        configuration_path: dir.to_string(),
        configuration_file_name: config_file.to_string(),
        configuration_full_path: format!("{}/{}", dir, config_file),
        repository: vec![],
    }
}

fn create_test_repository() -> Repository {
    Repository {
        name: "test-repo".to_string(),
        organization: "test-org".to_string(),
        cloned_locally: true,
        checkout_info: CheckOutInfo {
            branch_name: "main".to_string(),
            commit_sha: "abc123def456".to_string(),
        },
    }
}

fn named(name: &str, organization: &str) -> Repository {
    Repository {
        name: name.to_string(),
        organization: organization.to_string(),
        cloned_locally: false,
        checkout_info: CheckOutInfo::default(),
    }
}

#[test]
fn test_configuration_default() {
    let config = Configuration::default();
    assert_eq!(config.configuration_path, ".");
    assert_eq!(config.configuration_file_name, "config.palette");
    assert_eq!(config.configuration_full_path, "./config.palette");
    assert!(config.repository.is_empty());
}

#[test]
fn test_add_repository() {
    let mut config = Configuration::default();
    let repo = create_test_repository();

    config.add_repository(repo.clone()).unwrap();

    assert_eq!(config.repository.len(), 1);
    assert_eq!(config.repository[0].name, "test-repo");
    assert_eq!(config.repository[0].organization, "test-org");
    assert!(config.repository[0].cloned_locally);
}

#[test]
fn test_get_repository() {
    let mut config = Configuration::default();
    let repo = create_test_repository();
    config.add_repository(repo).unwrap();

    let repos = config.get_repository();
    assert_eq!(repos.len(), 1);
    assert_eq!(repos[0].name, "test-repo");
}

#[test]
fn test_get_repository_mut() {
    let mut config = Configuration::default();
    let repo = create_test_repository();
    config.add_repository(repo).unwrap();

    let repo_mut = config.get_repository_mut("test-repo".to_string()).unwrap();
    repo_mut.cloned_locally = false;

    assert!(!config.repository[0].cloned_locally);
}

#[test]
fn test_repository_default() {
    let repo = Repository::default();
    assert!(repo.name.is_empty());
    assert!(repo.organization.is_empty());
    assert!(!repo.cloned_locally);
    assert!(repo.checkout_info.branch_name.is_empty());
    assert!(repo.checkout_info.commit_sha.is_empty());
}

#[test]
fn test_multiple_repositories() {
    let mut config = Configuration::default();

    let repo1 = Repository {
        name: "repo1".to_string(),
        organization: "org1".to_string(),
        cloned_locally: true,
        checkout_info: CheckOutInfo::default(),
    };

    let repo2 = Repository {
        name: "repo2".to_string(),
        organization: "org2".to_string(),
        cloned_locally: false,
        checkout_info: CheckOutInfo::default(),
    };

    config.add_repository(repo1).unwrap();
    config.add_repository(repo2).unwrap();

    assert_eq!(config.repository.len(), 2);
    assert_eq!(config.repository[0].name, "repo1");
    assert_eq!(config.repository[1].name, "repo2");

    let found_repo = config.get_repository_mut("repo1".to_string()).unwrap();
    assert_eq!(found_repo.organization, "org1");
}

#[test]
fn test_configuration_integration() {
    let mut config = Configuration {
        configuration_path: "/tmp/palette".to_string(),
        configuration_file_name: "config.palette".to_string(),
        configuration_full_path: "/tmp/palette/config.palette".to_string(),
        repository: vec![],
    };

    let repo1 = Repository {
        name: "repo1".to_string(),
        organization: "org1".to_string(),
        cloned_locally: true,
        checkout_info: CheckOutInfo {
            branch_name: "main".to_string(),
            commit_sha: "abc123".to_string(),
        },
    };

    let repo2 = Repository {
        name: "repo2".to_string(),
        organization: "org2".to_string(),
        cloned_locally: false,
        checkout_info: CheckOutInfo {
            branch_name: "develop".to_string(),
            commit_sha: "def456".to_string(),
        },
    };

    config.add_repository(repo1).unwrap();
    config.add_repository(repo2).unwrap();

    assert_eq!(config.get_repository().len(), 2);
    assert_eq!(config.get_repository()[0].name, "repo1");
    assert_eq!(config.get_repository()[1].name, "repo2");
}

#[test]
fn checkout_info_default_and_clone() {
    let mut checkout = CheckOutInfo::default();
    assert!(checkout.branch_name.is_empty());
    assert!(checkout.commit_sha.is_empty());

    checkout.branch_name = "feature-branch".to_string();
    checkout.commit_sha = "abcd1234".to_string();

    let cloned = checkout.clone();
    assert_eq!(cloned.branch_name, "feature-branch");
    assert_eq!(cloned.commit_sha, "abcd1234");
}

#[test]
fn duplicate_name_is_refused_and_store_kept() {
    let mut config = Configuration::default();
    config.add_repository(named("repo1", "org1")).unwrap();
    let result = config.add_repository(named("repo1", "org2"));
    assert_eq!(result, Err(PaletteError::DuplicateRepository));
    assert_eq!(config.repository.len(), 1);
    assert_eq!(config.repository[0].organization, "org1");
}

#[test]
fn find_missing_name_fails() {
    let mut config = Configuration::default();
    config.add_repository(named("repo1", "org1")).unwrap();
    let missing = config.find(&"nope".to_string());
    assert!(matches!(missing, Err(PaletteError::RepositoryNotFound)));
    assert!(matches!(
        config.get_repository_mut("nope".to_string()),
        Err(PaletteError::RepositoryNotFound)
    ));
}

#[test]
fn find_present_name_gives_that_record() {
    let mut config = Configuration::default();
    config.add_repository(named("repo1", "org1")).unwrap();
    config.add_repository(named("repo2", "org2")).unwrap();
    let found = config.find(&"repo2".to_string()).unwrap();
    assert_eq!(found.name, "repo2");
    assert_eq!(found.organization, "org2");
    assert_eq!(config.position(&"repo2".to_string()), Some(1));
    assert_eq!(config.position(&"repo3".to_string()), None);
}

#[test]
fn load_without_file_empties_store_and_asks_to_write() {
    let mut config = create_test_configuration("/tmp/work");
    config.add_repository(create_test_repository()).unwrap();
    let outcome = config.load(StoredFile::Absent);
    assert_eq!(outcome, Ok(LoadOutcome::Created));
    assert!(config.repository.is_empty());
    assert_eq!(config.configuration_full_path, "/tmp/work/test_config.palette");
}

#[test]
fn load_of_saved_store_gives_it_back() {
    let mut saved = create_test_configuration("/tmp/work");
    saved.add_repository(create_test_repository()).unwrap();
    saved.add_repository(named("second", "org2")).unwrap();

    let mut loaded = create_test_configuration("/tmp/work");
    let outcome = loaded.load(StoredFile::Present(saved.clone()));
    assert_eq!(outcome, Ok(LoadOutcome::Loaded));
    assert_eq!(loaded.repository.len(), 2);
    assert_eq!(loaded.repository[0].name, "test-repo");
    assert_eq!(loaded.repository[0].organization, "test-org");
    assert!(loaded.repository[0].cloned_locally);
    assert_eq!(loaded.repository[0].checkout_info.commit_sha, "abc123def456");
    assert_eq!(loaded.repository[1].name, "second");
}

#[test]
fn load_of_bad_file_reports_and_keeps_store() {
    let mut config = Configuration::default();
    config.add_repository(named("repo1", "org1")).unwrap();
    assert_eq!(config.load(StoredFile::Malformed), Err(PaletteError::ConfigParseError));
    assert_eq!(config.load(StoredFile::Unreadable), Err(PaletteError::ConfigIOError));
    assert_eq!(config.repository.len(), 1);
    assert_eq!(config.repository[0].name, "repo1");
}

#[test]
fn track_then_record_clone() {
    let mut config = Configuration::default();
    config.track_repository("org1".to_string(), "repo1".to_string()).unwrap();
    assert_eq!(
        config.track_repository("org9".to_string(), "repo1".to_string()),
        Err(PaletteError::DuplicateRepository)
    );
    assert!(!config.repository[0].cloned_locally);
    assert_eq!(config.repository[0].organization, "org1");

    let info = CheckOutInfo {
        branch_name: "refs/heads/main".to_string(),
        commit_sha: "0123abcd".to_string(),
    };
    config.record_clone(&"repo1".to_string(), info.clone()).unwrap();
    assert!(config.repository[0].cloned_locally);
    assert_eq!(config.repository[0].checkout_info.branch_name, "refs/heads/main");
    assert_eq!(config.repository[0].checkout_info.commit_sha, "0123abcd");
    assert_eq!(
        config.record_clone(&"other".to_string(), info),
        Err(PaletteError::RepositoryNotFound)
    );
}
