use reminder::domain::{GitHubAccount, ReviewCommandSettings};
use reminder::storage::{
    storage_dir, AccountStore, RegistryRead, SecretStoreError, StorageDir, StoredAccount,
    StoredAccounts,
};
use reminder::text_map::TextMap;

fn stored(login: &str, token: &str) -> StoredAccount {
    StoredAccount {
        login: login.into(),
        token: token.into(),
        review_settings: ReviewCommandSettings::default(),
    }
}

fn account(login: &str, token: &str, args: &[&str]) -> GitHubAccount {
    GitHubAccount {
        login: login.into(),
        token: token.into(),
        review_settings: ReviewCommandSettings {
            env_vars: TextMap::new(),
            additional_args: args.iter().map(|a| a.to_string()).collect(),
        },
    }
}

fn registry(accounts: Vec<StoredAccount>) -> StoredAccounts {
    StoredAccounts { accounts, repo_paths: TextMap::new() }
}

fn logins(registry: &StoredAccounts) -> Vec<&str> {
    registry.accounts.iter().map(|a| a.login.as_str()).collect()
}

fn tokens(registry: &StoredAccounts) -> Vec<&str> {
    registry.accounts.iter().map(|a| a.token.as_str()).collect()
}

fn store() -> AccountStore {
    AccountStore::initialize(Some("/home/neo".into()), StorageDir::Ready).ok().expect("store")
}

#[test]
fn new_accounts_are_kept_in_order() {
    let mut kept = registry(vec![stored("delta", "1"), stored("beta", "2"), stored("beta", "3")]);
    kept.upsert(&account("alpha", "4", &[]));
    assert_eq!(logins(&kept), vec!["alpha", "beta", "beta", "delta"]);
    // Accounts with the same login stay as they were.
    assert_eq!(tokens(&kept), vec!["4", "2", "3", "1"]);
    kept.upsert(&account("Zeta", "5", &[]));
    assert_eq!(logins(&kept), vec!["Zeta", "alpha", "beta", "beta", "delta"]);
}

#[test]
fn known_accounts_are_updated_in_place() {
    let mut kept = registry(vec![stored("delta", "1"), stored("beta", "2"), stored("beta", "3")]);
    kept.upsert(&account("beta", "9", &["--x"]));
    assert_eq!(logins(&kept), vec!["delta", "beta", "beta"]);
    assert_eq!(tokens(&kept), vec!["1", "9", "3"]);
    assert_eq!(kept.accounts[1].review_settings.additional_args, vec!["--x"]);
}

#[test]
fn keeping_twice_and_forgetting_undo_each_other() {
    let mut kept = registry(vec![stored("a", "1"), stored("c", "2")]);
    kept.upsert(&account("b", "3", &[]));
    kept.upsert(&account("b", "3", &[]));
    assert_eq!(logins(&kept), vec!["a", "b", "c"]);
    kept.remove("b");
    assert_eq!(logins(&kept), vec!["a", "c"]);
    kept.remove("missing");
    assert_eq!(logins(&kept), vec!["a", "c"]);
}

#[test]
fn forgetting_takes_all_accounts_of_a_login() {
    let mut kept = registry(vec![stored("a", "1"), stored("b", "2"), stored("a", "3")]);
    kept.remove("a");
    assert_eq!(logins(&kept), vec!["b"]);
}

#[test]
fn a_kept_profile_is_restored() {
    let written = store()
        .persist_profile(RegistryRead::Missing, &account("neo", "secret", &["--fast"]))
        .ok()
        .expect("registry");
    let restored = store().hydrate(RegistryRead::Contents(written)).ok().expect("profiles");
    assert_eq!(restored.profiles.len(), 1);
    assert_eq!(restored.profiles[0].login, "neo");
    assert_eq!(restored.profiles[0].token, "secret");
    assert_eq!(restored.profiles[0].review_settings.additional_args, vec!["--fast"]);

    let written = store()
        .persist_profile(
            RegistryRead::Contents(registry(vec![stored("neo", "secret")])),
            &account("trinity", "t", &[]),
        )
        .ok()
        .expect("registry");
    let written = store()
        .forget(RegistryRead::Contents(written), "neo")
        .ok()
        .expect("registry");
    assert_eq!(logins(&written), vec!["trinity"]);
}

#[test]
fn a_kept_checkout_is_restored() {
    let written = store()
        .persist_repo_path(RegistryRead::Missing, "acme/repo", "/tmp/a")
        .ok()
        .expect("registry");
    let written = store()
        .persist_repo_path(RegistryRead::Contents(written), "acme/repo", "/tmp/b")
        .ok()
        .expect("registry");
    let written = store()
        .persist_repo_path(RegistryRead::Contents(written), "acme/other", "/tmp/c")
        .ok()
        .expect("registry");
    let written = store()
        .forget_repo_path(RegistryRead::Contents(written), "acme/other")
        .ok()
        .expect("registry");
    let restored = store().hydrate(RegistryRead::Contents(written)).ok().expect("paths");
    assert_eq!(restored.repo_paths.len(), 1);
    assert_eq!(restored.repo_paths.get("acme/repo"), Some(&"/tmp/b".to_owned()));
}

#[test]
fn a_missing_registry_is_empty_and_a_broken_one_is_not_written() {
    let restored = store().hydrate(RegistryRead::Missing).ok().expect("empty");
    assert_eq!(restored.profiles.len(), 0);
    assert_eq!(restored.repo_paths.len(), 0);
    assert_eq!(
        store().forget(RegistryRead::Unreadable("denied".into()), "neo").err(),
        Some(SecretStoreError::Io("denied".into()))
    );
    assert_eq!(
        store().hydrate(RegistryRead::Malformed("at 1".into())).err(),
        Some(SecretStoreError::Serialization("at 1".into()))
    );
    assert_eq!(
        store()
            .persist_profile(RegistryRead::Unreadable("denied".into()), &account("a", "b", &[]))
            .err(),
        Some(SecretStoreError::Io("denied".into()))
    );
}

#[test]
fn a_store_needs_a_home_and_its_directory() {
    assert_eq!(
        AccountStore::initialize(None, StorageDir::Ready).err(),
        Some(SecretStoreError::HomeDirMissing)
    );
    assert_eq!(
        AccountStore::initialize(Some("/h".into()), StorageDir::NotCreated("full".into())).err(),
        Some(SecretStoreError::Io("full".into()))
    );
    assert_eq!(store().registry_path, "/home/neo/.reminder/accounts.json");
    for home in ["", "/", "/home/neo", "/home/neo/"] {
        let store =
            AccountStore::initialize(Some(home.into()), StorageDir::Ready).ok().expect("store");
        let dir = std::path::PathBuf::from(home).join(".reminder");
        assert_eq!(storage_dir(home), dir.display().to_string());
        assert_eq!(store.registry_path, dir.join("accounts.json").display().to_string());
    }
}

#[test]
fn store_errors_have_messages() {
    assert_eq!(
        SecretStoreError::HomeDirMissing.message(),
        "HOME environment variable is not set; cannot store tokens under ~/.reminder"
    );
    assert_eq!(
        SecretStoreError::Io("x".into()).message(),
        "I/O error while handling stored accounts: x"
    );
    assert_eq!(
        SecretStoreError::Serialization("x".into()).message(),
        "Failed to serialize stored accounts: x"
    );
}

#[test]
fn registries_start_empty() {
    let empty = StoredAccounts::default();
    assert_eq!(empty.accounts.len(), 0);
    assert_eq!(empty.repo_paths.len(), 0);
}
