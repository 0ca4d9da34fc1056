//! The registry of accounts and checkouts that is kept between runs.
use vstd::prelude::*;

use crate::domain::{AccountView, GitHubAccount, ReviewCommandSettings};
use crate::text::text_eq;
use crate::text_map::{
    lemma_less_irreflexive, lemma_less_transitive, lemma_texts_insert, lemma_texts_remove, less,
    text_order, texts, TextMap, TextOrder,
};
use vstd::string::StrSliceExecFns;
use vstd::string::StringExecFns;

verus! {

/// The directory below the home directory that holds the registry.
pub const STORAGE_DIR_NAME: &'static str = ".reminder";

/// The file that holds the registry.
pub const REGISTRY_FILE: &'static str = "accounts.json";

// ---------------------------------------------------------------------------
// The registry
// ---------------------------------------------------------------------------

/// An account as it is kept.
pub struct StoredAccount {
    pub login: String,
    pub token: String,
    pub review_settings: ReviewCommandSettings,
}

impl View for StoredAccount {
    type V = AccountView;

    open spec fn view(&self) -> AccountView {
        AccountView {
            login: self.login@,
            token: self.token@,
            review_settings: self.review_settings@,
        }
    }
}

/// Accounts and checkouts as they are kept.
pub struct StoredAccounts {
    pub accounts: Vec<StoredAccount>,
    pub repo_paths: TextMap<String>,
}

/// The texts of a registry.
#[verifier::ext_equal]
pub struct RegistryView {
    pub accounts: Seq<AccountView>,
    pub repo_paths: Map<Seq<char>, Seq<char>>,
}

/// The accounts of a list.
pub open spec fn stored_views(accounts: Seq<StoredAccount>) -> Seq<AccountView> {
    accounts.map_values(|a: StoredAccount| a@)
}

impl View for StoredAccounts {
    type V = RegistryView;

    open spec fn view(&self) -> RegistryView {
        RegistryView {
            accounts: stored_views(self.accounts@),
            repo_paths: texts(self.repo_paths@),
        }
    }
}

/// A registry that keeps nothing.
pub open spec fn empty_registry() -> RegistryView {
    RegistryView { accounts: Seq::empty(), repo_paths: Map::empty() }
}

impl Default for StoredAccounts {
    fn default() -> (registry: Self)
        ensures
            registry@ == empty_registry(),
    {
        let registry: StoredAccounts = StoredAccounts {
            accounts: Vec::new(),
            repo_paths: TextMap::new(),
        };
        proof {
            assert(registry@ =~= empty_registry());
        }
        registry
    }
}

/// Where the first account with that login stands, or the number of accounts.
pub open spec fn login_index(accounts: Seq<AccountView>, login: Seq<char>) -> int
    decreases accounts.len(),
{
    if accounts.len() == 0 {
        0
    } else if accounts[0].login == login {
        0
    } else {
        1 + login_index(accounts.skip(1), login)
    }
}

/// `accounts`, in order of their logins, with `account` put behind all that do not come
/// after it.
pub open spec fn placed(accounts: Seq<AccountView>, account: AccountView) -> Seq<AccountView>
    decreases accounts.len(),
{
    if accounts.len() > 0 && less(account.login, accounts.last().login) {
        placed(accounts.drop_last(), account).push(accounts.last())
    } else {
        accounts.push(account)
    }
}

/// `accounts` in order of their logins. Those with the same login stay as they are.
pub open spec fn in_login_order(accounts: Seq<AccountView>) -> Seq<AccountView>
    decreases accounts.len(),
{
    if accounts.len() == 0 {
        Seq::empty()
    } else {
        placed(in_login_order(accounts.drop_last()), accounts.last())
    }
}

/// `accounts` with `profile` in place of the first account with its login, or added in
/// order if there is none.
pub open spec fn with_account(accounts: Seq<AccountView>, profile: AccountView) -> Seq<AccountView> {
    let i = login_index(accounts, profile.login);
    if i < accounts.len() {
        accounts.update(i, profile)
    } else {
        in_login_order(accounts.push(profile))
    }
}

/// Whether an account has another login than `login`.
pub open spec fn other_than(login: Seq<char>) -> spec_fn(AccountView) -> bool {
    |a: AccountView| a.login != login
}

impl RegistryView {
    /// The registry with `profile` kept in it.
    pub open spec fn upserted(self, profile: AccountView) -> RegistryView {
        RegistryView { accounts: with_account(self.accounts, profile), ..self }
    }

    /// The registry without the account `login`.
    pub open spec fn removed(self, login: Seq<char>) -> RegistryView {
        RegistryView { accounts: self.accounts.filter(other_than(login)), ..self }
    }

    /// The registry with a checkout for `repo`.
    pub open spec fn with_path(self, repo: Seq<char>, path: Seq<char>) -> RegistryView {
        RegistryView { repo_paths: self.repo_paths.insert(repo, path), ..self }
    }

    /// The registry without a checkout for `repo`.
    pub open spec fn without_path(self, repo: Seq<char>) -> RegistryView {
        RegistryView { repo_paths: self.repo_paths.remove(repo), ..self }
    }
}

/// Where the login stands that `login_index` looks for.
pub proof fn lemma_login_index(accounts: Seq<AccountView>, login: Seq<char>)
    ensures
        0 <= login_index(accounts, login) <= accounts.len(),
        forall|j: int|
            0 <= j < login_index(accounts, login) ==> (#[trigger] accounts[j]).login != login,
        login_index(accounts, login) < accounts.len() ==> accounts[login_index(
            accounts,
            login,
        )].login == login,
    decreases accounts.len(),
{
    if accounts.len() > 0 && accounts[0].login != login {
        lemma_login_index(accounts.skip(1), login);
        assert forall|j: int| 0 <= j < login_index(accounts, login) implies (
        #[trigger] accounts[j]).login != login by {
            if j > 0 {
                assert(accounts.skip(1)[j - 1] == accounts[j]);
            }
        }
    }
}

/// The index that `login_index` finds is the only one of its kind.
pub proof fn lemma_login_index_is(accounts: Seq<AccountView>, login: Seq<char>, i: int)
    requires
        0 <= i <= accounts.len(),
        forall|j: int| 0 <= j < i ==> (#[trigger] accounts[j]).login != login,
        i < accounts.len() ==> accounts[i].login == login,
    ensures
        login_index(accounts, login) == i,
{
    lemma_login_index(accounts, login);
    let k = login_index(accounts, login);
    if k < i {
        assert(accounts[k].login != login);
    }
    if i < k {
        assert(accounts[i].login != login);
    }
}

/// Puts `account` behind all accounts that do not come after it.
fn place_account(accounts: &mut Vec<StoredAccount>, account: StoredAccount)
    ensures
        stored_views(final(accounts)@) == placed(stored_views(old(accounts)@), account@),
{
    let ghost before = stored_views(accounts@);
    let mut i: usize = accounts.len();
    proof {
        assert(before.take(i as int) =~= before);
        assert(placed(before, account@) =~= placed(before.take(i as int), account@) + before.skip(
            i as int,
        ));
    }
    while i > 0
        invariant
            i <= accounts@.len(),
            before == stored_views(accounts@),
            placed(before, account@) == placed(before.take(i as int), account@) + before.skip(
                i as int,
            ),
        ensures
            i <= accounts@.len(),
            placed(before, account@) == before.take(i as int).push(account@) + before.skip(
                i as int,
            ),
        decreases i,
    {
        proof {
            assert(before.take(i as int).last() == accounts@[i - 1]@);
            assert(before.take(i as int).drop_last() =~= before.take(i - 1));
        }
        match text_order(account.login.as_str(), accounts[i - 1].login.as_str()) {
            TextOrder::Before => {
                proof {
                    assert(placed(before.take(i - 1), account@).push(before[i - 1]) + before.skip(
                        i as int,
                    ) =~= placed(before.take(i - 1), account@) + before.skip(i - 1));
                }
                i = i - 1;
            },
            TextOrder::Same => {
                proof {
                    lemma_less_irreflexive(account.login@);
                }
                break;
            },
            TextOrder::After => {
                proof {
                    let a = account.login@;
                    let b = accounts@[i - 1].login@;
                    if less(a, b) {
                        lemma_less_transitive(a, b, a);
                        lemma_less_irreflexive(a);
                    }
                }
                break;
            },
        }
    }
    let ghost view = account@;
    accounts.insert(i, account);
    proof {
        assert(stored_views(accounts@) =~= before.take(i as int).push(view) + before.skip(
            i as int,
        ));
    }
}

/// Puts accounts in order of their logins.
fn sort_by_login(accounts: &mut Vec<StoredAccount>)
    ensures
        stored_views(final(accounts)@) == in_login_order(stored_views(old(accounts)@)),
{
    let ghost before = accounts@;
    let ghost all = stored_views(before);
    let mut rest: Vec<StoredAccount> = Vec::new();
    core::mem::swap(&mut rest, accounts);
    let mut taken: usize = 0;
    let count: usize = rest.len();
    proof {
        assert(all.take(0) =~= Seq::<AccountView>::empty());
        assert(stored_views(accounts@) =~= Seq::<AccountView>::empty());
        assert(rest@ =~= before.skip(0));
    }
    while taken < count
        invariant
            taken <= count,
            count == before.len(),
            all == stored_views(before),
            rest@ == before.skip(taken as int),
            stored_views(accounts@) == in_login_order(all.take(taken as int)),
        decreases count - taken,
    {
        let account: StoredAccount = rest.remove(0);
        proof {
            assert(account == before[taken as int]);
            assert(all.take(taken + 1).drop_last() =~= all.take(taken as int));
            assert(all.take(taken + 1).last() == account@);
        }
        place_account(accounts, account);
        taken = taken + 1;
        proof {
            assert(rest@ =~= before.skip(taken as int));
        }
    }
    proof {
        assert(all.take(taken as int) =~= all);
    }
}

impl StoredAccounts {
    /// Keeps `profile`, in place of what was kept for its login.
    pub fn upsert(&mut self, profile: &GitHubAccount)
        ensures
            final(self)@ == old(self)@.upserted(profile@),
    {
        let ghost before = self@;
        let mut i: usize = 0;
        while i < self.accounts.len()
            invariant
                i <= self.accounts@.len(),
                self@ == before,
                before == old(self)@,
                before.accounts.len() == self.accounts@.len(),
                forall|j: int|
                    0 <= j < i ==> (#[trigger] before.accounts[j]).login != profile.login@,
            decreases self.accounts@.len() - i,
        {
            if text_eq(self.accounts[i].login.as_str(), profile.login.as_str()) {
                proof {
                    assert(before.accounts[i as int].login == profile.login@);
                    lemma_login_index_is(before.accounts, profile.login@, i as int);
                }
                let account: StoredAccount = StoredAccount {
                    login: profile.login.clone(),
                    token: profile.token.clone(),
                    review_settings: profile.review_settings.clone(),
                };
                self.accounts.set(i, account);
                proof {
                    assert(self@.accounts =~= before.accounts.update(i as int, profile@));
                }
                return;
            }
            proof {
                assert(before.accounts[i as int] == self.accounts@[i as int]@);
            }
            i = i + 1;
        }
        proof {
            lemma_login_index_is(before.accounts, profile.login@, i as int);
        }
        self.accounts.push(
            StoredAccount {
                login: profile.login.clone(),
                token: profile.token.clone(),
                review_settings: profile.review_settings.clone(),
            },
        );
        proof {
            assert(self@.accounts =~= before.accounts.push(profile@));
        }
        sort_by_login(&mut self.accounts);
    }

    /// Forgets the account `login`.
    pub fn remove(&mut self, login: &str)
        ensures
            final(self)@ == old(self)@.removed(login@),
    {
        let ghost before = self.accounts@;
        let ghost all = self@.accounts;
        let mut rest: Vec<StoredAccount> = Vec::new();
        core::mem::swap(&mut rest, &mut self.accounts);
        let mut taken: usize = 0;
        let count: usize = rest.len();
        proof {
            reveal(Seq::filter);
            assert(all.take(0).filter(other_than(login@)) =~= Seq::<AccountView>::empty());
            assert(self@.accounts =~= Seq::<AccountView>::empty());
            assert(rest@ =~= before.skip(0));
        }
        while taken < count
            invariant
                taken <= count,
                count == before.len(),
                all == stored_views(before),
                rest@ == before.skip(taken as int),
                self.repo_paths == old(self).repo_paths,
                self@.accounts == all.take(taken as int).filter(other_than(login@)),
            decreases count - taken,
        {
            let ghost kept = self.accounts@;
            let account: StoredAccount = rest.remove(0);
            proof {
                reveal(Seq::filter);
                assert(account == before[taken as int]);
                assert(all.take(taken + 1).drop_last() =~= all.take(taken as int));
                assert(all.take(taken + 1).last() == account@);
            }
            if !text_eq(account.login.as_str(), login) {
                self.accounts.push(account);
                proof {
                    assert(self@.accounts =~= stored_views(kept).push(account@));
                }
            }
            taken = taken + 1;
            proof {
                assert(rest@ =~= before.skip(taken as int));
            }
        }
        proof {
            assert(all.take(taken as int) =~= all);
        }
    }

    /// Keeps a checkout for `repo`.
    pub fn upsert_repo_path(&mut self, repo: &str, path: &str)
        ensures
            final(self)@ == old(self)@.with_path(repo@, path@),
    {
        let path: String = path.to_owned();
        proof {
            lemma_texts_insert(self.repo_paths@, repo@, path);
        }
        self.repo_paths.insert(repo.to_owned(), path);
    }

    /// Forgets the checkout for `repo`.
    pub fn remove_repo_path(&mut self, repo: &str)
        ensures
            final(self)@ == old(self)@.without_path(repo@),
    {
        proof {
            lemma_texts_remove(self.repo_paths@, repo@);
        }
        let _ = self.repo_paths.remove(repo);
    }
}

// ---------------------------------------------------------------------------
// The store
// ---------------------------------------------------------------------------

/// Why the registry could not be used.
#[derive(Clone, Debug, PartialEq, Eq)]
pub enum SecretStoreError {
    HomeDirMissing,
    Io(String),
    Serialization(String),
}

/// Why the registry could not be used.
pub enum StoreErrorView {
    HomeDirMissing,
    Io(Seq<char>),
    Serialization(Seq<char>),
}

impl View for SecretStoreError {
    type V = StoreErrorView;

    open spec fn view(&self) -> StoreErrorView {
        match self {
            SecretStoreError::HomeDirMissing => StoreErrorView::HomeDirMissing,
            SecretStoreError::Io(error) => StoreErrorView::Io(error@),
            SecretStoreError::Serialization(error) => StoreErrorView::Serialization(error@),
        }
    }
}

/// Why the registry could not be used, in words.
pub open spec fn store_error_text(error: StoreErrorView) -> Seq<char> {
    match error {
        StoreErrorView::HomeDirMissing =>
        "HOME environment variable is not set; cannot store tokens under ~/.reminder"@,
        StoreErrorView::Io(error) => "I/O error while handling stored accounts: "@ + error,
        StoreErrorView::Serialization(error) => "Failed to serialize stored accounts: "@ + error,
    }
}

impl SecretStoreError {
    /// Why the registry could not be used, in words.
    pub fn message(&self) -> (text: String)
        ensures
            text@ == store_error_text(self@),
    {
        match self {
            SecretStoreError::HomeDirMissing =>
            "HOME environment variable is not set; cannot store tokens under ~/.reminder".to_owned(),
            SecretStoreError::Io(error) => {
                let mut text: String = "I/O error while handling stored accounts: ".to_owned();
                text.append(error.as_str());
                text
            },
            SecretStoreError::Serialization(error) => {
                let mut text: String = "Failed to serialize stored accounts: ".to_owned();
                text.append(error.as_str());
                text
            },
        }
    }
}

/// What reading the registry file found.
pub enum RegistryRead {
    Contents(StoredAccounts),
    /// There is no file yet.
    Missing,
    Unreadable(String),
    /// The file holds no registry.
    Malformed(String),
}

/// The registry that was read, or why there is none.
pub open spec fn registry_in(read: RegistryRead) -> Result<RegistryView, StoreErrorView> {
    match read {
        RegistryRead::Contents(registry) => Ok(registry@),
        RegistryRead::Missing => Ok(empty_registry()),
        RegistryRead::Unreadable(error) => Err(StoreErrorView::Io(error@)),
        RegistryRead::Malformed(error) => Err(StoreErrorView::Serialization(error@)),
    }
}

/// Whether a result is the same as one over views.
pub open spec fn same_registry(
    found: Result<StoredAccounts, SecretStoreError>,
    wanted: Result<RegistryView, StoreErrorView>,
) -> bool {
    match found {
        Ok(registry) => wanted == Ok::<RegistryView, StoreErrorView>(registry@),
        Err(error) => wanted == Err::<RegistryView, StoreErrorView>(error@),
    }
}

/// What is restored from the registry.
pub struct HydrationOutcome {
    pub profiles: Vec<GitHubAccount>,
    pub repo_paths: TextMap<String>,
}

/// The path of `name` in the directory `dir`, with a slash between the two unless `dir` is
/// empty or ends in one.
pub open spec fn path_in(dir: Seq<char>, name: Seq<char>) -> Seq<char> {
    if dir.len() == 0 || dir.last() == '/' {
        dir + name
    } else {
        dir + "/"@ + name
    }
}

/// The directory that holds the registry of the user at home in `home`.
pub open spec fn storage_path(home: Seq<char>) -> Seq<char> {
    path_in(home, STORAGE_DIR_NAME@)
}

/// The file that holds the registry of the user at home in `home`.
pub open spec fn registry_file(home: Seq<char>) -> Seq<char> {
    path_in(storage_path(home), REGISTRY_FILE@)
}

fn join_path(dir: &str, name: &str) -> (path: String)
    ensures
        path@ == path_in(dir@, name@),
{
    let mut path: String = dir.to_owned();
    let count: usize = dir.unicode_len();
    if count > 0 && dir.get_char(count - 1) != '/' {
        path.append("/");
    }
    path.append(name);
    path
}

/// The directory that holds the registry of the user at home in `home`.
pub fn storage_dir(home: &str) -> (path: String)
    ensures
        path@ == storage_path(home@),
{
    join_path(home, STORAGE_DIR_NAME)
}

/// What came of looking for the storage directory.
pub enum StorageDir {
    Ready,
    /// It was not there and could not be made.
    NotCreated(String),
}

/// The place where the registry is kept.
pub struct AccountStore {
    /// The file that holds the registry.
    pub registry_path: String,
}

/// Whether `store` is the store below the home directory `home`, or why there is none.
pub open spec fn store_below(
    home: Option<String>,
    dir: StorageDir,
    store: Result<AccountStore, SecretStoreError>,
) -> bool {
    match (home, dir) {
        (None, _) => store is Err && store->Err_0@ == StoreErrorView::HomeDirMissing,
        (Some(_), StorageDir::NotCreated(error)) => store is Err && store->Err_0@
            == StoreErrorView::Io(error@),
        (Some(path), StorageDir::Ready) => store is Ok && store->Ok_0.registry_path@
            == registry_file(path@),
    }
}

impl AccountStore {
    /// The store below the home directory.
    pub fn initialize(home: Option<String>, dir: StorageDir) -> (store: Result<
        Self,
        SecretStoreError,
    >)
        ensures
            store_below(home, dir, store),
    {
        match home {
            None => Err(SecretStoreError::HomeDirMissing),
            Some(home) => {
                match dir {
                    StorageDir::Ready => Ok(
                        AccountStore {
                            registry_path: join_path(
                                storage_dir(home.as_str()).as_str(),
                                REGISTRY_FILE,
                            ),
                        },
                    ),
                    StorageDir::NotCreated(error) => Err(SecretStoreError::Io(error)),
                }
            },
        }
    }

    /// The registry that was read. A file that is not there counts as an empty registry.
    pub fn read_registry(&self, read: RegistryRead) -> (registry: Result<
        StoredAccounts,
        SecretStoreError,
    >)
        ensures
            same_registry(registry, registry_in(read)),
    {
        match read {
            RegistryRead::Contents(registry) => Ok(registry),
            RegistryRead::Missing => Ok(StoredAccounts::default()),
            RegistryRead::Unreadable(error) => Err(SecretStoreError::Io(error)),
            RegistryRead::Malformed(error) => Err(SecretStoreError::Serialization(error)),
        }
    }

    /// What is restored from the registry that was read.
    pub fn hydrate(&self, read: RegistryRead) -> (outcome: Result<
        HydrationOutcome,
        SecretStoreError,
    >)
        ensures
            match (outcome, registry_in(read)) {
                (Ok(restored), Ok(registry)) => {
                    &&& restored.profiles@.map_values(|p: GitHubAccount| p@) == registry.accounts
                    &&& texts(restored.repo_paths@) == registry.repo_paths
                },
                (Err(error), Err(wanted)) => error@ == wanted,
                _ => false,
            },
    {
        let mut registry: StoredAccounts = match self.read_registry(read) {
            Ok(registry) => registry,
            Err(error) => {
                return Err(error);
            },
        };
        let ghost before = registry.accounts@;
        let mut profiles: Vec<GitHubAccount> = Vec::new();
        let count: usize = registry.accounts.len();
        let mut taken: usize = 0;
        let ghost paths = registry.repo_paths;
        proof {
            assert(registry.accounts@ =~= before.skip(0));
        }
        while taken < count
            invariant
                taken <= count,
                count == before.len(),
                registry.accounts@ == before.skip(taken as int),
                registry.repo_paths == paths,
                profiles@.len() == taken,
                forall|i: int| 0 <= i < taken ==> (#[trigger] profiles@[i])@ == before[i]@,
            decreases count - taken,
        {
            let entry: StoredAccount = registry.accounts.remove(0);
            profiles.push(
                GitHubAccount {
                    login: entry.login,
                    token: entry.token,
                    review_settings: entry.review_settings,
                },
            );
            taken = taken + 1;
            proof {
                assert(registry.accounts@ =~= before.skip(taken as int));
            }
        }
        proof {
            assert(profiles@.map_values(|p: GitHubAccount| p@) =~= stored_views(before));
        }
        Ok(HydrationOutcome { profiles, repo_paths: registry.repo_paths })
    }

    /// The registry to write so that `profile` is kept, after what was read.
    pub fn persist_profile(&self, read: RegistryRead, profile: &GitHubAccount) -> (registry: Result<
        StoredAccounts,
        SecretStoreError,
    >)
        ensures
            same_registry(
                registry,
                match registry_in(read) {
                    Ok(before) => Ok(before.upserted(profile@)),
                    Err(error) => Err(error),
                },
            ),
    {
        match self.read_registry(read) {
            Ok(mut registry) => {
                registry.upsert(profile);
                Ok(registry)
            },
            Err(error) => Err(error),
        }
    }

    /// The registry to write so that `login` is forgotten, after what was read.
    pub fn forget(&self, read: RegistryRead, login: &str) -> (registry: Result<
        StoredAccounts,
        SecretStoreError,
    >)
        ensures
            same_registry(
                registry,
                match registry_in(read) {
                    Ok(before) => Ok(before.removed(login@)),
                    Err(error) => Err(error),
                },
            ),
    {
        match self.read_registry(read) {
            Ok(mut registry) => {
                registry.remove(login);
                Ok(registry)
            },
            Err(error) => Err(error),
        }
    }

    /// The registry to write so that a checkout for `repo` is kept, after what was read.
    pub fn persist_repo_path(&self, read: RegistryRead, repo: &str, path: &str) -> (registry: Result<
        StoredAccounts,
        SecretStoreError,
    >)
        ensures
            same_registry(
                registry,
                match registry_in(read) {
                    Ok(before) => Ok(before.with_path(repo@, path@)),
                    Err(error) => Err(error),
                },
            ),
    {
        match self.read_registry(read) {
            Ok(mut registry) => {
                registry.upsert_repo_path(repo, path);
                Ok(registry)
            },
            Err(error) => Err(error),
        }
    }

    /// The registry to write so that the checkout for `repo` is forgotten, after what was
    /// read.
    pub fn forget_repo_path(&self, read: RegistryRead, repo: &str) -> (registry: Result<
        StoredAccounts,
        SecretStoreError,
    >)
        ensures
            same_registry(
                registry,
                match registry_in(read) {
                    Ok(before) => Ok(before.without_path(repo@)),
                    Err(error) => Err(error),
                },
            ),
    {
        match self.read_registry(read) {
            Ok(mut registry) => {
                registry.remove_repo_path(repo);
                Ok(registry)
            },
            Err(error) => Err(error),
        }
    }
}

} // verus!
