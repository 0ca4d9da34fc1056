//! What holds of the registry as a whole.
use vstd::prelude::*;

use crate::domain::AccountView;
use crate::storage::{
    in_login_order, lemma_login_index, lemma_login_index_is, login_index, other_than, path_in,
    placed, registry_file, registry_in, same_registry, store_below, store_error_text, stored_views,
    with_account, AccountStore, RegistryRead, RegistryView, SecretStoreError, StorageDir,
    StoreErrorView, StoredAccounts,
};
use crate::text_map::{
    lemma_less_irreflexive, lemma_less_total, lemma_less_transitive, less, texts,
};

verus! {

/// Whether accounts come in order of their logins.
pub open spec fn login_ordered(accounts: Seq<AccountView>) -> bool {
    forall|i: int, j: int|
        0 <= i < j < accounts.len() ==> !less(
            (#[trigger] accounts[j]).login,
            (#[trigger] accounts[i]).login,
        )
}

/// Whether an account has the login `login`.
pub open spec fn with_login(login: Seq<char>) -> spec_fn(AccountView) -> bool {
    |a: AccountView| a.login == login
}

/// The accounts of `accounts` with the login `login`, in their order.
pub open spec fn kept_for(accounts: Seq<AccountView>, login: Seq<char>) -> Seq<AccountView> {
    accounts.filter(with_login(login))
}

/// Whether no two accounts have the same login.
pub open spec fn logins_differ(accounts: Seq<AccountView>) -> bool {
    forall|i: int, j: int|
        0 <= i < j < accounts.len() ==> (#[trigger] accounts[i]).login != (
        #[trigger] accounts[j]).login
}

proof fn lemma_not_after(a: Seq<char>, b: Seq<char>, c: Seq<char>)
    requires
        !less(b, a),
        !less(c, b),
    ensures
        !less(c, a),
{
    if less(c, a) {
        lemma_less_total(a, b);
        if less(a, b) {
            lemma_less_transitive(c, a, b);
        }
    }
}

proof fn lemma_before_is_not_after(a: Seq<char>, b: Seq<char>)
    requires
        less(a, b),
    ensures
        !less(b, a),
        a != b,
{
    lemma_less_irreflexive(a);
    if less(b, a) {
        lemma_less_transitive(a, b, a);
    }
}

proof fn lemma_placed(accounts: Seq<AccountView>, account: AccountView)
    requires
        login_ordered(accounts),
    ensures
        login_ordered(placed(accounts, account)),
        forall|i: int|
            0 <= i < placed(accounts, account).len() ==> #[trigger] placed(accounts, account)[i]
                == account || accounts.contains(placed(accounts, account)[i]),
    decreases accounts.len(),
{
    let all = placed(accounts, account);
    if accounts.len() > 0 && less(account.login, accounts.last().login) {
        let head = accounts.drop_last();
        let last = accounts.last();
        lemma_placed(head, account);
        lemma_before_is_not_after(account.login, last.login);
        let front = placed(head, account);
        assert forall|i: int| 0 <= i < all.len() implies #[trigger] all[i] == account
            || accounts.contains(all[i]) by {
            if i < front.len() {
                assert(front[i] == all[i]);
                if front[i] != account {
                    let k = head.index_of(front[i]);
                    assert(accounts[k] == front[i]);
                }
            } else {
                assert(accounts[accounts.len() - 1] == last);
            }
        }
        assert forall|i: int, j: int| 0 <= i < j < all.len() implies !less(
            (#[trigger] all[j]).login,
            (#[trigger] all[i]).login,
        ) by {
            if j < front.len() {
                assert(front[i] == all[i] && front[j] == all[j]);
            } else if all[i] != account {
                assert(front[i] == all[i]);
                let k = head.index_of(front[i]);
                assert(accounts[k] == all[i]);
                assert(accounts[accounts.len() - 1] == all[j]);
            }
        }
    } else {
        assert forall|i: int, j: int| 0 <= i < j < all.len() implies !less(
            (#[trigger] all[j]).login,
            (#[trigger] all[i]).login,
        ) by {
            if j == accounts.len() {
                if i < accounts.len() - 1 {
                    assert(!less(accounts[accounts.len() - 1].login, accounts[i].login));
                    lemma_not_after(accounts[i].login, accounts.last().login, account.login);
                }
            } else {
                assert(accounts[i] == all[i] && accounts[j] == all[j]);
            }
        }
        assert forall|i: int| 0 <= i < all.len() implies #[trigger] all[i] == account
            || accounts.contains(all[i]) by {
            if i < accounts.len() {
                assert(accounts[i] == all[i]);
            }
        }
    }
}

/// Ordering accounts by login brings them into order.
pub proof fn law_ordering_orders(accounts: Seq<AccountView>)
    ensures
        login_ordered(in_login_order(accounts)),
    decreases accounts.len(),
{
    if accounts.len() > 0 {
        law_ordering_orders(accounts.drop_last());
        lemma_placed(in_login_order(accounts.drop_last()), accounts.last());
    }
}

proof fn lemma_placed_keeps(accounts: Seq<AccountView>, account: AccountView)
    ensures
        placed(accounts, account).to_multiset() == accounts.to_multiset().insert(account),
    decreases accounts.len(),
{
    if accounts.len() > 0 && less(account.login, accounts.last().login) {
        let head = accounts.drop_last();
        let last = accounts.last();
        lemma_placed_keeps(head, account);
        placed(head, account).to_multiset_ensures();
        head.to_multiset_ensures();
        assert(head.push(last) =~= accounts);
        assert(placed(accounts, account).to_multiset() =~= accounts.to_multiset().insert(account));
    } else {
        accounts.to_multiset_ensures();
    }
}

/// Ordering accounts by login neither adds, drops nor changes one.
pub proof fn law_ordering_keeps_accounts(accounts: Seq<AccountView>)
    ensures
        in_login_order(accounts).to_multiset() == accounts.to_multiset(),
    decreases accounts.len(),
{
    if accounts.len() > 0 {
        let head = accounts.drop_last();
        law_ordering_keeps_accounts(head);
        lemma_placed_keeps(in_login_order(head), accounts.last());
        head.to_multiset_ensures();
        assert(head.push(accounts.last()) =~= accounts);
    } else {
        assert(in_login_order(accounts) =~= accounts);
    }
}

proof fn lemma_placed_kept_for(accounts: Seq<AccountView>, account: AccountView, login: Seq<char>)
    ensures
        kept_for(placed(accounts, account), login) == kept_for(accounts.push(account), login),
    decreases accounts.len(),
{
    reveal_with_fuel(Seq::filter, 3);
    if accounts.len() > 0 && less(account.login, accounts.last().login) {
        let head = accounts.drop_last();
        lemma_placed_kept_for(head, account, login);
        lemma_before_is_not_after(account.login, accounts.last().login);
        assert(placed(accounts, account).drop_last() =~= placed(head, account));
        assert(accounts.push(account).drop_last() =~= accounts);
        assert(head.push(account).drop_last() =~= head);
    }
}

/// Ordering accounts by login leaves those with one login in their order.
pub proof fn law_ordering_is_stable(accounts: Seq<AccountView>, login: Seq<char>)
    ensures
        kept_for(in_login_order(accounts), login) == kept_for(accounts, login),
    decreases accounts.len(),
{
    reveal(Seq::filter);
    if accounts.len() > 0 {
        let head = accounts.drop_last();
        let last = accounts.last();
        law_ordering_is_stable(head, login);
        lemma_placed_kept_for(in_login_order(head), last, login);
        assert(in_login_order(head).push(last).drop_last() =~= in_login_order(head));
    }
}

/// Accounts that come in order are left as they are.
pub proof fn law_ordered_accounts_stay(accounts: Seq<AccountView>)
    requires
        login_ordered(accounts),
    ensures
        in_login_order(accounts) == accounts,
    decreases accounts.len(),
{
    if accounts.len() > 0 {
        let head = accounts.drop_last();
        assert(login_ordered(head)) by {
            assert forall|i: int, j: int| 0 <= i < j < head.len() implies !less(
                (#[trigger] head[j]).login,
                (#[trigger] head[i]).login,
            ) by {
                assert(accounts[i] == head[i] && accounts[j] == head[j]);
            }
        }
        law_ordered_accounts_stay(head);
        if head.len() > 0 {
            assert(head.last() == accounts[accounts.len() - 2]);
            assert(!less(accounts[accounts.len() - 1].login, accounts[accounts.len() - 2].login));
        }
        assert(head.push(accounts.last()) =~= accounts);
    } else {
        assert(in_login_order(accounts) =~= accounts);
    }
}

proof fn lemma_updated_kept_for(
    accounts: Seq<AccountView>,
    i: int,
    profile: AccountView,
    login: Seq<char>,
)
    requires
        0 <= i < accounts.len(),
        accounts[i].login == profile.login,
        login != profile.login,
    ensures
        kept_for(accounts.update(i, profile), login) == kept_for(accounts, login),
    decreases accounts.len(),
{
    reveal(Seq::filter);
    let updated = accounts.update(i, profile);
    if i == accounts.len() - 1 {
        assert(updated.drop_last() =~= accounts.drop_last());
    } else {
        lemma_updated_kept_for(accounts.drop_last(), i, profile, login);
        assert(updated.drop_last() =~= accounts.drop_last().update(i, profile));
    }
}

proof fn lemma_none_kept_for(accounts: Seq<AccountView>, login: Seq<char>)
    requires
        forall|i: int| 0 <= i < accounts.len() ==> (#[trigger] accounts[i]).login != login,
    ensures
        kept_for(accounts, login) == Seq::<AccountView>::empty(),
    decreases accounts.len(),
{
    reveal(Seq::filter);
    if accounts.len() > 0 {
        let head = accounts.drop_last();
        assert forall|i: int| 0 <= i < head.len() implies (#[trigger] head[i]).login != login by {
            assert(accounts[i] == head[i]);
        }
        lemma_none_kept_for(head, login);
        assert(accounts[accounts.len() - 1].login != login);
    }
}

proof fn lemma_updated_first(accounts: Seq<AccountView>, i: int, profile: AccountView)
    requires
        0 <= i < accounts.len(),
        accounts[i].login == profile.login,
        forall|j: int| 0 <= j < i ==> (#[trigger] accounts[j]).login != profile.login,
    ensures
        kept_for(accounts.update(i, profile), profile.login).len() > 0,
        kept_for(accounts.update(i, profile), profile.login)[0] == profile,
    decreases accounts.len(),
{
    reveal(Seq::filter);
    let updated = accounts.update(i, profile);
    let head = accounts.drop_last();
    if i == accounts.len() - 1 {
        assert(updated.drop_last() =~= head);
        assert forall|j: int| 0 <= j < head.len() implies (#[trigger] head[j]).login
            != profile.login by {
            assert(accounts[j] == head[j]);
        }
        lemma_none_kept_for(head, profile.login);
    } else {
        assert forall|j: int| 0 <= j < i implies (#[trigger] head[j]).login != profile.login by {
            assert(accounts[j] == head[j]);
        }
        lemma_updated_first(head, i, profile);
        assert(updated.drop_last() =~= head.update(i, profile));
    }
}

/// What is restored for a login after a profile was kept for it is that profile, and for
/// every other login what was kept before. A profile with a new login is kept once.
pub proof fn law_kept_profile_is_restored(
    registry: RegistryView,
    profile: AccountView,
    other: Seq<char>,
)
    requires
        other != profile.login,
    ensures
        kept_for(registry.upserted(profile).accounts, profile.login).len() > 0,
        kept_for(registry.upserted(profile).accounts, profile.login)[0] == profile,
        kept_for(registry.accounts, profile.login).len() == 0 ==> kept_for(
            registry.upserted(profile).accounts,
            profile.login,
        ) == seq![profile],
        kept_for(registry.upserted(profile).accounts, other) == kept_for(
            registry.accounts,
            other,
        ),
        registry.upserted(profile).repo_paths == registry.repo_paths,
{
    reveal(Seq::filter);
    let accounts = registry.accounts;
    let i = login_index(accounts, profile.login);
    lemma_login_index(accounts, profile.login);
    if i < accounts.len() {
        lemma_updated_kept_for(accounts, i, profile, other);
        lemma_updated_first(accounts, i, profile);
        lemma_updated_first(accounts, i, accounts[i]);
        assert(accounts.update(i, accounts[i]) =~= accounts);
    } else {
        law_ordering_is_stable(accounts.push(profile), other);
        law_ordering_is_stable(accounts.push(profile), profile.login);
        assert(accounts.push(profile).drop_last() =~= accounts);
        lemma_none_kept_for(accounts, profile.login);
        assert(Seq::<AccountView>::empty().push(profile) =~= seq![profile]);
    }
}

proof fn lemma_has_account(accounts: Seq<AccountView>, profile: AccountView)
    ensures
        exists|i: int|
            0 <= i < with_account(accounts, profile).len() && #[trigger] with_account(
                accounts,
                profile,
            )[i] == profile && login_index(with_account(accounts, profile), profile.login) == i,
{
    let all = with_account(accounts, profile);
    let i = login_index(accounts, profile.login);
    lemma_login_index(accounts, profile.login);
    if i < accounts.len() {
        lemma_login_index_is(all, profile.login, i);
        assert(all[i] == profile);
    } else {
        let pushed = accounts.push(profile);
        law_ordering_keeps_accounts(pushed);
        pushed.to_multiset_ensures();
        all.to_multiset_ensures();
        let k = login_index(all, profile.login);
        lemma_login_index(all, profile.login);
        assert(pushed[accounts.len() as int] == profile);
        assert(pushed.contains(profile));
        assert(pushed.to_multiset().contains(profile));
        assert(all.to_multiset().contains(profile));
        assert(all.contains(profile));
        let j = all.index_of(profile);
        assert(all[j].login == profile.login);
        if k == all.len() {
            assert(all[j].login != profile.login);
        }
        assert(all.contains(all[k]));
        assert(all.to_multiset().contains(all[k]));
        assert(pushed.contains(all[k]));
        let m = pushed.index_of(all[k]);
        if m < accounts.len() {
            assert(accounts[m] == all[k]);
            assert(accounts[m].login != profile.login);
        }
        assert(all[k] == profile);
    }
}

/// Keeping a profile twice is keeping it once.
pub proof fn law_keeping_twice_is_once(registry: RegistryView, profile: AccountView)
    ensures
        registry.upserted(profile).upserted(profile) == registry.upserted(profile),
{
    let all = with_account(registry.accounts, profile);
    lemma_has_account(registry.accounts, profile);
    let i = choose|i: int|
        0 <= i < all.len() && #[trigger] all[i] == profile && login_index(all, profile.login) == i;
    assert(all.update(i, profile) =~= all);
}

/// Keeping a profile leaves accounts in order if they were, and their logins different if
/// they were.
pub proof fn law_keeping_keeps_order(registry: RegistryView, profile: AccountView)
    ensures
        login_ordered(registry.accounts) ==> login_ordered(registry.upserted(profile).accounts),
        logins_differ(registry.accounts) ==> logins_differ(registry.upserted(profile).accounts),
{
    let accounts = registry.accounts;
    let all = with_account(accounts, profile);
    let i = login_index(accounts, profile.login);
    lemma_login_index(accounts, profile.login);
    if i < accounts.len() {
        assert forall|a: int, b: int| login_ordered(accounts) && 0 <= a < b < all.len() implies !less(
            (#[trigger] all[b]).login,
            (#[trigger] all[a]).login,
        ) by {
            assert(!less(accounts[b].login, accounts[a].login));
        }
        assert forall|a: int, b: int| logins_differ(accounts) && 0 <= a < b < all.len() implies (
        #[trigger] all[a]).login != (#[trigger] all[b]).login by {
            assert(accounts[a].login != accounts[b].login);
        }
    } else {
        law_ordering_orders(accounts.push(profile));
        if logins_differ(accounts) {
            lemma_ordering_keeps_difference(accounts.push(profile));
        }
    }
}

proof fn lemma_placed_differ(accounts: Seq<AccountView>, account: AccountView)
    requires
        logins_differ(accounts),
        forall|i: int| 0 <= i < accounts.len() ==> (#[trigger] accounts[i]).login != account.login,
    ensures
        logins_differ(placed(accounts, account)),
        forall|i: int|
            0 <= i < placed(accounts, account).len() ==> #[trigger] placed(accounts, account)[i]
                == account || accounts.contains(placed(accounts, account)[i]),
    decreases accounts.len(),
{
    let all = placed(accounts, account);
    if accounts.len() > 0 && less(account.login, accounts.last().login) {
        let head = accounts.drop_last();
        let front = placed(head, account);
        assert forall|i: int, j: int| 0 <= i < j < head.len() implies (#[trigger] head[i]).login
            != (#[trigger] head[j]).login by {
            assert(accounts[i] == head[i] && accounts[j] == head[j]);
        }
        assert forall|i: int| 0 <= i < head.len() implies (#[trigger] head[i]).login
            != account.login by {
            assert(accounts[i] == head[i]);
        }
        lemma_placed_differ(head, account);
        assert(accounts[accounts.len() - 1] == accounts.last());
        assert forall|i: int| 0 <= i < all.len() implies #[trigger] all[i] == account
            || accounts.contains(all[i]) by {
            if i < front.len() {
                assert(front[i] == all[i]);
                if front[i] != account {
                    let k = head.index_of(front[i]);
                    assert(accounts[k] == front[i]);
                }
            }
        }
        assert forall|i: int, j: int| 0 <= i < j < all.len() implies (#[trigger] all[i]).login
            != (#[trigger] all[j]).login by {
            if j < front.len() {
                assert(front[i] == all[i] && front[j] == all[j]);
            } else if all[i] != account {
                assert(front[i] == all[i]);
                let k = head.index_of(front[i]);
                assert(accounts[k] == all[i]);
            }
        }
    } else {
        assert forall|i: int| 0 <= i < all.len() implies #[trigger] all[i] == account
            || accounts.contains(all[i]) by {
            if i < accounts.len() {
                assert(accounts[i] == all[i]);
            }
        }
        assert forall|i: int, j: int| 0 <= i < j < all.len() implies (#[trigger] all[i]).login
            != (#[trigger] all[j]).login by {
            assert(accounts[i] == all[i]);
            if j < accounts.len() {
                assert(accounts[j] == all[j]);
            }
        }
    }
}

proof fn lemma_ordering_keeps_difference(accounts: Seq<AccountView>)
    requires
        logins_differ(accounts),
    ensures
        logins_differ(in_login_order(accounts)),
        forall|i: int|
            0 <= i < in_login_order(accounts).len() ==> accounts.contains(
                #[trigger] in_login_order(accounts)[i],
            ),
    decreases accounts.len(),
{
    if accounts.len() > 0 {
        let head = accounts.drop_last();
        let last = accounts.last();
        let ordered = in_login_order(head);
        assert forall|i: int, j: int| 0 <= i < j < head.len() implies (#[trigger] head[i]).login
            != (#[trigger] head[j]).login by {
            assert(accounts[i] == head[i] && accounts[j] == head[j]);
        }
        lemma_ordering_keeps_difference(head);
        assert forall|i: int| 0 <= i < ordered.len() implies (#[trigger] ordered[i]).login
            != last.login by {
            let k = head.index_of(ordered[i]);
            assert(accounts[k] == ordered[i]);
            assert(accounts[accounts.len() - 1] == last);
        }
        lemma_placed_differ(ordered, last);
        let all = in_login_order(accounts);
        assert forall|i: int| 0 <= i < all.len() implies accounts.contains(
            #[trigger] all[i],
        ) by {
            if all[i] == last {
                assert(accounts[accounts.len() - 1] == last);
            } else {
                let m = ordered.index_of(all[i]);
                let k = head.index_of(ordered[m]);
                assert(accounts[k] == all[i]);
            }
        }
    }
}

proof fn lemma_removed_kept_for(accounts: Seq<AccountView>, login: Seq<char>, other: Seq<char>)
    ensures
        kept_for(accounts.filter(other_than(login)), other) == if other == login {
            Seq::empty()
        } else {
            kept_for(accounts, other)
        },
    decreases accounts.len(),
{
    reveal(Seq::filter);
    if accounts.len() > 0 {
        let head = accounts.drop_last();
        lemma_removed_kept_for(head, login, other);
        let kept = head.filter(other_than(login));
        assert(kept.push(accounts.last()).drop_last() =~= kept);
    }
}

/// A login that was forgotten is not restored, and every other login is as before.
pub proof fn law_forgotten_login_is_gone(
    registry: RegistryView,
    login: Seq<char>,
    other: Seq<char>,
)
    requires
        other != login,
    ensures
        kept_for(registry.removed(login).accounts, login) == Seq::<AccountView>::empty(),
        kept_for(registry.removed(login).accounts, other) == kept_for(registry.accounts, other),
        registry.removed(login).repo_paths == registry.repo_paths,
{
    lemma_removed_kept_for(registry.accounts, login, login);
    lemma_removed_kept_for(registry.accounts, login, other);
}

proof fn lemma_placed_then_removed(accounts: Seq<AccountView>, account: AccountView)
    requires
        forall|i: int| 0 <= i < accounts.len() ==> (#[trigger] accounts[i]).login != account.login,
    ensures
        placed(accounts, account).filter(other_than(account.login)) == accounts,
    decreases accounts.len(),
{
    reveal(Seq::filter);
    if accounts.len() > 0 && less(account.login, accounts.last().login) {
        let head = accounts.drop_last();
        assert forall|i: int| 0 <= i < head.len() implies (#[trigger] head[i]).login
            != account.login by {
            assert(accounts[i] == head[i]);
        }
        lemma_placed_then_removed(head, account);
        assert(placed(accounts, account).drop_last() =~= placed(head, account));
        assert(accounts[accounts.len() - 1].login != account.login);
        assert(head.push(accounts.last()) =~= accounts);
    } else {
        assert(accounts.push(account).drop_last() =~= accounts);
        lemma_all_others_stay(accounts, account.login);
    }
}

proof fn lemma_all_others_stay(accounts: Seq<AccountView>, login: Seq<char>)
    requires
        forall|i: int| 0 <= i < accounts.len() ==> (#[trigger] accounts[i]).login != login,
    ensures
        accounts.filter(other_than(login)) == accounts,
    decreases accounts.len(),
{
    reveal(Seq::filter);
    if accounts.len() > 0 {
        let head = accounts.drop_last();
        assert forall|i: int| 0 <= i < head.len() implies (#[trigger] head[i]).login != login by {
            assert(accounts[i] == head[i]);
        }
        lemma_all_others_stay(head, login);
        assert(accounts[accounts.len() - 1].login != login);
        assert(head.push(accounts.last()) =~= accounts);
    } else {
        assert(accounts.filter(other_than(login)) =~= accounts);
    }
}

/// Forgetting a login that was not kept before its profile was added undoes the adding,
/// where the accounts were in order.
pub proof fn law_forgetting_undoes_adding(registry: RegistryView, profile: AccountView)
    requires
        login_ordered(registry.accounts),
        kept_for(registry.accounts, profile.login).len() == 0,
    ensures
        registry.upserted(profile).removed(profile.login) == registry,
{
    let accounts = registry.accounts;
    let i = login_index(accounts, profile.login);
    lemma_login_index(accounts, profile.login);
    if i < accounts.len() {
        lemma_updated_first(accounts, i, accounts[i]);
        assert(accounts.update(i, accounts[i]) =~= accounts);
    }
    law_ordered_accounts_stay(accounts);
    assert(accounts.push(profile).drop_last() =~= accounts);
    lemma_placed_then_removed(accounts, profile);
    assert(registry.upserted(profile).removed(profile.login) =~= registry);
}

/// A checkout that was kept is restored under its repository, and forgetting it again
/// leaves the checkouts of all other repositories as they were.
pub proof fn law_kept_path_is_restored(
    registry: RegistryView,
    repo: Seq<char>,
    path: Seq<char>,
    other: Seq<char>,
)
    requires
        other != repo,
    ensures
        registry.with_path(repo, path).repo_paths.dom().contains(repo),
        registry.with_path(repo, path).repo_paths[repo] == path,
        registry.with_path(repo, path).repo_paths.dom().contains(other)
            == registry.repo_paths.dom().contains(other),
        registry.with_path(repo, path).repo_paths[other] == registry.repo_paths[other],
        registry.with_path(repo, path).accounts == registry.accounts,
        !registry.with_path(repo, path).without_path(repo).repo_paths.dom().contains(repo),
        registry.with_path(repo, path).without_path(repo) == registry.without_path(repo),
{
    assert(registry.with_path(repo, path).without_path(repo) =~= registry.without_path(repo));
}

/// The registry stands in a directory of its own below the home directory.
pub proof fn law_registry_stands_below_home(home: Seq<char>)
    requires
        home.len() > 0,
        home.last() != '/',
    ensures
        registry_file(home) == home + "/.reminder/accounts.json"@,
{
    reveal_strlit("/");
    reveal_strlit(".reminder");
    reveal_strlit("accounts.json");
    reveal_strlit("/.reminder/accounts.json");
    assert(registry_file(home) =~= home + "/.reminder/accounts.json"@);
}

/// A directory that ends in a slash needs no other before what stands in it.
pub proof fn law_paths_in_directories(dir: Seq<char>, name: Seq<char>)
    ensures
        dir.len() > 0 && dir.last() != '/' ==> path_in(dir, name) == dir + seq!['/'] + name,
        dir.len() > 0 && dir.last() == '/' ==> path_in(dir, name) == dir + name,
        path_in(Seq::empty(), name) == name,
{
    reveal_strlit("/");
    assert("/"@ =~= seq!['/']);
    assert(Seq::<char>::empty() + name =~= name);
}

/// What was read of the registry is what it holds; a file that is not there holds nothing; one
/// that cannot be read or holds no registry is told apart.
pub proof fn law_reading_the_registry(read: RegistryRead)
    ensures
        read matches RegistryRead::Contents(registry) ==> (registry_in(read) matches Ok(found)
            && found.accounts == stored_views(registry.accounts@) && found.repo_paths == texts(
            registry.repo_paths@,
        )),
        read is Missing ==> (registry_in(read) matches Ok(found) && found.accounts.len() == 0
            && found.repo_paths == Map::<Seq<char>, Seq<char>>::empty()),
        read matches RegistryRead::Unreadable(error) ==> registry_in(read) == Err::<
            RegistryView,
            StoreErrorView,
        >(StoreErrorView::Io(error@)),
        read matches RegistryRead::Malformed(error) ==> registry_in(read) == Err::<
            RegistryView,
            StoreErrorView,
        >(StoreErrorView::Serialization(error@)),
{
}

/// Each error is told in words of its own, with its reason.
pub proof fn law_store_errors_are_told(error: SecretStoreError)
    ensures
        error is HomeDirMissing ==> store_error_text(error@)
            == "HOME environment variable is not set; cannot store tokens under ~/.reminder"@,
        error matches SecretStoreError::Io(reason) ==> store_error_text(error@)
            == "I/O error while handling stored accounts: "@ + reason@,
        error matches SecretStoreError::Serialization(reason) ==> store_error_text(error@)
            == "Failed to serialize stored accounts: "@ + reason@,
{
}

/// What is seen of a kept account are its login, its token and its settings.
pub proof fn law_stored_accounts_are_seen(registry: StoredAccounts, i: int)
    requires
        0 <= i < registry.accounts@.len(),
    ensures
        registry@.accounts.len() == registry.accounts@.len(),
        registry@.accounts[i].login == registry.accounts@[i].login@,
        registry@.accounts[i].token == registry.accounts@[i].token@,
        registry@.accounts[i].review_settings == registry.accounts@[i].review_settings@,
        registry@.repo_paths == texts(registry.repo_paths@),
{
}

/// A registry handed on is the one that was asked for, or the error that came in its place.
pub proof fn law_registries_are_handed_on(
    found: Result<StoredAccounts, SecretStoreError>,
    wanted: Result<RegistryView, StoreErrorView>,
)
    requires
        same_registry(found, wanted),
    ensures
        found is Ok <==> wanted is Ok,
        found matches Ok(registry) ==> wanted->Ok_0 == registry@,
        found matches Err(error) ==> wanted->Err_0 == error@,
{
}

/// A profile takes the place of the first account with its login; where there is none, it is
/// put in and the accounts are brought into order.
pub proof fn law_where_profiles_are_kept(accounts: Seq<AccountView>, profile: AccountView, i: int)
    requires
        forall|j: int| 0 <= j < i ==> (#[trigger] accounts[j]).login != profile.login,
    ensures
        0 <= i < accounts.len() && accounts[i].login == profile.login ==> with_account(
            accounts,
            profile,
        ) == accounts.update(i, profile),
        i == accounts.len() ==> with_account(accounts, profile) == in_login_order(
            accounts.push(profile),
        ),
{
    if 0 <= i <= accounts.len() && (i < accounts.len() ==> accounts[i].login == profile.login) {
        lemma_login_index_is(accounts, profile.login, i);
    }
}

/// The store is below the home directory, and needs one, and a directory of its own there.
pub proof fn law_finding_the_store(
    home: Option<String>,
    dir: StorageDir,
    store: Result<AccountStore, SecretStoreError>,
)
    requires
        store_below(home, dir, store),
    ensures
        store is Ok <==> home is Some && dir is Ready,
        store matches Ok(found) ==> found.registry_path@ == registry_file(home->0@),
        home is None ==> (store matches Err(error) && error is HomeDirMissing),
        home is Some ==> (dir matches StorageDir::NotCreated(reason) ==> (
        store matches Err(SecretStoreError::Io(said)) && said@ == reason@)),
{
}

} // verus!
