//! What holds of thread numbers as a whole.
use vstd::prelude::*;

use crate::decimal::{
    all_digits, decimal, is_digit, law_parse_reads_decimal, lemma_decimal_digits, parse,
};
use crate::domain::{
    issue_number, number_part, pull_key, pull_number, same_key, same_number,
    segment_number, GitHubAccount,
    NotificationItem, NotificationView,
};
use crate::pattern::{contains, first_at, lemma_split_once, occurs_at};

verus! {

/// Whether a number in an address ends before `rest`.
pub open spec fn number_ends(rest: Seq<char>) -> bool {
    rest.len() == 0 || rest[0] == '/' || rest[0] == '?' || rest[0] == '#'
}

proof fn lemma_number_part(digits: Seq<char>, rest: Seq<char>)
    requires
        all_digits(digits),
        number_ends(rest),
    ensures
        number_part(digits + rest) == digits,
    decreases digits.len(),
{
    let s = digits + rest;
    if digits.len() == 0 {
        assert(s =~= rest);
        assert(number_part(s) =~= digits);
    } else {
        assert(is_digit(digits[0]));
        assert(s[0] == digits[0]);
        let tail = digits.skip(1);
        assert(s.skip(1) =~= tail + rest);
        assert(all_digits(tail)) by {
            assert forall|i: int| 0 <= i < tail.len() implies is_digit(#[trigger] tail[i]) by {
                assert(digits[i + 1] == tail[i]);
            }
        }
        lemma_number_part(tail, rest);
        assert(seq![digits[0]] + tail =~= digits);
    }
}

/// The number that follows the first `segment` of an address is read back, whatever
/// follows it behind a slash, a question mark or a hash.
pub proof fn law_number_is_read(head: Seq<char>, segment: Seq<char>, n: nat, rest: Seq<char>)
    requires
        n <= u64::MAX,
        number_ends(rest),
        first_at(head + segment + decimal(n) + rest, segment, head.len() as int),
    ensures
        segment_number(head + segment + decimal(n) + rest, segment) == Some(n),
{
    let url = head + segment + decimal(n) + rest;
    lemma_split_once(url, segment, head.len() as int);
    lemma_decimal_digits(n);
    assert(url.skip((head.len() + segment.len()) as int) =~= decimal(n) + rest);
    lemma_number_part(decimal(n), rest);
    law_parse_reads_decimal(n, u64::MAX as nat);
}

/// A title with a number behind it starts with the title, and no number is put behind it
/// where the address leads to neither a pull request nor an issue.
pub proof fn law_title_is_kept(item: NotificationView)
    ensures
        item.title.is_prefix_of(item.display_title()),
        item.thread_number() is None ==> item.display_title() == item.title,
{
    assert(item.display_title().take(item.title.len() as int) =~= item.title);
}

/// A notification is about a pull request exactly where its address has the number of one,
/// and then the number of its thread is that number.
pub proof fn law_pull_requests_are_threads(item: NotificationView)
    ensures
        item.pull_request_key() is Some <==> item.pull_request_number() is Some,
        item.pull_request_number() matches Some(n) ==> item.thread_number() == Some(n)
            && item.pull_request_key() == Some((item.repo, n)),
{
}

proof fn lemma_number_text(text: Seq<char>, rest: Seq<char>)
    requires
        forall|i: int|
            0 <= i < text.len() ==> #[trigger] text[i] != '/' && text[i] != '?' && text[i] != '#',
        number_ends(rest),
    ensures
        number_part(text + rest) == text,
    decreases text.len(),
{
    let s = text + rest;
    if text.len() == 0 {
        assert(s =~= rest);
        assert(number_part(s) =~= text);
    } else {
        assert(s[0] == text[0]);
        let tail = text.skip(1);
        assert(s.skip(1) =~= tail + rest);
        assert forall|i: int| 0 <= i < tail.len() implies #[trigger] tail[i] != '/' && tail[i]
            != '?' && tail[i] != '#' by {
            assert(text[i + 1] == tail[i]);
        }
        lemma_number_text(tail, rest);
        assert(seq![text[0]] + tail =~= text);
    }
}

proof fn lemma_segment_number(
    head: Seq<char>,
    segment: Seq<char>,
    text: Seq<char>,
    rest: Seq<char>,
)
    requires
        forall|i: int|
            0 <= i < text.len() ==> #[trigger] text[i] != '/' && text[i] != '?' && text[i] != '#',
        number_ends(rest),
        first_at(head + segment + text + rest, segment, head.len() as int),
    ensures
        segment_number(head + segment + text + rest, segment) == parse(text, u64::MAX as nat),
{
    let url = head + segment + text + rest;
    lemma_split_once(url, segment, head.len() as int);
    assert(url.skip((head.len() + segment.len()) as int) =~= text + rest);
    lemma_number_text(text, rest);
}

/// The number of a pull request is what stands behind the first "/pull/" of its address, up to
/// a slash, a question mark, a hash or the end, where that is a number.
pub proof fn law_pull_numbers(head: Seq<char>, text: Seq<char>, rest: Seq<char>)
    requires
        forall|i: int|
            0 <= i < text.len() ==> #[trigger] text[i] != '/' && text[i] != '?' && text[i] != '#',
        number_ends(rest),
        first_at(head + "/pull/"@ + text + rest, "/pull/"@, head.len() as int),
    ensures
        pull_number(head + "/pull/"@ + text + rest) == parse(text, u64::MAX as nat),
{
    lemma_segment_number(head, "/pull/"@, text, rest);
}

/// The number of an issue is what stands behind the first "/issues/" of its address, up to a
/// slash, a question mark, a hash or the end, where that is a number.
pub proof fn law_issue_numbers(head: Seq<char>, text: Seq<char>, rest: Seq<char>)
    requires
        forall|i: int|
            0 <= i < text.len() ==> #[trigger] text[i] != '/' && text[i] != '?' && text[i] != '#',
        number_ends(rest),
        first_at(head + "/issues/"@ + text + rest, "/issues/"@, head.len() as int),
    ensures
        issue_number(head + "/issues/"@ + text + rest) == parse(text, u64::MAX as nat),
{
    lemma_segment_number(head, "/issues/"@, text, rest);
}

/// An address without "/pull/" leads to no pull request, and one without "/issues/" to no
/// issue.
pub proof fn law_addresses_without_numbers(url: Seq<char>)
    ensures
        !contains(url, "/pull/"@) ==> pull_number(url) is None,
        !contains(url, "/issues/"@) ==> issue_number(url) is None,
{
    if exists|i: int| first_at(url, "/pull/"@, i) {
        let i = choose|i: int| first_at(url, "/pull/"@, i);
        assert(occurs_at(url, "/pull/"@, i));
    }
    if exists|i: int| first_at(url, "/issues/"@, i) {
        let i = choose|i: int| first_at(url, "/issues/"@, i);
        assert(occurs_at(url, "/issues/"@, i));
    }
}

/// The thread of a notification has the number of the pull request that its address leads to,
/// or else of the issue, and its title is shown with that number behind a hash. One without
/// an address has no number.
pub proof fn law_shown_titles(item: NotificationItem)
    ensures
        item.url is None ==> item@.thread_number() is None && item@.pull_request_number() is None
            && item@.display_title() == item.title@,
        item.url matches Some(url) ==> item@.pull_request_number() == pull_number(url@) && (match (
            pull_number(url@),
            issue_number(url@),
        ) {
            (Some(n), _) => item@.thread_number() == Some(n) && item@.display_title() == item.title@
                + " #"@ + decimal(n),
            (None, Some(n)) => item@.thread_number() == Some(n) && item@.display_title()
                == item.title@ + " #"@ + decimal(n),
            (None, None) => item@.thread_number() is None && item@.display_title() == item.title@,
        }),
{
}

/// What is seen of an account are its login, its token, its environment variables and its
/// arguments.
pub proof fn law_accounts_are_seen(account: GitHubAccount, key: Seq<char>, i: int)
    ensures
        account@.login == account.login@,
        account@.token == account.token@,
        account@.review_settings.env_vars.dom().contains(key)
            == account.review_settings.env_vars@.dom().contains(key),
        account.review_settings.env_vars@.dom().contains(key)
            ==> account@.review_settings.env_vars[key] == account.review_settings.env_vars@[key]@,
        account@.review_settings.additional_args.len()
            == account.review_settings.additional_args@.len(),
        0 <= i < account.review_settings.additional_args@.len()
            ==> account@.review_settings.additional_args[i]
            == account.review_settings.additional_args@[i]@,
{
}

/// What is seen of a notification is what its fields hold.
pub proof fn law_notifications_are_seen(item: NotificationItem)
    ensures
        item@.thread_id == item.thread_id@,
        item@.repo == item.repo@,
        item@.title == item.title@,
        item.url is None ==> item@.url is None,
        item.url matches Some(url) ==> item@.url == Some(url@),
        item@.reason == item.reason@,
        item@.updated_at == item.updated_at,
        item@.last_read_at == item.last_read_at,
        item@.unread == item.unread,
{
}

/// A pull request is known by its repository and its number.
pub proof fn law_pull_requests_by_key(repo: Seq<char>, url: Seq<char>)
    ensures
        pull_number(url) matches Some(n) ==> pull_key(repo, url) == Some((repo, n)),
        pull_number(url) is None ==> pull_key(repo, url) is None,
{
}

/// A machine number stands for the number with its value, a missing one for none, and the same
/// holds of the numbers of pull requests.
pub proof fn law_found_numbers(n: u64, repo: String, wanted: nat, name: Seq<char>)
    ensures
        same_number(Some(n), Some(wanted)) <==> n == wanted,
        !same_number(Some(n), None),
        !same_number(None, Some(wanted)),
        same_number(None, None),
        same_key(Some((repo, n)), Some((name, wanted))) <==> repo@ == name && n == wanted,
        !same_key(Some((repo, n)), None),
        !same_key(None, Some((name, wanted))),
        same_key(None, None),
{
}

} // verus!
