//! What holds of the addresses of threads, and of syncs as a whole.
use vstd::prelude::*;

use crate::decimal::{all_digits, decimal, is_digit, lemma_decimal_digits};
use crate::domain::{
    pull_number, GitHubAccount, MentionKind, MentionThread, NotificationItem, ReviewRequest, ReviewSummary,
};
use crate::domain_laws::law_number_is_read;
use crate::github::{
    awaits, fetch_error_text, lists_mentions, lists_notifications, lists_review_requests,
    lists_reviews, mention_of, mentions_search, notification_of, notifications_request, page_url,
    repo_of, review_of, review_request_of, review_requests_search, reviews_search, search_request,
    sync_begun, thread_request, ApiMethod, FetchError, FetchErrorView, InboxFetch, InboxProgress,
    InboxReply, InboxStage, NotificationResponse, SearchItem, SearchResponse,
};
use crate::pattern::{contains, first_at, occurs_at, replace, strip_prefixes};
use crate::time::Timestamp;

verus! {

/// Text without the pattern is left as it is.
pub proof fn law_replacing_nothing(s: Seq<char>, pat: Seq<char>, with: Seq<char>)
    requires
        !contains(s, pat),
    ensures
        replace(s, pat, with) == s,
    decreases s.len(),
{
    if s.len() > 0 && pat.len() > 0 {
        assert(!occurs_at(s, pat, 0));
        let tail = s.skip(1);
        assert(!contains(tail, pat)) by {
            if contains(tail, pat) {
                let i = choose|i: int| occurs_at(tail, pat, i);
                assert(s.subrange(i + 1, i + 1 + pat.len()) =~= tail.subrange(i, i + pat.len()));
                assert(occurs_at(s, pat, i + 1));
            }
        }
        law_replacing_nothing(tail, pat, with);
        assert(seq![s[0]] + tail =~= s);
    }
}

/// A pattern that occurs once is replaced there.
pub proof fn law_replacing_once(s: Seq<char>, pat: Seq<char>, with: Seq<char>, i: int)
    requires
        pat.len() > 0,
        first_at(s, pat, i),
        !contains(s.skip(i + pat.len()), pat),
    ensures
        replace(s, pat, with) == s.take(i) + with + s.skip(i + pat.len()),
    decreases i,
{
    if i == 0 {
        law_replacing_nothing(s.skip(pat.len() as int), pat, with);
        assert(s.take(0) + with =~= with);
    } else {
        assert(!occurs_at(s, pat, 0));
        let tail = s.skip(1);
        assert(first_at(tail, pat, i - 1)) by {
            assert(tail.subrange(i - 1, i - 1 + pat.len()) =~= s.subrange(i, i + pat.len()));
            assert forall|j: int| 0 <= j < i - 1 implies !occurs_at(tail, pat, j) by {
                if occurs_at(tail, pat, j) {
                    assert(s.subrange(j + 1, j + 1 + pat.len()) =~= tail.subrange(
                        j,
                        j + pat.len(),
                    ));
                    assert(occurs_at(s, pat, j + 1));
                }
            }
        }
        assert(tail.skip(i - 1 + pat.len()) =~= s.skip(i + pat.len()));
        law_replacing_once(tail, pat, with, i - 1);
        assert(seq![s[0]] + (tail.take(i - 1) + with + tail.skip(i - 1 + pat.len())) =~= s.take(i)
            + with + s.skip(i + pat.len()));
    }
}

/// Whether `s` holds no slash.
pub open spec fn no_slash(s: Seq<char>) -> bool {
    forall|i: int| 0 <= i < s.len() ==> #[trigger] s[i] != '/'
}

/// Whether `s` can be the owner or the name of a repository: it is not empty and holds no
/// slash.
pub open spec fn plain_segment(s: Seq<char>) -> bool {
    s.len() > 0 && no_slash(s)
}

/// Whether `s` ends in `suffix`.
pub open spec fn ends_in(s: Seq<char>, suffix: Seq<char>) -> bool {
    s.len() >= suffix.len() && s.skip(s.len() - suffix.len()) == suffix
}

/// Whether `s` starts with `prefix`.
pub open spec fn starts_with(s: Seq<char>, prefix: Seq<char>) -> bool {
    s.len() >= prefix.len() && s.take(prefix.len() as int) == prefix
}

/// The address of a pull request in the API.
pub open spec fn api_pull_url(owner: Seq<char>, name: Seq<char>, n: nat) -> Seq<char> {
    "https://api.github.com/repos/"@ + owner + "/"@ + name + "/pulls/"@ + decimal(n)
}

/// The address of the page of a pull request.
pub open spec fn pull_page_url(owner: Seq<char>, name: Seq<char>, n: nat) -> Seq<char> {
    "https://github.com/"@ + owner + "/"@ + name + "/pull/"@ + decimal(n)
}

/// The characters of the pieces that addresses are made of.
proof fn lemma_pieces()
    ensures
        "https://api.github.com/repos/"@.len() == 29,
        "https://github.com/"@.len() == 19,
        "api.github.com/repos"@.len() == 20,
        "github.com"@.len() == 10,
        "/pulls/"@ == seq!['/', 'p', 'u', 'l', 'l', 's', '/'],
        "/pull/"@ == seq!['/', 'p', 'u', 'l', 'l', '/'],
        "/"@ == seq!['/'],
        "pull"@ == seq!['p', 'u', 'l', 'l'],
        "pulls"@ == seq!['p', 'u', 'l', 'l', 's'],
        "api.github.com"@.len() == 14,
        "https://api.github.com/repos/"@ == "https://"@ + "api.github.com/repos"@ + "/"@,
        "https://github.com/"@ == "https://"@ + "github.com"@ + "/"@,
        "https://"@.len() == 8,
        "https://"@ == seq!['h', 't', 't', 'p', 's', ':', '/', '/'],
        "api.github.com/repos"@ == "api.github.com"@ + seq!['/', 'r', 'e', 'p', 'o', 's'],
        "api.github.com"@[0] == 'a',
        no_slash("api.github.com"@),
        "github.com"@[0] == 'g',
        no_slash("github.com"@),
{
    reveal_strlit("https://api.github.com/repos/");
    reveal_strlit("https://github.com/");
    reveal_strlit("api.github.com/repos");
    reveal_strlit("github.com");
    reveal_strlit("/pulls/");
    reveal_strlit("/pull/");
    reveal_strlit("/");
    reveal_strlit("pull");
    reveal_strlit("pulls");
    reveal_strlit("api.github.com");
    reveal_strlit("https://");
    assert("/pulls/"@ =~= seq!['/', 'p', 'u', 'l', 'l', 's', '/']);
    assert("/pull/"@ =~= seq!['/', 'p', 'u', 'l', 'l', '/']);
    assert("/"@ =~= seq!['/']);
    assert("pull"@ =~= seq!['p', 'u', 'l', 'l']);
    assert("pulls"@ =~= seq!['p', 'u', 'l', 'l', 's']);
    assert("https://"@ =~= seq!['h', 't', 't', 'p', 's', ':', '/', '/']);
    assert("https://api.github.com/repos/"@ =~= "https://"@ + "api.github.com/repos"@ + "/"@);
    assert("https://github.com/"@ =~= "https://"@ + "github.com"@ + "/"@);
    assert("api.github.com/repos"@ =~= "api.github.com"@ + seq!['/', 'r', 'e', 'p', 'o', 's']);
}

/// A word between slashes stands in the address of a page for a repository only where the
/// repository's owner or name is that word.
proof fn lemma_no_early_word(
    owner: Seq<char>,
    name: Seq<char>,
    tail: Seq<char>,
    word: Seq<char>,
    j: int,
)
    requires
        plain_segment(owner),
        plain_segment(name),
        plain_segment(word),
        word != owner,
        word != name,
        word[0] != 'g',
        tail.len() > 0,
        tail[0] == '/',
        0 <= j < 20 + owner.len() + name.len(),
    ensures
        !occurs_at(
            "https://github.com/"@ + owner + "/"@ + name + tail,
            seq!['/'] + word + seq!['/'],
            j,
        ),
{
    lemma_pieces();
    let host = "https://github.com/"@;
    let text = host + owner + "/"@ + name + tail;
    let pat = seq!['/'] + word + seq!['/'];
    let w = word.len() as int;
    let o = owner.len() as int;
    let m = name.len() as int;
    assert(host[18] == '/');
    assert forall|i: int| 0 <= i < 19 && host[i] == '/' implies i == 6 || i == 7 || i == 18 by {
        if 8 <= i < 18 {
            assert(host[i] == "github.com"@[i - 8]);
        }
    }
    if occurs_at(text, pat, j) {
        let found = text.subrange(j, j + pat.len());
        assert(found[0] == '/');
        assert(text[j] == '/');
        assert(found[w + 1] == '/');
        assert(text[j + w + 1] == '/');
        assert forall|k: int| 0 <= k < w implies text[j + 1 + k] == word[k] by {
            assert(found[1 + k] == pat[1 + k]);
        }
        assert(text[j + 1] == word[0]);
        if j < 19 {
            assert(text[j] == host[j]);
            if j == 6 {
                assert(text[7] == host[7] && host[7] == '/');
            } else if j == 7 {
                assert(text[8] == host[8] && host[8] == 'g');
            } else {
                if w < o {
                    assert(text[19 + w] == owner[w]);
                } else if o < w {
                    assert(text[19 + o] == '/');
                    assert(text[j + 1 + o] == word[o]);
                } else {
                    assert forall|k: int| 0 <= k < w implies word[k] == owner[k] by {
                        assert(text[19 + k] == owner[k]);
                        assert(text[j + 1 + k] == word[k]);
                    }
                    assert(word =~= owner);
                }
            }
        } else if j < 19 + o {
            assert(text[j] == owner[j - 19]);
        } else if j == 19 + o {
            if w < m {
                assert(text[20 + o + w] == name[w]);
            } else if m < w {
                assert(text[20 + o + m] == tail[0]);
                assert(text[j + 1 + m] == word[m]);
            } else {
                assert forall|k: int| 0 <= k < w implies word[k] == name[k] by {
                    assert(text[20 + o + k] == name[k]);
                    assert(text[j + 1 + k] == word[k]);
                }
                assert(word =~= name);
            }
        } else {
            assert(text[j] == name[j - 20 - o]);
        }
    }
}

/// Digits hold no pattern that starts with a slash.
proof fn lemma_digits_hold_none(digits: Seq<char>, pat: Seq<char>)
    requires
        all_digits(digits),
        pat.len() > 0,
        pat[0] == '/',
    ensures
        !contains(digits, pat),
{
    if contains(digits, pat) {
        let i = choose|i: int| occurs_at(digits, pat, i);
        assert(digits.subrange(i, i + pat.len())[0] == digits[i]);
        assert(is_digit(digits[i]));
    }
}

/// Behind the host of the API, its address does not occur again, unless the repository
/// itself spells it.
proof fn lemma_api_once(owner: Seq<char>, name: Seq<char>, n: nat)
    requires
        plain_segment(owner),
        plain_segment(name),
        !(ends_in(owner, "api.github.com"@) && starts_with(name, "repos"@)),
    ensures
        !contains(
            "/"@ + owner + "/"@ + name + "/pulls/"@ + decimal(n),
            "api.github.com/repos"@,
        ),
{
    lemma_pieces();
    lemma_decimal_digits(n);
    reveal_strlit("repos");
    let host = "api.github.com"@;
    let api = "api.github.com/repos"@;
    let digits = decimal(n);
    let text = "/"@ + owner + "/"@ + name + "/pulls/"@ + digits;
    let o = owner.len() as int;
    let m = name.len() as int;
    if contains(text, api) {
        let i = choose|i: int| occurs_at(text, api, i);
        let found = text.subrange(i, i + 20);
        let p = i + 14;
        assert(api[0] == host[0]);
        assert(found[0] == 'a' && found[14] == '/' && found[15] == 'r');
        assert(text[p] == '/');
        assert(text[p + 1] == 'r');
        assert(text[i] == 'a');
        if p == 0 {
        } else if p < 1 + o {
            assert(text[p] == owner[p - 1]);
        } else if p == 1 + o {
            assert(i > 0);
            assert(ends_in(owner, host)) by {
                assert forall|k: int| 0 <= k < 14 implies owner.skip(o - 14)[k] == host[k] by {
                    assert(found[k] == host[k]);
                    assert(text[i + k] == owner[i + k - 1]);
                }
                assert(owner.skip(o - 14) =~= host);
            }
            assert(starts_with(name, "repos"@)) by {
                if m < 5 {
                    assert(text[2 + o + m] == '/');
                    assert(found[15 + m] == api[15 + m]);
                }
                assert forall|k: int| 0 <= k < 5 implies name.take(5)[k] == "repos"@[k] by {
                    assert(found[15 + k] == api[15 + k]);
                    assert(text[2 + o + k] == name[k]);
                }
                assert(name.take(5) =~= "repos"@);
            }
        } else if p < 2 + o + m {
            assert(text[p] == name[p - 2 - o]);
        } else if p < 9 + o + m {
            assert(text[p] == "/pulls/"@[p - 2 - o - m]);
            if p == 2 + o + m {
                assert(text[p + 1] == 'p');
            } else {
                assert(p == 8 + o + m);
                assert(text[p + 1] == digits[0]);
                assert(is_digit(digits[0]));
            }
        } else {
            assert(text[p] == digits[p - 9 - o - m]);
            assert(is_digit(digits[p - 9 - o - m]));
        }
    }
}

/// The host of the API gives way to that of the pages.
proof fn lemma_host_replaced(owner: Seq<char>, name: Seq<char>, n: nat)
    requires
        plain_segment(owner),
        plain_segment(name),
        !(ends_in(owner, "api.github.com"@) && starts_with(name, "repos"@)),
    ensures
        replace(api_pull_url(owner, name, n), "api.github.com/repos"@, "github.com"@)
            == "https://github.com/"@ + owner + "/"@ + name + "/pulls/"@ + decimal(n),
{
    lemma_pieces();
    let api = "api.github.com/repos"@;
    let scheme = "https://"@;
    let url = api_pull_url(owner, name, n);
    let rest = "/"@ + owner + "/"@ + name + "/pulls/"@ + decimal(n);
    assert(url =~= scheme + api + rest);
    assert(first_at(url, api, 8)) by {
        assert(url.subrange(8, 28) =~= api);
        assert(api[0] == "api.github.com"@[0]);
        assert forall|j: int| 0 <= j < 8 implies !occurs_at(url, api, j) by {
            assert(url[j] == scheme[j]);
            if occurs_at(url, api, j) {
                assert(url.subrange(j, j + 20)[0] == 'a');
            }
        }
    }
    assert(url.skip(28) =~= rest);
    lemma_api_once(owner, name, n);
    law_replacing_once(url, api, "github.com"@, 8);
    assert(url.take(8) =~= scheme);
    assert(scheme + "github.com"@ + rest =~= "https://github.com/"@ + owner + "/"@ + name
        + "/pulls/"@ + decimal(n));
}

/// The word for lists of pull requests gives way to that for one of them.
proof fn lemma_word_replaced(owner: Seq<char>, name: Seq<char>, n: nat)
    requires
        plain_segment(owner),
        plain_segment(name),
        owner != "pulls"@,
        name != "pulls"@,
    ensures
        replace(
            "https://github.com/"@ + owner + "/"@ + name + "/pulls/"@ + decimal(n),
            "/pulls/"@,
            "/pull/"@,
        ) == pull_page_url(owner, name, n),
{
    lemma_pieces();
    lemma_decimal_digits(n);
    let head = "https://github.com/"@ + owner + "/"@ + name;
    let tail = "/pulls/"@ + decimal(n);
    let hosted = head + "/pulls/"@ + decimal(n);
    let word = "pulls"@;
    let k = head.len() as int;
    assert(hosted =~= head + tail);
    assert("/pulls/"@ =~= seq!['/'] + word + seq!['/']);
    assert(first_at(hosted, "/pulls/"@, k)) by {
        assert(hosted.subrange(k, k + 7) =~= "/pulls/"@);
        assert forall|j: int| 0 <= j < k implies !occurs_at(hosted, "/pulls/"@, j) by {
            lemma_no_early_word(owner, name, tail, word, j);
        }
    }
    assert(hosted.skip(k + 7) =~= decimal(n));
    lemma_digits_hold_none(decimal(n), "/pulls/"@);
    law_replacing_once(hosted, "/pulls/"@, "/pull/"@, k);
    assert(hosted.take(k) =~= head);
}

/// A notification about a pull request leads to the page of that pull request, where
/// neither the owner nor the name of the repository is the word that tells lists of pull
/// requests apart and the two do not spell the address of the API.
pub proof fn law_pull_page(owner: Seq<char>, name: Seq<char>, n: nat)
    requires
        plain_segment(owner),
        plain_segment(name),
        owner != "pulls"@,
        name != "pulls"@,
        !(ends_in(owner, "api.github.com"@) && starts_with(name, "repos"@)),
    ensures
        page_url(api_pull_url(owner, name, n)) == pull_page_url(owner, name, n),
{
    lemma_host_replaced(owner, name, n);
    lemma_word_replaced(owner, name, n);
}

/// The number of a pull request is read back from the address of its page, where neither
/// the owner nor the name of the repository is the word that tells pull requests apart.
pub proof fn law_pull_page_has_its_number(owner: Seq<char>, name: Seq<char>, n: nat)
    requires
        plain_segment(owner),
        plain_segment(name),
        owner != "pull"@,
        name != "pull"@,
        n <= u64::MAX,
    ensures
        pull_number(pull_page_url(owner, name, n)) == Some(n),
{
    lemma_pieces();
    let head = "https://github.com/"@ + owner + "/"@ + name;
    let tail = "/pull/"@ + decimal(n);
    let url = pull_page_url(owner, name, n);
    let word = "pull"@;
    let k = head.len() as int;
    assert(url =~= "https://github.com/"@ + owner + "/"@ + name + tail);
    assert(url =~= head + "/pull/"@ + decimal(n) + Seq::<char>::empty());
    assert("/pull/"@ =~= seq!['/'] + word + seq!['/']);
    assert(first_at(url, "/pull/"@, k)) by {
        assert(url.subrange(k, k + 6) =~= "/pull/"@);
        assert forall|j: int| 0 <= j < k implies !occurs_at(url, "/pull/"@, j) by {
            lemma_no_early_word(owner, name, tail, word, j);
        }
    }
    law_number_is_read(head, "/pull/"@, n, Seq::empty());
}

/// The repository of a search result is the part of its address behind that of the API,
/// where that part does not start with the address of the API again.
pub proof fn law_repo_is_named(repo: Seq<char>)
    requires
        !occurs_at(repo, "https://api.github.com/repos/"@, 0),
    ensures
        repo_of("https://api.github.com/repos/"@ + repo) == repo,
{
    lemma_pieces();
    let prefix = "https://api.github.com/repos/"@;
    let url = prefix + repo;
    assert(url.subrange(0, 29) =~= prefix);
    assert(occurs_at(url, prefix, 0));
    assert(url.skip(29) =~= repo);
    assert(strip_prefixes(repo, prefix) == repo);
}

/// A sync that gets all its replies makes four requests, one after the other, and ends with
/// an inbox of what the four replies brought, as of the time of the last one.
pub proof fn law_sync_brings_all(
    start: InboxFetch,
    listed: Vec<NotificationResponse>,
    requested: SearchResponse,
    mentioned: SearchResponse,
    reviewed: SearchResponse,
    times: (Timestamp, Timestamp, Timestamp, Timestamp),
    steps: (InboxProgress, InboxProgress, InboxProgress, InboxProgress),
)
    requires
        start.stage is Notifications,
        start.goes_on_to(InboxReply::Notifications(listed), times.0, steps.0),
        steps.0->Going_0.goes_on_to(InboxReply::Search(requested), times.1, steps.1),
        steps.1->Going_0.goes_on_to(InboxReply::Search(mentioned), times.2, steps.2),
        steps.2->Going_0.goes_on_to(InboxReply::Search(reviewed), times.3, steps.3),
    ensures
        steps.0 is Going,
        steps.1 is Going,
        steps.2 is Going,
        start.request_view() == notifications_request(start.token@),
        steps.0->Going_0.request_view() == search_request(
            start.token@,
            review_requests_search(start.login@),
            false,
        ),
        steps.1->Going_0.request_view() == search_request(
            start.token@,
            mentions_search(start.login@),
            true,
        ),
        steps.2->Going_0.request_view() == search_request(
            start.token@,
            reviews_search(start.login@),
            true,
        ),
        match steps.3 {
            InboxProgress::Ended(Ok(inbox)) => {
                &&& lists_notifications(inbox.notifications@, listed@)
                &&& lists_review_requests(inbox.review_requests@, requested.items@)
                &&& lists_mentions(inbox.mentions@, mentioned.items@)
                &&& lists_reviews(inbox.recent_reviews@, reviewed.items@)
                &&& inbox.fetched_at == times.3
            },
            _ => false,
        },
{
}

/// A sync ends where a request of it fails, whatever it has brought before, and says why.
pub proof fn law_failure_ends_sync(
    fetch: InboxFetch,
    error: String,
    now: Timestamp,
    next: InboxProgress,
)
    requires
        fetch.goes_on_to(InboxReply::Failed(error), now, next),
    ensures
        match next {
            InboxProgress::Ended(Err(why)) => why@ == FetchErrorView::Http(error@),
            _ => false,
        },
{
}

/// What a sync makes of a listed notification: it has the thread, the reason, the title, the
/// repository, both times and the flag of the listed one, and leads to a page exactly where
/// that has an address.
pub proof fn law_notifications_are_as_listed(
    items: Seq<NotificationItem>,
    listed: Seq<NotificationResponse>,
    i: int,
)
    requires
        lists_notifications(items, listed),
        0 <= i < listed.len(),
    ensures
        items.len() == listed.len(),
        items[i].thread_id@ == listed[i].id@,
        items[i].repo@ == listed[i].repository.full_name@,
        items[i].title@ == listed[i].subject.title@,
        items[i].reason@ == listed[i].reason@,
        items[i].updated_at == listed[i].updated_at,
        items[i].last_read_at == listed[i].last_read_at,
        items[i].unread == listed[i].unread,
        items[i].url is Some <==> listed[i].subject.url is Some,
        items[i].url matches Some(url) ==> url@ == replace(
            replace(listed[i].subject.url->0@, "api.github.com/repos"@, "github.com"@),
            "/pulls/"@,
            "/pull/"@,
        ),
{
    assert(items[i]@ == notification_of(listed[i]));
}

/// What a sync makes of a search result that asks for a review: it has the page, the time
/// and the person of the result, its number and title, and the repository that its address
/// in the API names.
pub proof fn law_review_requests_are_as_found(
    requests: Seq<ReviewRequest>,
    found: Seq<SearchItem>,
    i: int,
)
    requires
        lists_review_requests(requests, found),
        0 <= i < found.len(),
    ensures
        requests.len() == found.len(),
        requests[i]._id == found[i].id,
        requests[i].url@ == found[i].html_url@,
        requests[i].title@ == "#"@ + decimal(found[i].number as nat) + " "@ + found[i].title@,
        requests[i].updated_at == found[i].updated_at,
        requests[i].repo@ == strip_prefixes(
            found[i].repository_url@,
            "https://api.github.com/repos/"@,
        ),
        requests[i].requested_by is Some <==> found[i].user is Some,
        requests[i].requested_by matches Some(by) ==> by@ == found[i].user->0.login@,
{
    assert(requests[i]@ == review_request_of(found[i]));
}

/// What a sync makes of a search result that mentions the account: it has the page and the
/// time of the result, its number and title, the repository that its address in the API
/// names, and is a pull request exactly where its page is that of one.
pub proof fn law_mentions_are_as_found(
    mentions: Seq<MentionThread>,
    found: Seq<SearchItem>,
    i: int,
)
    requires
        lists_mentions(mentions, found),
        0 <= i < found.len(),
    ensures
        mentions.len() == found.len(),
        mentions[i]._id == found[i].id,
        mentions[i].url@ == found[i].html_url@,
        mentions[i].title@ == "#"@ + decimal(found[i].number as nat) + " "@ + found[i].title@,
        mentions[i].updated_at == found[i].updated_at,
        mentions[i].repo@ == strip_prefixes(
            found[i].repository_url@,
            "https://api.github.com/repos/"@,
        ),
        mentions[i].kind == MentionKind::PullRequest <==> exists|k: int|
            occurs_at(found[i].html_url@, "/pull/"@, k),
{
    assert(mentions[i]@ == mention_of(found[i]));
}

/// What a sync makes of a search result that the account has reviewed: it has the page, the
/// time and the state of the result, its number and title, and the repository that its
/// address in the API names.
pub proof fn law_reviews_are_as_found(
    reviews: Seq<ReviewSummary>,
    found: Seq<SearchItem>,
    i: int,
)
    requires
        lists_reviews(reviews, found),
        0 <= i < found.len(),
    ensures
        reviews.len() == found.len(),
        reviews[i]._id == found[i].id,
        reviews[i].url@ == found[i].html_url@,
        reviews[i].title@ == "#"@ + decimal(found[i].number as nat) + " "@ + found[i].title@,
        reviews[i].updated_at == found[i].updated_at,
        reviews[i].repo@ == strip_prefixes(
            found[i].repository_url@,
            "https://api.github.com/repos/"@,
        ),
        reviews[i].state@ == found[i].state@,
{
    assert(reviews[i]@ == review_of(found[i]));
}

/// A sync that gets all its replies brings notifications that are as listed, review
/// requests, mentions and reviews that are as found, each in its place and in the order of
/// the reply, as of the time of the last one.
pub proof fn law_synced_inbox_is_as_replied(
    start: InboxFetch,
    listed: Vec<NotificationResponse>,
    requested: SearchResponse,
    mentioned: SearchResponse,
    reviewed: SearchResponse,
    times: (Timestamp, Timestamp, Timestamp, Timestamp),
    steps: (InboxProgress, InboxProgress, InboxProgress, InboxProgress),
    i: int,
)
    requires
        start.stage is Notifications,
        start.goes_on_to(InboxReply::Notifications(listed), times.0, steps.0),
        steps.0->Going_0.goes_on_to(InboxReply::Search(requested), times.1, steps.1),
        steps.1->Going_0.goes_on_to(InboxReply::Search(mentioned), times.2, steps.2),
        steps.2->Going_0.goes_on_to(InboxReply::Search(reviewed), times.3, steps.3),
    ensures
        steps.3 matches InboxProgress::Ended(Ok(inbox)) && {
            &&& inbox.fetched_at == times.3
            &&& inbox.notifications@.len() == listed@.len()
            &&& 0 <= i < listed@.len() ==> {
                &&& inbox.notifications@[i].thread_id@ == listed@[i].id@
                &&& inbox.notifications@[i].repo@ == listed@[i].repository.full_name@
                &&& inbox.notifications@[i].title@ == listed@[i].subject.title@
                &&& inbox.notifications@[i].reason@ == listed@[i].reason@
                &&& inbox.notifications@[i].updated_at == listed@[i].updated_at
                &&& inbox.notifications@[i].last_read_at == listed@[i].last_read_at
                &&& inbox.notifications@[i].unread == listed@[i].unread
            }
            &&& inbox.review_requests@.len() == requested.items@.len()
            &&& 0 <= i < requested.items@.len() ==> inbox.review_requests@[i].url@
                == requested.items@[i].html_url@
            &&& inbox.mentions@.len() == mentioned.items@.len()
            &&& 0 <= i < mentioned.items@.len() ==> inbox.mentions@[i].url@
                == mentioned.items@[i].html_url@
            &&& inbox.recent_reviews@.len() == reviewed.items@.len()
            &&& 0 <= i < reviewed.items@.len() ==> inbox.recent_reviews@[i].url@
                == reviewed.items@[i].html_url@
        },
{
    law_sync_brings_all(start, listed, requested, mentioned, reviewed, times, steps);
    let inbox = steps.3->Ended_0->Ok_0;
    if 0 <= i < listed@.len() {
        law_notifications_are_as_listed(inbox.notifications@, listed@, i);
    }
    if 0 <= i < requested.items@.len() {
        law_review_requests_are_as_found(inbox.review_requests@, requested.items@, i);
    }
    if 0 <= i < mentioned.items@.len() {
        law_mentions_are_as_found(inbox.mentions@, mentioned.items@, i);
    }
    if 0 <= i < reviewed.items@.len() {
        law_reviews_are_as_found(inbox.recent_reviews@, reviewed.items@, i);
    }
}

/// The requests of a sync go to GitHub with the token of the account. The first lists all
/// notifications, read ones too; the others search for open pull requests that wait for a
/// review by the account, for open threads that mention it, and for pull requests that it
/// has reviewed, the last two with the latest first.
pub proof fn law_sync_requests(fetch: InboxFetch)
    ensures
        fetch.request_view().method == ApiMethod::Get,
        fetch.request_view().token == fetch.token@,
        match fetch.stage {
            InboxStage::Notifications => {
                &&& fetch.request_view().url == "https://api.github.com/notifications"@
                &&& fetch.request_view().query == seq![("all"@, "true"@)]
            },
            InboxStage::ReviewRequests { .. } => {
                &&& fetch.request_view().url == "https://api.github.com/search/issues"@
                &&& fetch.request_view().query == seq![
                    ("q"@, "is:pr state:open review-requested:"@ + fetch.login@),
                ]
            },
            InboxStage::Mentions { .. } => {
                &&& fetch.request_view().url == "https://api.github.com/search/issues"@
                &&& fetch.request_view().query == seq![
                    ("q"@, "mentions:"@ + fetch.login@ + " is:open"@),
                    ("sort"@, "updated"@),
                    ("order"@, "desc"@),
                ]
            },
            InboxStage::RecentReviews { .. } => {
                &&& fetch.request_view().url == "https://api.github.com/search/issues"@
                &&& fetch.request_view().query == seq![
                    ("q"@, "is:pr reviewed-by:"@ + fetch.login@),
                    ("sort"@, "updated"@),
                    ("order"@, "desc"@),
                ]
            },
        },
{
}

/// An action on a thread goes to the address of that thread, with the token of the account.
pub proof fn law_actions_address_their_thread(
    method: ApiMethod,
    token: Seq<char>,
    thread_id: Seq<char>,
)
    ensures
        thread_request(method, token, thread_id).method == method,
        thread_request(method, token, thread_id).token == token,
        thread_request(method, token, thread_id).url
            == "https://api.github.com/notifications/threads"@ + "/"@ + thread_id,
        thread_request(method, token, thread_id).query.len() == 0,
{
}

/// What is said of a failed sync or action.
pub proof fn law_fetch_errors_are_told(error: Seq<char>)
    ensures
        fetch_error_text(FetchErrorView::Http(error)) == "GitHub API request failed: "@ + error,
        fetch_error_text(FetchErrorView::MissingToken) == "Account token is missing"@,
        fetch_error_text(FetchErrorView::BackgroundWorkerGone)
            == "Background worker disconnected before returning a result"@,
{
}

/// An address in the API names a repository by what stands behind the address of the API,
/// however often that stands in front of it; an address that does not start so is left as
/// it is.
pub proof fn law_repo_names_hold_no_api_address(api_url: Seq<char>)
    ensures
        !occurs_at(repo_of(api_url), "https://api.github.com/repos/"@, 0),
        !occurs_at(api_url, "https://api.github.com/repos/"@, 0) ==> repo_of(api_url) == api_url,
        repo_of("https://api.github.com/repos/"@ + api_url) == repo_of(api_url),
{
    lemma_pieces();
    let prefix = "https://api.github.com/repos/"@;
    lemma_stripped_of_prefix(api_url, prefix);
    let url = prefix + api_url;
    assert(url.subrange(0, 29) =~= prefix);
    assert(occurs_at(url, prefix, 0));
    assert(url.skip(29) =~= api_url);
}

proof fn lemma_stripped_of_prefix(s: Seq<char>, prefix: Seq<char>)
    requires
        prefix.len() > 0,
    ensures
        !occurs_at(strip_prefixes(s, prefix), prefix, 0),
    decreases s.len(),
{
    if occurs_at(s, prefix, 0) {
        lemma_stripped_of_prefix(s.skip(prefix.len() as int), prefix);
    }
}

/// A sync waits for notifications first and for what searches find after that. A failure is
/// always taken up.
pub proof fn law_replies_in_turn(stage: InboxStage, reply: InboxReply)
    ensures
        reply is Notifications ==> (awaits(stage, reply) <==> stage is Notifications),
        reply is Search ==> (awaits(stage, reply) <==> stage is ReviewRequests || stage is Mentions
            || stage is RecentReviews),
        reply is Failed ==> awaits(stage, reply),
{
}

/// A sync begins with the notifications, for the login and with the token of the account;
/// without a token it does not begin.
pub proof fn law_beginning_a_sync(profile: GitHubAccount, fetch: Result<InboxFetch, FetchError>)
    requires
        sync_begun(profile, fetch),
    ensures
        fetch is Ok <==> profile.token@.len() > 0,
        fetch matches Ok(begun) ==> begun.login@ == profile.login@ && begun.token@ == profile.token@
            && begun.stage is Notifications,
        fetch matches Err(error) ==> error is MissingToken,
{
}

} // verus!
