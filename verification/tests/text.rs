use reminder::app::repo_paths::{canonical_repo_key, normalize_hydrated_repo_paths, CheckoutProbe};
use reminder::app::review_settings::{
    format_review_additional_args, format_review_env_vars, parse_review_additional_args,
    parse_review_env_vars,
};
use reminder::app::search::SearchFilter;
use reminder::domain::ReviewCommandSettings;
use reminder::pattern::{contains_text, replaced, text_split_once, without_prefixes};
use reminder::text::{
    eq_ignoring_ascii_case, join_text, lines_of, split_text, trimmed, white_space, words_of,
};
use reminder::text_map::{text_order, TextMap, TextOrder};

#[test]
fn search_filter_matches_case_insensitive() {
    let filter = SearchFilter::new("Repo");
    assert!(filter.matches_any(&["my/repo"]));
    assert!(!filter.matches_any(&["other/project"]));
}

#[test]
fn parse_review_env_vars_parses_key_value_lines() {
    let env_vars = parse_review_env_vars("FOO=bar\nBAZ=qux").expect("env vars");

    assert_eq!(env_vars.get("FOO"), Some(&String::from("bar")));
    assert_eq!(env_vars.get("BAZ"), Some(&String::from("qux")));
}

#[test]
fn parse_review_additional_args_splits_whitespace_tokens() {
    let args = parse_review_additional_args("--lang korean --mode fast");

    assert_eq!(args, vec!["--lang", "korean", "--mode", "fast"]);
}

#[test]
fn searches_ignore_case_and_white_space_around_them() {
    assert!(SearchFilter::new("  ").matches_any(&[]));
    assert!(!SearchFilter::new("x").matches_any(&[]));
    assert!(SearchFilter::new(" ÄB ").matches_any(&["no", "xäby"]));
    assert!(!SearchFilter::new("ab c").matches_any(&["abc", "ab", "c"]));
    assert!(SearchFilter::new("mention").matches_any(&["acme/repo", "Title", "TEAM_MENTION"]));
}

#[test]
fn white_space_is_that_of_unicode() {
    for c in '\0'..=char::MAX {
        assert_eq!(white_space(c), c.is_whitespace(), "{c:?}");
    }
}

#[test]
fn texts_are_trimmed_and_split_as_in_std() {
    for text in ["", " a ", "\u{a0}x y\u{3000}", "\t\n", "a/b//c/", "/", "x"] {
        assert_eq!(trimmed(text), text.trim());
        assert_eq!(split_text(text, '/'), text.split('/').collect::<Vec<_>>());
        assert_eq!(words_of(text), text.split_whitespace().collect::<Vec<_>>());
    }
    for text in ["", "\n", "a\nb", "a\r\nb\r\n", "a\r", "a\n\nb\n", "\r\n\r", "x\r\r\ny"] {
        assert_eq!(lines_of(text), text.lines().collect::<Vec<_>>());
    }
    let parts = vec!["a".to_owned(), "".to_owned(), "b".to_owned()];
    assert_eq!(join_text(&parts, ", "), "a, , b");
    assert_eq!(join_text(&Vec::new(), ", "), "");
    assert!(eq_ignoring_ascii_case("OctoCat", "octocat"));
    assert!(!eq_ignoring_ascii_case("É", "é"));
    assert!(!eq_ignoring_ascii_case("ab", "abc"));
}

#[test]
fn patterns_are_found_and_replaced_as_in_std() {
    for (text, pat) in [("", "a"), ("abab", "ab"), ("aaa", "aa"), ("xay", "a"), ("x", ""), ("", "")] {
        assert_eq!(contains_text(text, pat), text.contains(pat));
        let split = text_split_once(text, pat);
        let wanted = text.split_once(pat).map(|(a, b)| (a.to_owned(), b.to_owned()));
        assert_eq!(split, wanted);
        if !pat.is_empty() {
            assert_eq!(replaced(text, pat, "-"), text.replace(pat, "-"));
            assert_eq!(without_prefixes(text, pat), text.trim_start_matches(pat));
        }
    }
}

#[test]
fn text_is_ordered_as_in_std() {
    let texts = ["", "a", "aa", "b", "B", "ä", "\u{ffff}", "\u{10000}"];
    for a in texts {
        for b in texts {
            let order = text_order(a, b);
            assert_eq!(order == TextOrder::Before, a < b);
            assert_eq!(order == TextOrder::Same, a == b);
            assert_eq!(order == TextOrder::After, a > b);
        }
    }
}

#[test]
fn maps_hold_each_key_once_and_in_order() {
    let mut map = TextMap::new();
    for (key, value) in [("b", 1), ("a", 2), ("c", 3), ("a", 4)] {
        map.insert(key.to_owned(), value);
    }
    assert_eq!(map.len(), 3);
    let walked: Vec<(String, i32)> =
        (0..map.len()).map(|i| (map.key_at(i).clone(), *map.value_at(i))).collect();
    assert_eq!(
        walked,
        vec![("a".to_owned(), 4), ("b".to_owned(), 1), ("c".to_owned(), 3)]
    );
    assert_eq!(map.remove("b"), Some(1));
    assert_eq!(map.remove("b"), None);
    assert!(!map.contains_key("b"));
    assert_eq!(map.get("c"), Some(&3));
}

// Environment variables ------------------------------------------------------

#[test]
fn env_lines_are_trimmed_and_the_last_one_wins() {
    let vars = parse_review_env_vars("\n  A = x = y \r\n\t\nB=\nA=2").expect("env vars");
    assert_eq!(vars.len(), 2);
    assert_eq!(vars.get("A"), Some(&"2".to_owned()));
    assert_eq!(vars.get("B"), Some(&"".to_owned()));
    let vars = parse_review_env_vars("A = x = y").expect("env vars");
    assert_eq!(vars.get("A"), Some(&"x = y".to_owned()));
}

#[test]
fn env_lines_that_are_not_as_they_should_be_are_named() {
    assert_eq!(
        parse_review_env_vars("A=1\n\nnothing\n=2").err().as_deref(),
        Some("Environment variable line 3 must be in KEY=VALUE form.")
    );
    assert_eq!(
        parse_review_env_vars(" = 2").err().as_deref(),
        Some("Environment variable line 1 must include a non-empty key.")
    );
    assert_eq!(
        parse_review_env_vars("A=1\nA B=2").err().as_deref(),
        Some("Environment variable line 2 has an invalid key.")
    );
    assert_eq!(
        parse_review_env_vars("A\0=2").err().as_deref(),
        Some("Environment variable line 1 has an invalid key.")
    );
    assert_eq!(
        parse_review_env_vars("A=2\0").err().as_deref(),
        Some("Environment variable line 1 has an invalid value.")
    );
}

#[test]
fn settings_are_read_back_from_their_text() {
    let mut env_vars = TextMap::new();
    env_vars.insert("LANG".to_owned(), "C = x".to_owned());
    env_vars.insert("EMPTY".to_owned(), "".to_owned());
    let settings = ReviewCommandSettings {
        env_vars,
        additional_args: vec!["--lang".to_owned(), "korean".to_owned()],
    };
    let text = format_review_env_vars(&settings);
    assert_eq!(text, "EMPTY=\nLANG=C = x");
    assert_eq!(parse_review_env_vars(&text).expect("env vars"), settings.env_vars);
    let text = format_review_additional_args(&settings);
    assert_eq!(text, "--lang korean");
    assert_eq!(parse_review_additional_args(&text), settings.additional_args);
    assert_eq!(format_review_env_vars(&ReviewCommandSettings::default()), "");
    assert_eq!(parse_review_env_vars("").expect("env vars").len(), 0);
    assert_eq!(parse_review_additional_args(" \t").len(), 0);
}

// Repositories ---------------------------------------------------------------

#[test]
fn repositories_are_known_by_owner_and_name_in_lower_case() {
    assert_eq!(canonical_repo_key(" Acme/Repo\n").as_deref(), Some("acme/repo"));
    assert_eq!(canonical_repo_key("ÄCME/É").as_deref(), Some("äcme/é"));
    for repo in ["", "acme", "acme/", "/repo", "a/b/c", "/", "https://github.com/acme/repo"] {
        assert_eq!(canonical_repo_key(repo), None, "{repo}");
    }
}

#[test]
fn a_key_is_its_own_key() {
    for repo in ["ACME/repo", "acme/REPO", "\t Acme/Repo \u{3000}", "acme/repo"] {
        let key = canonical_repo_key(repo).expect("key");
        assert_eq!(key, "acme/repo");
        assert_eq!(canonical_repo_key(&key).as_deref(), Some("acme/repo"));
    }
}

#[test]
fn saved_checkouts_are_kept_if_they_are_there() {
    let found = |path: &str, is_dir: bool, has_git: bool| CheckoutProbe::Resolved {
        path: path.to_owned(),
        is_dir,
        has_git,
    };
    let mut probes = TextMap::new();
    probes.insert("Acme/Repo".to_owned(), found("/a", true, true));
    probes.insert("acme/repo".to_owned(), found("/b", true, true));
    probes.insert("acme/file".to_owned(), found("/c", false, false));
    probes.insert("acme/plain".to_owned(), found("/d", true, false));
    probes.insert("acme/gone".to_owned(), CheckoutProbe::Unresolved("no such file".to_owned()));
    probes.insert("nonsense".to_owned(), found("/e", true, true));
    let (kept, dropped) = normalize_hydrated_repo_paths(&probes);
    assert_eq!(dropped, 4);
    assert_eq!(kept.len(), 1);
    // Lower case comes after upper case, so it wins.
    assert_eq!(kept.get("acme/repo"), Some(&"/b".to_owned()));
}
