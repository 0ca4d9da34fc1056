//! The review settings of an account, as text that a user edits.
use vstd::prelude::*;

use crate::decimal::{decimal, decimal_text};
use crate::domain::ReviewCommandSettings;
use crate::pattern::{split_once, text_split_once};
use crate::text::{
    chars_of, is_white_space, join, join_text, lines, lines_of, trim, trimmed, views, white_space,
    words, words_of,
};
use crate::text_map::{lemma_texts_insert, texts, walks, TextMap};
use vstd::string::StringExecFns;

verus! {

// ---------------------------------------------------------------------------
// Environment variables
// ---------------------------------------------------------------------------

/// The line for one environment variable.
pub open spec fn env_line(key: Seq<char>, value: Seq<char>) -> Seq<char> {
    key + "="@ + value
}

/// The lines for environment variables.
pub open spec fn env_lines(keys: Seq<Seq<char>>, vars: Map<Seq<char>, Seq<char>>) -> Seq<Seq<char>> {
    keys.map_values(|key: Seq<char>| env_line(key, vars[key]))
}

/// The environment variables as text, a line for each, in the order of their names.
pub fn format_review_env_vars(settings: &ReviewCommandSettings) -> (text: String)
    ensures
        walks(settings.env_vars.keys(), settings.env_vars@),
        text@ == join(env_lines(settings.env_vars.keys(), settings@.env_vars), "\n"@),
{
    let mut lines: Vec<String> = Vec::new();
    let count: usize = settings.env_vars.len();
    let ghost keys = settings.env_vars.keys();
    let ghost wanted = env_lines(keys, settings@.env_vars);
    let mut i: usize = 0;
    while i < count
        invariant
            i <= count,
            count == keys.len(),
            keys == settings.env_vars.keys(),
            wanted == env_lines(keys, settings@.env_vars),
            lines@.len() == i,
            forall|j: int| 0 <= j < i ==> (#[trigger] lines@[j])@ == wanted[j],
        decreases count - i,
    {
        let mut line: String = settings.env_vars.key_at(i).clone();
        line.append("=");
        line.append(settings.env_vars.value_at(i).as_str());
        lines.push(line);
        i = i + 1;
    }
    proof {
        assert(views(lines@) =~= wanted);
    }
    join_text(&lines, "\n")
}

/// What a line says of an environment variable.
pub enum EnvLine {
    /// Nothing.
    Blank,
    Entry { key: Seq<char>, value: Seq<char> },
    NotKeyValue,
    EmptyKey,
    InvalidKey,
    InvalidValue,
}

/// Whether `key` holds only what the name of an environment variable may hold.
pub open spec fn key_allowed(key: Seq<char>) -> bool {
    forall|i: int|
        0 <= i < key.len() ==> #[trigger] key[i] != '=' && key[i] != '\0' && !is_white_space(key[i])
}

/// What a line says of an environment variable: a name and a value around the first equals
/// sign, white space around either left out.
pub open spec fn read_env_line(raw: Seq<char>) -> EnvLine {
    let line = trim(raw);
    if line.len() == 0 {
        EnvLine::Blank
    } else {
        match split_once(line, "="@) {
            None => EnvLine::NotKeyValue,
            Some(parts) => {
                let key = trim(parts.0);
                let value = trim(parts.1);
                if key.len() == 0 {
                    EnvLine::EmptyKey
                } else if !key_allowed(key) {
                    EnvLine::InvalidKey
                } else if value.contains('\0') {
                    EnvLine::InvalidValue
                } else {
                    EnvLine::Entry { key, value }
                }
            },
        }
    }
}

/// What is said of line `number` if it is not as it should be.
pub open spec fn env_complaint(number: nat, line: EnvLine) -> Option<Seq<char>> {
    let lead = "Environment variable line "@ + decimal(number);
    match line {
        EnvLine::Blank => None,
        EnvLine::Entry { .. } => None,
        EnvLine::NotKeyValue => Some(lead + " must be in KEY=VALUE form."@),
        EnvLine::EmptyKey => Some(lead + " must include a non-empty key."@),
        EnvLine::InvalidKey => Some(lead + " has an invalid key."@),
        EnvLine::InvalidValue => Some(lead + " has an invalid value."@),
    }
}

/// The environment variables that lines set, a later one in place of an earlier one of the
/// same name, or what is said of the first line that is not as it should be.
pub open spec fn read_env_lines(lines: Seq<Seq<char>>) -> Result<
    Map<Seq<char>, Seq<char>>,
    Seq<char>,
>
    decreases lines.len(),
{
    if lines.len() == 0 {
        Ok(Map::empty())
    } else {
        match read_env_lines(lines.drop_last()) {
            Err(complaint) => Err(complaint),
            Ok(vars) => {
                let line = read_env_line(lines.last());
                match env_complaint(lines.len(), line) {
                    Some(complaint) => Err(complaint),
                    None => match line {
                        EnvLine::Entry { key, value } => Ok(vars.insert(key, value)),
                        _ => Ok(vars),
                    },
                }
            },
        }
    }
}

/// An early complaint stands whatever follows.
proof fn lemma_complaint_stands(lines: Seq<Seq<char>>, n: int)
    requires
        0 <= n <= lines.len(),
        read_env_lines(lines.take(n)) is Err,
    ensures
        read_env_lines(lines) == read_env_lines(lines.take(n)),
    decreases lines.len() - n,
{
    if n == lines.len() {
        assert(lines.take(n) =~= lines);
    } else {
        assert(lines.take(n + 1).drop_last() =~= lines.take(n));
        lemma_complaint_stands(lines, n + 1);
    }
}

fn line_complaint(number: usize, what: &str) -> (text: String)
    ensures
        text@ == "Environment variable line "@ + decimal(number as nat) + what@,
{
    let mut text: String = "Environment variable line ".to_owned();
    text.append(decimal_text(number as u64).as_str());
    text.append(what);
    text
}

fn is_key_allowed(key: &str) -> (allowed: bool)
    ensures
        allowed == key_allowed(key@),
{
    let chars: Vec<char> = chars_of(key);
    let mut i: usize = 0;
    while i < chars.len()
        invariant
            i <= chars@.len(),
            chars@ == key@,
            forall|j: int|
                0 <= j < i ==> #[trigger] key@[j] != '=' && key@[j] != '\0' && !is_white_space(
                    key@[j],
                ),
        decreases chars@.len() - i,
    {
        let c: char = chars[i];
        if c == '=' || c == '\0' || white_space(c) {
            proof {
                assert(key@[i as int] == c);
            }
            return false;
        }
        i = i + 1;
    }
    true
}

fn holds_nul(text: &str) -> (found: bool)
    ensures
        found == text@.contains('\0'),
{
    let chars: Vec<char> = chars_of(text);
    let mut i: usize = 0;
    while i < chars.len()
        invariant
            i <= chars@.len(),
            chars@ == text@,
            forall|j: int| 0 <= j < i ==> text@[j] != '\0',
        decreases chars@.len() - i,
    {
        if chars[i] == '\0' {
            proof {
                assert(text@[i as int] == '\0');
            }
            return true;
        }
        i = i + 1;
    }
    false
}

/// The name and the value that a line sets, if it sets any, or what is said of it.
fn parse_env_line(number: usize, raw: &str) -> (entry: Result<Option<(String, String)>, String>)
    ensures
        match entry {
            Ok(None) => read_env_line(raw@) is Blank,
            Ok(Some(pair)) => read_env_line(raw@) == (EnvLine::Entry {
                key: pair.0@,
                value: pair.1@,
            }),
            Err(complaint) => env_complaint(number as nat, read_env_line(raw@)) == Some(complaint@),
        },
{
    let line: String = trimmed(raw);
    if line.as_str().is_empty() {
        return Ok(None);
    }
    match text_split_once(line.as_str(), "=") {
        None => Err(line_complaint(number, " must be in KEY=VALUE form.")),
        Some(parts) => {
            let key: String = trimmed(parts.0.as_str());
            let value: String = trimmed(parts.1.as_str());
            if key.as_str().is_empty() {
                return Err(line_complaint(number, " must include a non-empty key."));
            }
            if !is_key_allowed(key.as_str()) {
                return Err(line_complaint(number, " has an invalid key."));
            }
            if holds_nul(value.as_str()) {
                return Err(line_complaint(number, " has an invalid value."));
            }
            Ok(Some((key, value)))
        },
    }
}

/// The environment variables that a text sets, or what is said of its first line that is
/// not as it should be.
pub fn parse_review_env_vars(text: &str) -> (vars: Result<TextMap<String>, String>)
    ensures
        match vars {
            Ok(map) => read_env_lines(lines(text@)) == Ok::<Map<Seq<char>, Seq<char>>, Seq<char>>(
                texts(map@),
            ),
            Err(complaint) => read_env_lines(lines(text@)) == Err::<
                Map<Seq<char>, Seq<char>>,
                Seq<char>,
            >(complaint@),
        },
{
    let found: Vec<String> = lines_of(text);
    let ghost all = lines(text@);
    let mut env_vars: TextMap<String> = TextMap::new();
    let mut i: usize = 0;
    proof {
        assert(all.take(0) =~= Seq::<Seq<char>>::empty());
        assert(texts(env_vars@) =~= Map::<Seq<char>, Seq<char>>::empty());
    }
    while i < found.len()
        invariant
            i <= found@.len(),
            all == lines(text@),
            all == views(found@),
            read_env_lines(all.take(i as int)) == Ok::<Map<Seq<char>, Seq<char>>, Seq<char>>(
                texts(env_vars@),
            ),
        decreases found@.len() - i,
    {
        proof {
            assert(all.take(i + 1).drop_last() =~= all.take(i as int));
            assert(all.take(i + 1).last() == found@[i as int]@);
        }
        match parse_env_line(i + 1, found[i].as_str()) {
            Ok(None) => {},
            Ok(Some(pair)) => {
                proof {
                    lemma_texts_insert(env_vars@, pair.0@, pair.1);
                }
                env_vars.insert(pair.0, pair.1);
            },
            Err(complaint) => {
                proof {
                    lemma_complaint_stands(all, i + 1);
                }
                return Err(complaint);
            },
        }
        i = i + 1;
    }
    proof {
        assert(all.take(i as int) =~= all);
    }
    Ok(env_vars)
}

// ---------------------------------------------------------------------------
// Arguments
// ---------------------------------------------------------------------------

/// The additional arguments as text, with spaces between them.
pub fn format_review_additional_args(settings: &ReviewCommandSettings) -> (text: String)
    ensures
        text@ == join(settings@.additional_args, " "@),
{
    join_text(&settings.additional_args, " ")
}

/// The additional arguments that a text spells: its words.
pub fn parse_review_additional_args(text: &str) -> (args: Vec<String>)
    ensures
        views(args@) == words(text@),
{
    words_of(text)
}

} // verus!
