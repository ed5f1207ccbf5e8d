//! The regular-expression engine, as far as file-name patterns need it.
//!
//! Nothing in this file is proved. Each item says what the `regex` crate
//! does, and the rest of the library is proved on the strength of it.

use vstd::prelude::*;

verus! {

/// `regex::Regex`, a compiled expression. Its contents are not looked into.
#[verifier::external_type_specification]
#[verifier::external_body]
pub struct ExRegex(regex::Regex);

/// `regex::Error`, the reason why an expression was not compiled.
#[verifier::external_type_specification]
#[verifier::external_body]
pub struct ExRegexError(regex::Error);

/// The characters that have a meaning of their own in an expression.
pub open spec fn is_meta_character(c: char) -> bool {
    ||| c == '\\'
    ||| c == '.'
    ||| c == '+'
    ||| c == '*'
    ||| c == '?'
    ||| c == '('
    ||| c == ')'
    ||| c == '|'
    ||| c == '['
    ||| c == ']'
    ||| c == '{'
    ||| c == '}'
    ||| c == '^'
    ||| c == '$'
    ||| c == '#'
    ||| c == '&'
    ||| c == '-'
    ||| c == '~'
}

/// `text` with a backslash put before each of its meta characters.
pub open spec fn escaped(text: Seq<char>) -> Seq<char>
    decreases text.len(),
{
    if text.len() == 0 {
        Seq::empty()
    } else if is_meta_character(text.last()) {
        escaped(text.drop_last()).push('\\').push(text.last())
    } else {
        escaped(text.drop_last()).push(text.last())
    }
}

/// `regex::escape` copies its argument character by character and puts a
/// backslash before each meta character.
pub assume_specification[ regex::escape ](pattern: &str) -> (quoted: String)
    ensures
        quoted@ == escaped(pattern@),
;

/// The expression that `Regex::new` compiled `regex` from. A regex that was
/// made in another way, by a builder with options of its own, has none.
pub uninterp spec fn regex_pattern(regex: regex::Regex) -> Option<Seq<char>>;

/// What a regex compiled by `Regex::new` from `pattern` captures at its
/// leftmost match in `haystack`: nothing where it does not match, else the
/// text of each group from group 0 on, a group that took no part in the match
/// having none.
pub uninterp spec fn pattern_captures(pattern: Seq<char>, haystack: Seq<char>) -> Option<
    Seq<Option<Seq<char>>>,
>;

/// `Regex::new` compiles the expression it is given, or rejects it. Which
/// expressions it rejects is not stated: besides those that are not well
/// formed, it rejects those whose compiled form is over a size limit, and it
/// measures that size in units of the machine it runs on.
pub assume_specification[ regex::Regex::new ](re: &str) -> (compiled: Result<
    regex::Regex,
    regex::Error,
>)
    ensures
        compiled matches Ok(regex) ==> regex_pattern(regex) == Some(re@),
;

/// `Regex::as_str` gives back the expression that the regex was compiled from.
pub assume_specification<'a>[ regex::Regex::as_str ](regex: &'a regex::Regex) -> (source: &'a str)
    ensures
        regex_pattern(*regex) matches Some(pattern) ==> source@ == pattern,
;

/// `Regex::captures` searches `haystack` for the leftmost match; the groups
/// of that match are handed out as owned strings, in the order of
/// `Captures::iter`.
#[verifier::external_body]
pub(crate) fn captures(regex: &regex::Regex, haystack: &str) -> (groups: Option<
    Vec<Option<String>>,
>)
    ensures
        regex_pattern(*regex) matches Some(pattern) ==> groups.deep_view() == pattern_captures(
            pattern,
            haystack@,
        ),
{
    regex.captures(haystack).map(
        |found| found.iter().map(|group| group.map(|part| part.as_str().to_string())).collect(),
    )
}

} // verus!
