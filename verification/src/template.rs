//! The language placeholder and the place it takes in a template.
//!
//! A template such as `app/foo_<lang>.ts` names one translated file per
//! language: the placeholder `<lang>` stands where the language code goes.
//! A template is usable only if the placeholder stands in it exactly once.

use vstd::prelude::*;
use vstd::string::StrSliceExecFns;

verus! {

/// The characters of the language placeholder, `<lang>`.
pub open spec fn placeholder() -> Seq<char> {
    seq!['<', 'l', 'a', 'n', 'g', '>']
}

/// The placeholder stands in `text` at position `at`.
pub open spec fn occurs_at(text: Seq<char>, at: int) -> bool {
    &&& 0 <= at
    &&& at + 6 <= text.len()
    &&& text.subrange(at, at + 6) == placeholder()
}

/// The placeholder stands in `text` at position `at` and nowhere else.
pub open spec fn sole_occurrence(text: Seq<char>, at: int) -> bool {
    &&& occurs_at(text, at)
    &&& forall|other: int| occurs_at(text, other) ==> other == at
}

/// The placeholder stands in `text` exactly once.
pub open spec fn has_single_placeholder(text: Seq<char>) -> bool {
    exists|at: int| sole_occurrence(text, at)
}

/// Where the placeholder stands in a text that holds it exactly once.
pub open spec fn placeholder_position(text: Seq<char>) -> int {
    choose|at: int| sole_occurrence(text, at)
}

/// What stands before the placeholder in a text that holds it exactly once.
pub open spec fn prefix_of(text: Seq<char>) -> Seq<char> {
    text.take(placeholder_position(text))
}

/// What stands after the placeholder in a text that holds it exactly once.
pub open spec fn suffix_of(text: Seq<char>) -> Seq<char> {
    text.skip(placeholder_position(text) + 6)
}

/// A text with a single placeholder is its prefix, the placeholder and its
/// suffix, in this order.
pub proof fn lemma_template_parts(text: Seq<char>)
    requires
        has_single_placeholder(text),
    ensures
        sole_occurrence(text, placeholder_position(text)),
        text == prefix_of(text) + placeholder() + suffix_of(text),
{
    let at = placeholder_position(text);
    assert(text =~= text.take(at) + text.subrange(at, at + 6) + text.skip(at + 6));
}

/// Two occurrences of the placeholder never overlap: after one of them the
/// next six positions hold none.
pub proof fn lemma_occurrences_apart(text: Seq<char>, first: int, second: int)
    requires
        occurs_at(text, first),
        occurs_at(text, second),
        first < second,
    ensures
        first + 6 <= second,
{
    if second < first + 6 {
        // The second occurrence would begin with `<` inside the first one,
        // where only `l`, `a`, `n`, `g` and `>` stand.
        assert(text.subrange(second, second + 6)[0] == text.subrange(first, first + 6)[second
            - first]);
    }
}

/// The characters of `text`, in order.
pub fn chars_of(text: &str) -> (chars: Vec<char>)
    ensures
        chars@ == text@,
{
    let mut chars: Vec<char> = Vec::new();
    for c in it: text.chars()
        invariant
            chars@ == it.seq().take(it.index() as int),
            it.seq() == text@,
    {
        chars.push(c);
    }
    chars
}

/// Tells whether the placeholder stands at position `at` of `chars`.
pub fn placeholder_at(chars: &Vec<char>, at: usize) -> (found: bool)
    ensures
        found == occurs_at(chars@, at as int),
{
    if chars.len() < 6 || at > chars.len() - 6 {
        return false;
    }
    let found = chars[at] == '<' && chars[at + 1] == 'l' && chars[at + 2] == 'a' && chars[at + 3]
        == 'n' && chars[at + 4] == 'g' && chars[at + 5] == '>';
    proof {
        let part = chars@.subrange(at as int, at + 6);
        if found {
            assert(part =~= placeholder());
        } else {
            // One of the six characters differs from the placeholder's.
            assert(part[0] != '<' || part[1] != 'l' || part[2] != 'a' || part[3] != 'n' || part[4]
                != 'g' || part[5] != '>');
        }
    }
    found
}

/// Finds the placeholder in `chars`: its position if it stands there exactly
/// once, nothing if it is missing or repeated.
pub fn find_placeholder(chars: &Vec<char>) -> (found: Option<usize>)
    ensures
        match found {
            Some(at) => sole_occurrence(chars@, at as int),
            None => !has_single_placeholder(chars@),
        },
{
    let mut first: Option<usize> = None;
    let mut at: usize = 0;
    while at < chars.len()
        invariant
            at <= chars.len(),
            match first {
                Some(seen) => {
                    &&& seen < at
                    &&& occurs_at(chars@, seen as int)
                    &&& forall|other: int|
                        0 <= other < at && other != seen ==> !occurs_at(chars@, other)
                },
                None => forall|other: int| 0 <= other < at ==> !occurs_at(chars@, other),
            },
        decreases chars.len() - at,
    {
        if placeholder_at(chars, at) {
            if first.is_some() {
                return None;
            }
            first = Some(at);
            proof {
                assert forall|other: int| at < other < at + 6 implies !occurs_at(
                    chars@,
                    other,
                ) by {
                    if occurs_at(chars@, other) {
                        lemma_occurrences_apart(chars@, at as int, other);
                    }
                }
            }
            at += 6;
        } else {
            at += 1;
        }
    }
    first
}

/// Splits `template` at its placeholder into what stands before and what
/// stands after it. A template without the placeholder, or with more than
/// one, has no such parts.
pub fn split_template(template: &str) -> (parts: Option<(String, String)>)
    ensures
        match parts {
            Some((prefix, suffix)) => {
                &&& has_single_placeholder(template@)
                &&& prefix@ == prefix_of(template@)
                &&& suffix@ == suffix_of(template@)
                &&& prefix@ + placeholder() + suffix@ == template@
            },
            None => !has_single_placeholder(template@),
        },
{
    let chars = chars_of(template);
    match find_placeholder(&chars) {
        Some(at) => {
            proof {
                lemma_template_parts(template@);
            }
            let end = chars.len();
            let prefix = template.substring_char(0, at);
            let suffix = template.substring_char(at + 6, end);
            Some((prefix.to_owned(), suffix.to_owned()))
        },
        None => None,
    }
}

} // verus!
