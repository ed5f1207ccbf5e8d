//! The two parts of a target pattern: the directory in which the translated
//! files are kept, and the template for their names.
//!
//! A target pattern is written as `transifex.yaml` writes paths, its
//! components parted by `/`, and is meant relative to the project root, a
//! directory with a path of its own. It is read as a path is read: a `/` or
//! a component `.` at its end is passed over, so that `po/<lang>.po/` has
//! the file name `<lang>.po`, and a pattern that ends in `..` has no file
//! name.

use vstd::prelude::*;
use vstd::string::StrSliceExecFns;
use crate::template::chars_of;

verus! {

/// `path` ends with a `.` that is a component of its own.
pub open spec fn ends_with_dot(path: Seq<char>) -> bool {
    &&& path.len() > 0
    &&& path.last() == '.'
    &&& path.len() > 1 ==> path[path.len() - 2] == '/'
}

/// `path` ends with something that is passed over: a `/`, or a component
/// `.`.
pub open spec fn ends_with_skipped(path: Seq<char>) -> bool {
    path.len() > 0 && (path.last() == '/' || ends_with_dot(path))
}

/// `path` without the `/` and the components `.` at its end.
pub open spec fn trimmed(path: Seq<char>) -> Seq<char>
    decreases path.len(),
{
    if ends_with_skipped(path) {
        trimmed(path.drop_last())
    } else {
        path
    }
}

/// `path` begins at the root directory.
pub open spec fn is_absolute(path: Seq<char>) -> bool {
    path.len() > 0 && path[0] == '/'
}

/// The last component of `path` begins at `start`: right after the last
/// `/`, or at the very beginning where the path holds none.
pub open spec fn is_file_name_start(path: Seq<char>, start: int) -> bool {
    &&& 0 <= start <= path.len()
    &&& start > 0 ==> path[start - 1] == '/'
    &&& forall|at: int| start <= at < path.len() ==> path[at] != '/'
}

/// Where the last component of `path` begins.
pub open spec fn file_name_start(path: Seq<char>) -> int {
    choose|start: int| is_file_name_start(path, start)
}

/// The last component of `path`, what is passed over at its end left aside.
/// It is empty where the path has no component but `.`.
pub open spec fn last_component(path: Seq<char>) -> Seq<char> {
    trimmed(path).skip(file_name_start(trimmed(path)))
}

/// The component that stands for the directory above.
pub open spec fn parent_component() -> Seq<char> {
    seq!['.', '.']
}

/// The file name of `path`: its last component. There is none where the
/// last component is `..`, nor where the path is the root directory. A
/// relative path without a component of its own, such as the empty one,
/// stands for the project root, whose name is not known here: its file
/// name is taken to be empty.
pub open spec fn file_name_of(path: Seq<char>) -> Option<Seq<char>> {
    let last = last_component(path);
    if last == parent_component() || (last.len() == 0 && is_absolute(path)) {
        None
    } else {
        Some(last)
    }
}

/// The directory part of `path`: what stands before its last component,
/// without the `/` and the components `.` at its end. It is `/` where
/// nothing but the root directory stands there, and empty where the last
/// component stands alone.
pub open spec fn directory_of(path: Seq<char>) -> Seq<char> {
    let kept = trimmed(path);
    let before = trimmed(kept.take(file_name_start(kept)));
    if before.len() == 0 && is_absolute(path) {
        seq!['/']
    } else {
        before
    }
}

/// No path has two places where its last component begins.
pub proof fn lemma_file_name_start_unique(path: Seq<char>, start: int)
    requires
        is_file_name_start(path, start),
    ensures
        file_name_start(path) == start,
{
    // Of two such places the later would follow a `/` that stands at or
    // after the earlier, where the last component holds none.
    let chosen = file_name_start(path);
    assert(is_file_name_start(path, chosen));
}

/// Every path has a place where its last component begins.
pub proof fn lemma_file_name_start_exists(path: Seq<char>)
    ensures
        is_file_name_start(path, file_name_start(path)),
    decreases path.len(),
{
    if path.len() == 0 {
        assert(is_file_name_start(path, 0));
    } else if path.last() == '/' {
        assert(is_file_name_start(path, path.len() as int));
    } else {
        let shorter = path.drop_last();
        lemma_file_name_start_exists(shorter);
        let start = file_name_start(shorter);
        assert forall|at: int| start <= at < path.len() implies path[at] != '/' by {
            if at < shorter.len() {
                assert(path[at] == shorter[at]);
            }
        }
        assert(is_file_name_start(path, start));
    }
}

/// What is left of a path after trimming is the beginning of the path, and
/// ends with nothing that is passed over.
pub proof fn lemma_trimmed(path: Seq<char>)
    ensures
        trimmed(path).len() <= path.len(),
        trimmed(path) == path.take(trimmed(path).len() as int),
        !ends_with_skipped(trimmed(path)),
    decreases path.len(),
{
    if ends_with_skipped(path) {
        lemma_trimmed(path.drop_last());
        assert(trimmed(path) =~= path.take(trimmed(path).len() as int));
    } else {
        assert(path =~= path.take(path.len() as int));
    }
}

/// A `/` at the end of a path changes neither its file name nor its
/// directory part.
pub proof fn lemma_final_slash_passed_over(path: Seq<char>)
    requires
        path.len() > 0,
    ensures
        file_name_of(path.push('/')) == file_name_of(path),
        directory_of(path.push('/')) == directory_of(path),
{
    assert(path.push('/').drop_last() =~= path);
}

/// A component `.` at the end of a path changes neither its file name nor
/// its directory part.
pub proof fn lemma_final_dot_passed_over(path: Seq<char>)
    requires
        path.len() > 0,
    ensures
        file_name_of(path.push('/').push('.')) == file_name_of(path),
        directory_of(path.push('/').push('.')) == directory_of(path),
{
    let longer = path.push('/').push('.');
    assert(longer.drop_last() =~= path.push('/'));
    assert(ends_with_dot(longer));
    lemma_final_slash_passed_over(path);
}

/// A file name holds no `/` and is neither `.` nor `..`.
pub proof fn lemma_file_name_is_one_component(path: Seq<char>)
    ensures
        file_name_of(path) matches Some(name) ==> {
            &&& !name.contains('/')
            &&& name != seq!['.']
            &&& name != parent_component()
        },
{
    let kept = trimmed(path);
    lemma_trimmed(path);
    lemma_file_name_start_exists(kept);
    let start = file_name_start(kept);
    let last = kept.skip(start);
    if last == seq!['.'] {
        // The path would end with a component `.`, which trimming leaves
        // at the end of no path.
        assert(last.len() == 1);
        assert(kept.len() == start + 1);
        assert(kept.last() == last[0]);
        assert(ends_with_dot(kept));
    }
}

/// Tells whether the first `end` characters of `chars` end with something
/// that is passed over.
pub fn skipped_before(chars: &Vec<char>, end: usize) -> (skipped: bool)
    ensures
        skipped == (end <= chars.len() && ends_with_skipped(chars@.take(end as int))),
{
    if end == 0 || end > chars.len() {
        return false;
    }
    let last = chars[end - 1];
    last == '/' || (last == '.' && (end == 1 || chars[end - 2] == '/'))
}

/// Finds where `chars` ends once what is passed over at its end is left
/// aside.
pub fn find_trimmed_end(chars: &Vec<char>) -> (end: usize)
    ensures
        end <= chars.len(),
        chars@.take(end as int) == trimmed(chars@),
{
    let mut end = chars.len();
    assert(chars@.take(end as int) =~= chars@);
    while skipped_before(chars, end)
        invariant
            end <= chars.len(),
            trimmed(chars@.take(end as int)) == trimmed(chars@),
        decreases end,
    {
        assert(chars@.take(end as int).drop_last() =~= chars@.take(end - 1));
        end -= 1;
    }
    end
}

/// Leaves aside what is passed over at the end of `path`.
pub fn trim_path(path: &str) -> (kept: String)
    ensures
        kept@ == trimmed(path@),
{
    let chars = chars_of(path);
    let end = find_trimmed_end(&chars);
    path.substring_char(0, end).to_owned()
}

/// Finds where the last component begins in `chars`.
pub fn find_file_name_start(chars: &Vec<char>) -> (start: usize)
    ensures
        start == file_name_start(chars@),
        start <= chars.len(),
{
    let mut start = chars.len();
    while start > 0 && chars[start - 1] != '/'
        invariant
            start <= chars.len(),
            forall|at: int| start <= at < chars.len() ==> chars@[at] != '/',
        decreases start,
    {
        start -= 1;
    }
    proof {
        lemma_file_name_start_unique(chars@, start as int);
    }
    start
}

/// Splits `path` into its directory part and its file name.
pub fn split_path(path: &str) -> (parts: (String, Option<String>))
    ensures
        parts.0@ == directory_of(path@),
        parts.1.deep_view() == file_name_of(path@),
{
    let whole = chars_of(path);
    let absolute = whole.len() > 0 && whole[0] == '/';
    let kept = trim_path(path);
    let chars = chars_of(kept.as_str());
    let end = chars.len();
    let start = find_file_name_start(&chars);
    let last = kept.as_str().substring_char(start, end);
    let before = trim_path(kept.as_str().substring_char(0, start));
    let above = end - start == 2 && chars[start] == '.' && chars[start + 1] == '.';
    proof {
        reveal_strlit("/");
        assert("/"@ =~= seq!['/']);
        if above {
            assert(last@ =~= parent_component());
        } else if last@ == parent_component() {
            assert(last@.len() == 2);
            assert(last@[0] == chars@[start as int]);
            assert(last@[1] == chars@[start + 1]);
        }
    }
    let directory = if before.as_str().is_empty() && absolute {
        "/".to_owned()
    } else {
        before
    };
    let file_name = if above || (start == end && absolute) {
        None
    } else {
        Some(last.to_owned())
    };
    (directory, file_name)
}

} // verus!
