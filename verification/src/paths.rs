//! Slash-separated paths as they are written for a container.

use crate::text::{chars_of, has_prefix, same_text, starts_with, views};
use vstd::prelude::*;
use vstd::string::*;

verus! {

/// The parts of a text between the occurrences of a separator: one more part
/// than there are separators.
pub open spec fn split(text: Seq<char>, separator: char) -> Seq<Seq<char>>
    decreases text.len(),
{
    if text.len() == 0 {
        seq![text]
    } else {
        let rest = split(text.drop_last(), separator);
        if text.last() == separator {
            rest.push(Seq::empty())
        } else {
            rest.update(rest.len() - 1, rest.last().push(text.last()))
        }
    }
}

/// Splitting yields at least one part.
pub(crate) proof fn split_is_not_empty(text: Seq<char>, separator: char)
    ensures
        split(text, separator).len() > 0,
    decreases text.len(),
{
    if text.len() > 0 {
        split_is_not_empty(text.drop_last(), separator);
    }
}

/// The parts of a text between the occurrences of a separator.
pub fn split_text(text: &str, separator: char) -> (res: Vec<String>)
    ensures
        views(res@) == split(text@, separator),
{
    let chars = chars_of(text);
    let mut parts: Vec<String> = Vec::new();
    let mut part = String::new();
    let mut i: usize = 0;
    assert(text@.take(0) =~= Seq::empty());
    assert(views(parts@).push(part@) =~= split(text@.take(0), separator));
    while i < chars.len()
        invariant
            chars@ == text@,
            i <= chars@.len(),
            views(parts@).push(part@) == split(text@.take(i as int), separator),
        decreases chars@.len() - i,
    {
        let ghost before = views(parts@).push(part@);
        assert(text@.take(i as int + 1).drop_last() =~= text@.take(i as int));
        if chars[i] == separator {
            parts.push(part);
            part = String::new();
            assert(views(parts@).push(part@) =~= before.push(Seq::empty()));
        } else {
            part.push(chars[i]);
            assert(views(parts@).push(part@) =~= before.update(
                before.len() - 1,
                before.last().push(text@[i as int]),
            ));
        }
        i = i + 1;
    }
    assert(text@.take(text@.len() as int) =~= text@);
    parts.push(part);
    assert(views(parts@) =~= split(text@, separator));
    parts
}

/// Whether a part of a path names no step of its own.
pub open spec fn is_idle_segment(segment: Seq<char>) -> bool {
    segment == ""@ || segment == "."@
}

fn segment_is_idle(segment: &str) -> (res: bool)
    ensures
        res == is_idle_segment(segment@),
{
    same_text(segment, "") || same_text(segment, ".")
}

/// The steps from the root that are left after `..` was applied to what
/// stands before it.
pub open spec fn resolved_steps(segments: Seq<Seq<char>>) -> Seq<Seq<char>>
    decreases segments.len(),
{
    if segments.len() == 0 {
        Seq::empty()
    } else {
        let before = resolved_steps(segments.drop_last());
        if is_idle_segment(segments.last()) {
            before
        } else if segments.last() == ".."@ {
            if before.len() > 0 {
                before.drop_last()
            } else {
                before
            }
        } else {
            before.push(segments.last())
        }
    }
}

/// Each step written behind a slash.
pub open spec fn joined_steps(steps: Seq<Seq<char>>) -> Seq<char>
    decreases steps.len(),
{
    if steps.len() == 0 {
        Seq::empty()
    } else {
        joined_steps(steps.drop_last()) + "/"@ + steps.last()
    }
}

/// An absolute container path in its shortest form: no empty part, no `.`, no
/// `..`, and no slash at the end but that of the root.
pub open spec fn normalized_path(path: Seq<char>) -> Seq<char> {
    let steps = resolved_steps(split(path, '/'));
    if steps.len() == 0 {
        "/"@
    } else {
        joined_steps(steps)
    }
}

/// An absolute container path in its shortest form: no empty part, no `.`, no
/// `..`, and no slash at the end but that of the root.
pub fn normalize_container_path(path: &str) -> (res: String)
    ensures
        res@ == normalized_path(path@),
{
    let segments = split_text(path, '/');
    let mut steps: Vec<String> = Vec::new();
    let mut i: usize = 0;
    assert(views(segments@).take(0) =~= Seq::empty());
    assert(views(steps@) =~= resolved_steps(views(segments@).take(0)));
    while i < segments.len()
        invariant
            i <= segments@.len(),
            views(segments@) == split(path@, '/'),
            views(steps@) == resolved_steps(views(segments@).take(i as int)),
        decreases segments@.len() - i,
    {
        let ghost before = views(steps@);
        assert(views(segments@).take(i as int + 1).drop_last() =~= views(segments@).take(i as int));
        if segment_is_idle(segments[i].as_str()) {
        } else if same_text(segments[i].as_str(), "..") {
            if steps.len() > 0 {
                let _ = steps.pop();
                assert(views(steps@) =~= before.drop_last());
            }
        } else {
            steps.push(segments[i].clone());
            assert(views(steps@) =~= before.push(segments@[i as int]@));
        }
        i = i + 1;
    }
    assert(views(segments@).take(segments@.len() as int) =~= views(segments@));
    if steps.len() == 0 {
        return "/".to_owned();
    }
    let mut text = String::new();
    let mut k: usize = 0;
    assert(views(steps@).take(0) =~= Seq::empty());
    assert(text@ =~= joined_steps(views(steps@).take(0)));
    while k < steps.len()
        invariant
            k <= steps@.len(),
            text@ == joined_steps(views(steps@).take(k as int)),
        decreases steps@.len() - k,
    {
        assert(views(steps@).take(k as int + 1).drop_last() =~= views(steps@).take(k as int));
        text.append("/");
        text.append(steps[k].as_str());
        k = k + 1;
    }
    assert(views(steps@).take(steps@.len() as int) =~= views(steps@));
    text
}

/// The last part of a path that names a step, if there is one and it is not
/// `..`.
pub open spec fn last_step(segments: Seq<Seq<char>>) -> Option<Seq<char>>
    decreases segments.len(),
{
    if segments.len() == 0 {
        None
    } else if is_idle_segment(segments.last()) {
        last_step(segments.drop_last())
    } else if segments.last() == ".."@ {
        None
    } else {
        Some(segments.last())
    }
}

/// The name of what a path leads to, if its last step is a name.
pub fn file_name(path: &str) -> (res: Option<String>)
    ensures
        match res {
            Some(name) => last_step(split(path@, '/')) == Some(name@),
            None => last_step(split(path@, '/')) is None,
        },
{
    let segments = split_text(path, '/');
    let mut i: usize = segments.len();
    assert(views(segments@).take(i as int) =~= views(segments@));
    while i > 0
        invariant
            i <= segments@.len(),
            views(segments@) == split(path@, '/'),
            last_step(split(path@, '/')) == last_step(views(segments@).take(i as int)),
        decreases i,
    {
        assert(views(segments@).take(i as int).drop_last() =~= views(segments@).take(i - 1));
        if !segment_is_idle(segments[i - 1].as_str()) {
            if same_text(segments[i - 1].as_str(), "..") {
                return None;
            }
            return Some(segments[i - 1].clone());
        }
        i = i - 1;
    }
    None
}

/// Whether a path leads to something below a directory: it names a step, or
/// is relative.
pub open spec fn has_parent(path: Seq<char>) -> bool {
    if has_prefix(path, "/"@) {
        exists|i: int|
            0 <= i < split(path, '/').len() && !is_idle_segment(#[trigger] split(path, '/')[i])
    } else {
        path.len() > 0
    }
}

/// Whether a path leads to something below a directory: it names a step, or
/// is relative.
pub fn path_has_parent(path: &str) -> (res: bool)
    ensures
        res == has_parent(path@),
{
    if !starts_with(path, "/") {
        return !path.is_empty();
    }
    let segments = split_text(path, '/');
    let mut i: usize = 0;
    while i < segments.len()
        invariant
            i <= segments@.len(),
            has_prefix(path@, "/"@),
            views(segments@) == split(path@, '/'),
            forall|j: int| 0 <= j < i ==> is_idle_segment(#[trigger] split(path@, '/')[j]),
        decreases segments@.len() - i,
    {
        assert(views(segments@)[i as int] == segments@[i as int]@);
        if !segment_is_idle(segments[i].as_str()) {
            assert(!is_idle_segment(split(path@, '/')[i as int]));
            return true;
        }
        i = i + 1;
    }
    assert(segments@.len() == split(path@, '/').len()) by {
        assert(views(segments@).len() == segments@.len());
    }
    false
}

} // verus!
