//! Texts and container paths.

use crate::paths::{
    is_idle_segment, joined_steps, last_step, normalized_path, resolved_steps, split,
};
use crate::text::{
    decimal, is_white_space, parted, signed_decimal, trimmed, trimmed_end, trimmed_non_empty,
    trimmed_start, without_leading,
};
use vstd::prelude::*;

verus! {

proof fn start_is_cut(text: Seq<char>) -> (count: int)
    ensures
        0 <= count <= text.len(),
        trimmed_start(text) == text.skip(count),
        forall|i: int| 0 <= i < count ==> is_white_space(#[trigger] text[i]),
        count < text.len() ==> !is_white_space(text[count]),
    decreases text.len(),
{
    if text.len() > 0 && is_white_space(text[0]) {
        let rest = text.drop_first();
        let count = start_is_cut(rest);
        assert(rest.skip(count) =~= text.skip(count + 1));
        assert forall|i: int| 0 <= i < count + 1 implies is_white_space(#[trigger] text[i]) by {
            if i > 0 {
                assert(rest[i - 1] == text[i]);
            }
        }
        count + 1
    } else {
        assert(text.skip(0) =~= text);
        0
    }
}

proof fn end_is_cut(text: Seq<char>) -> (count: int)
    ensures
        0 <= count <= text.len(),
        trimmed_end(text) == text.take(count),
        forall|i: int| count <= i < text.len() ==> is_white_space(#[trigger] text[i]),
        count > 0 ==> !is_white_space(text[count - 1]),
    decreases text.len(),
{
    if text.len() > 0 && is_white_space(text.last()) {
        let rest = text.drop_last();
        let count = end_is_cut(rest);
        assert(rest.take(count) =~= text.take(count));
        assert forall|i: int| count <= i < text.len() implies is_white_space(#[trigger] text[i]) by {
            if i < rest.len() {
                assert(rest[i] == text[i]);
            }
        }
        count
    } else {
        assert(text.take(text.len() as int) =~= text);
        text.len() as int
    }
}

/// Trimming takes white space off both ends of a text and nothing else: what is
/// left begins and ends with something that is no white space, and what was
/// taken off is white space. Nothing is left exactly where all is white space.
pub proof fn trimming_takes_white_space_alone(text: Seq<char>)
    ensures
        exists|from: int, to: int|
            {
                &&& 0 <= from <= to <= text.len()
                &&& trimmed(text) == #[trigger] text.subrange(from, to)
                &&& forall|i: int| 0 <= i < from ==> is_white_space(#[trigger] text[i])
                &&& forall|i: int| to <= i < text.len() ==> is_white_space(#[trigger] text[i])
                &&& from < to ==> !is_white_space(text[from]) && !is_white_space(text[to - 1])
            },
        trimmed_non_empty(text) is None <==> forall|i: int|
            0 <= i < text.len() ==> is_white_space(#[trigger] text[i]),
        trimmed_non_empty(text) is Some ==> trimmed_non_empty(text)->0 == trimmed(text),
{
    let from = start_is_cut(text);
    let rest = text.skip(from);
    let count = end_is_cut(rest);
    let to = from + count;
    assert(rest.take(count) =~= text.subrange(from, to));
    assert forall|i: int| to <= i < text.len() implies is_white_space(#[trigger] text[i]) by {
        assert(rest[i - from] == text[i]);
    }
    if count > 0 {
        assert(rest[count - 1] == text[to - 1]);
        assert(rest[0] == text[from]);
    }
    assert(trimmed(text) == text.subrange(from, to));
}

/// A text is parted at the first occurrence of a character: what stands before
/// it, it, and what stands behind it make up the text, and it does not occur
/// before. A text in which it does not occur is not parted.
pub proof fn texts_are_parted_at_the_first_occurrence(text: Seq<char>, separator: char)
    ensures
        parted(text, separator) is None <==> !text.contains(separator),
        parted(text, separator) is Some ==> {
            let (before, behind) = parted(text, separator)->0;
            text == before + seq![separator] + behind && !before.contains(separator)
        },
    decreases text.len(),
{
    if text.len() > 0 {
        if text[0] == separator {
            assert(text =~= Seq::empty() + seq![separator] + text.drop_first());
            assert(text.contains(text[0]));
        } else {
            let rest = text.drop_first();
            texts_are_parted_at_the_first_occurrence(rest, separator);
            match parted(rest, separator) {
                Some((before, behind)) => {
                    let all = seq![text[0]] + before;
                    let joined = before + seq![separator] + behind;
                    assert(rest == joined);
                    assert(text =~= seq![text[0]] + rest);
                    assert(seq![text[0]] + joined =~= all + seq![separator] + behind);
                    assert(text[all.len() as int] == separator);
                    assert forall|i: int| 0 <= i < all.len() implies all[i] != separator by {
                        if i > 0 {
                            assert(before[i - 1] == all[i]);
                            if before[i - 1] == separator {
                                assert(before.contains(separator));
                            }
                        }
                    }
                },
                None => {
                    assert forall|i: int| 0 <= i < text.len() implies text[i] != separator by {
                        if i > 0 {
                            assert(rest[i - 1] == text[i]);
                            if rest[i - 1] == separator {
                                assert(rest.contains(separator));
                            }
                        }
                    }
                },
            }
        }
    }
}

/// Occurrences of a character at the start of a text are taken off, all of
/// them and nothing else.
pub proof fn leading_characters_are_taken_off(text: Seq<char>, leading: char)
    ensures
        exists|count: int|
            {
                &&& 0 <= count <= text.len()
                &&& without_leading(text, leading) == #[trigger] text.skip(count)
                &&& forall|i: int| 0 <= i < count ==> #[trigger] text[i] == leading
                &&& count < text.len() ==> text[count] != leading
            },
    decreases text.len(),
{
    if text.len() > 0 && text[0] == leading {
        let rest = text.drop_first();
        leading_characters_are_taken_off(rest, leading);
        let count = choose|count: int|
            {
                &&& 0 <= count <= rest.len()
                &&& without_leading(rest, leading) == #[trigger] rest.skip(count)
                &&& forall|i: int| 0 <= i < count ==> #[trigger] rest[i] == leading
                &&& count < rest.len() ==> rest[count] != leading
            };
        assert(rest.skip(count) =~= text.skip(count + 1));
        assert forall|i: int| 0 <= i < count + 1 implies #[trigger] text[i] == leading by {
            if i > 0 {
                assert(rest[i - 1] == text[i]);
            }
        }
    } else {
        assert(text.skip(0) =~= text);
    }
}

/// The number that decimal digits stand for.
pub open spec fn number_of(digits: Seq<char>) -> int
    decreases digits.len(),
{
    if digits.len() == 0 {
        0
    } else {
        number_of(digits.drop_last()) * 10 + (digits.last() as int - '0' as int)
    }
}

/// The decimal digits of a number read back as that number; they are digits,
/// and no zero stands in front of others.
pub proof fn decimal_reads_back(value: nat)
    ensures
        number_of(decimal(value)) == value,
        decimal(value).len() > 0,
        forall|i: int| 0 <= i < decimal(value).len() ==> '0' <= #[trigger] decimal(value)[i] <= '9',
        decimal(value).len() > 1 ==> decimal(value)[0] != '0',
    decreases value,
{
    reveal_with_fuel(number_of, 2);
    if value >= 10 {
        decimal_reads_back(value / 10);
        let digits = decimal(value);
        let front = decimal(value / 10);
        assert(digits.drop_last() =~= front);
        assert forall|i: int| 0 <= i < digits.len() implies '0' <= #[trigger] digits[i] <= '9' by {
            if i < front.len() {
                assert(digits[i] == front[i]);
            }
        }
        assert(digits[0] == front[0]);
        if front.len() == 1 {
            assert(front.drop_last().len() == 0);
            assert(number_of(front) == front[0] as int - '0' as int);
        }
    } else {
        assert(decimal(value).drop_last().len() == 0);
    }
}

/// A signed number is written with its digits, and a minus sign in front
/// exactly where it is below zero.
pub proof fn signed_decimal_reads_back(value: int)
    ensures
        value >= 0 ==> number_of(signed_decimal(value)) == value && signed_decimal(value)[0] != '-',
        value < 0 ==> signed_decimal(value)[0] == '-' && number_of(signed_decimal(value).skip(1))
            == -value,
{
    if value >= 0 {
        decimal_reads_back(value as nat);
    } else {
        decimal_reads_back((-value) as nat);
        assert(signed_decimal(value).skip(1) =~= decimal((-value) as nat));
    }
}

proof fn split_of_longer_text(text: Seq<char>, more: Seq<char>, separator: char)
    requires
        !more.contains(separator),
    ensures
        split(text, separator).len() > 0,
        split(text + more, separator) == split(text, separator).update(
            split(text, separator).len() - 1,
            split(text, separator).last() + more,
        ),
    decreases more.len(),
{
    crate::paths::split_is_not_empty(text, separator);
    let parts = split(text, separator);
    if more.len() == 0 {
        assert(text + more =~= text);
        assert(parts.last() + more =~= parts.last());
        assert(parts.update(parts.len() - 1, parts.last()) =~= parts);
    } else {
        let front = more.drop_last();
        assert(!front.contains(separator)) by {
            if front.contains(separator) {
                let i = choose|i: int| 0 <= i < front.len() && front[i] == separator;
                assert(more[i] == separator);
            }
        }
        split_of_longer_text(text, front, separator);
        let all = text + more;
        assert(all.drop_last() =~= text + front);
        assert(more[more.len() - 1] == more.last());
        assert(more.contains(more.last()));
        let before = split(text + front, separator);
        assert((parts.last() + front).push(more.last()) =~= parts.last() + more);
        assert(split(all, separator) =~= parts.update(parts.len() - 1, parts.last() + more));
    }
}

/// A part behind a separator is split off as it is.
pub proof fn parts_are_split_off(text: Seq<char>, more: Seq<char>, separator: char)
    requires
        !more.contains(separator),
    ensures
        split(text + seq![separator] + more, separator) == split(text, separator).push(more),
        split(more, separator) == seq![more],
{
    let longer = text + seq![separator];
    assert(longer.drop_last() =~= text);
    crate::paths::split_is_not_empty(text, separator);
    split_of_longer_text(longer, more, separator);
    let parts = split(longer, separator);
    assert(parts == split(text, separator).push(Seq::empty()));
    assert(Seq::<char>::empty() + more =~= more);
    assert(parts.update(parts.len() - 1, more) =~= split(text, separator).push(more));
    let none = Seq::<char>::empty();
    split_of_longer_text(none, more, separator);
    assert(none + more =~= more);
    assert(split(none, separator) =~= seq![none]);
    assert(seq![none].update(0, more) =~= seq![more]);
}

proof fn steps_are_names(segments: Seq<Seq<char>>)
    ensures
        forall|i: int|
            0 <= i < resolved_steps(segments).len() ==> {
                &&& (#[trigger] resolved_steps(segments)[i]) != ""@
                &&& resolved_steps(segments)[i] != "."@
                &&& resolved_steps(segments)[i] != ".."@
            },
    decreases segments.len(),
{
    if segments.len() > 0 {
        let before = resolved_steps(segments.drop_last());
        let after = resolved_steps(segments);
        steps_are_names(segments.drop_last());
        assert forall|i: int| 0 <= i < after.len() implies {
            &&& (#[trigger] after[i]) != ""@
            &&& after[i] != "."@
            &&& after[i] != ".."@
        } by {
            if i < before.len() {
                assert(after[i] == before[i]);
            }
        }
    }
}

/// A container path is brought into its shortest form step by step. Behind a
/// path, an empty step or `.` changes nothing, `..` takes the last step off
/// where there is one, and any other step is added behind a slash. Where no
/// step is left, the path is the root.
pub proof fn paths_are_shortened_step_by_step(path: Seq<char>, step: Seq<char>)
    requires
        !step.contains('/'),
    ensures
        ({
            let longer = path + seq!['/'] + step;
            let steps = resolved_steps(split(path, '/'));
            &&& step == ""@ || step == "."@ ==> normalized_path(longer) == normalized_path(path)
            &&& step != ""@ && step != "."@ && step != ".."@ ==> normalized_path(longer) == if steps.len()
                == 0 {
                "/"@ + step
            } else {
                normalized_path(path) + "/"@ + step
            }
            &&& step == ".."@ ==> normalized_path(longer) == if steps.len() <= 1 {
                "/"@
            } else {
                joined_steps(steps.drop_last())
            }
            &&& step == ".."@ && steps.len() > 1 ==> normalized_path(path) == normalized_path(longer)
                + "/"@ + steps.last()
        }),
        normalized_path(""@) == "/"@,
{
    let longer = path + seq!['/'] + step;
    parts_are_split_off(path, step, '/');
    let segments = split(path, '/');
    let steps = resolved_steps(segments);
    let more = segments.push(step);
    assert(more.drop_last() =~= segments);
    assert(more.last() == step);
    reveal_strlit("");
    reveal_strlit(".");
    reveal_strlit("..");
    assert("."@ != ".."@ && ""@ != ".."@) by {
        assert("."@.len() == 1 && ".."@.len() == 2 && ""@.len() == 0);
    }
    if !is_idle_segment(step) && step != ".."@ {
        let after = resolved_steps(more);
        assert(after.drop_last() =~= steps);
        if steps.len() == 0 {
            assert(after =~= seq![step]);
            assert(after.drop_last() =~= Seq::empty());
            assert(joined_steps(Seq::empty()) =~= Seq::<char>::empty());
            assert(joined_steps(after) =~= "/"@ + step);
        }
    }
    assert(split(""@, '/') =~= seq![""@]) by {
        assert(""@ =~= Seq::empty());
    }
    assert(seq![""@].drop_last() =~= Seq::empty());
    assert(resolved_steps(Seq::<Seq<char>>::empty()) =~= Seq::empty());
    assert(seq![""@].last() == ""@);
    assert(resolved_steps(seq![""@]) =~= Seq::empty());
}

/// The shortest form of a container path is the root, or steps each behind a
/// slash, of which none is empty, `.` or `..`.
pub proof fn shortened_paths_have_plain_steps(path: Seq<char>)
    ensures
        exists|steps: Seq<Seq<char>>|
            {
                &&& normalized_path(path) == if steps.len() == 0 {
                    "/"@
                } else {
                    #[trigger] joined_steps(steps)
                }
                &&& forall|i: int|
                    0 <= i < steps.len() ==> (#[trigger] steps[i]) != ""@ && steps[i] != "."@
                        && steps[i] != ".."@
            },
{
    let steps = resolved_steps(split(path, '/'));
    steps_are_names(split(path, '/'));
    let shown = joined_steps(steps);
}

/// What a path leads to is named by its last step, where that is a name and
/// not `..`; slashes and `.` behind it do not matter.
pub proof fn names_are_last_steps(path: Seq<char>, step: Seq<char>)
    requires
        !step.contains('/'),
    ensures
        ({
            let named = last_step(split(path + seq!['/'] + step, '/'));
            &&& step == ""@ || step == "."@ ==> named == last_step(split(path, '/'))
            &&& step == ".."@ ==> named is None
            &&& step != ""@ && step != "."@ && step != ".."@ ==> named == Some(step)
        }),
        step != ""@ && step != "."@ && step != ".."@ ==> last_step(split(step, '/')) == Some(step),
{
    parts_are_split_off(path, step, '/');
    let segments = split(path, '/');
    assert(segments.push(step).drop_last() =~= segments);
    reveal_strlit("");
    reveal_strlit(".");
    reveal_strlit("..");
    assert("."@.len() == 1 && ".."@.len() == 2 && ""@.len() == 0);
}

} // verus!
