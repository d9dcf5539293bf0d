//! How documents are written, and how hidden values reach Compose.

use crate::compose::placeholder::{
    are_placeholders, hands_over, interpolation_entries, placeholders_differ, safe_name,
};
use crate::docker::{redactions_of, SensitiveEnvValue};
use crate::text::views;
use crate::text_map::{keys_ascend, keys_of, lookup, lookup_after_insert};
use crate::yaml::{
    entries_text, is_control, item_text, items_text, needs_double_quotes, quoted_chars,
    quoted_text, tail_text, YamlView,
};
use vstd::prelude::*;
use vstd::string::*;

verus! {

/// What is read behind an opening single quote, and what is left behind the
/// closing one: two quotes stand for one.
pub open spec fn read_single_quoted(text: Seq<char>) -> (Seq<char>, Seq<char>)
    decreases text.len(),
{
    if text.len() == 0 {
        (Seq::empty(), Seq::empty())
    } else if text[0] != '\'' {
        let (value, rest) = read_single_quoted(text.skip(1));
        (seq![text[0]] + value, rest)
    } else if text.len() > 1 && text[1] == '\'' {
        let (value, rest) = read_single_quoted(text.skip(2));
        (seq!['\''] + value, rest)
    } else {
        (Seq::empty(), text.skip(1))
    }
}

/// The number that a hexadecimal digit stands for.
pub open spec fn hex_value(digit: char) -> int {
    if '0' <= digit <= '9' {
        digit as int - '0' as int
    } else {
        digit as int - 'a' as int + 10
    }
}

/// What is read behind an opening double quote, and what is left behind the
/// closing one: a backslash stands in front of what is not meant as it is.
pub open spec fn read_double_quoted(text: Seq<char>) -> (Seq<char>, Seq<char>)
    decreases text.len(),
{
    if text.len() == 0 {
        (Seq::empty(), Seq::empty())
    } else if text[0] == '"' {
        (Seq::empty(), text.skip(1))
    } else if text[0] != '\\' || text.len() == 1 {
        let (value, rest) = read_double_quoted(text.skip(1));
        (seq![text[0]] + value, rest)
    } else if text[1] == 'x' && text.len() >= 4 {
        let (value, rest) = read_double_quoted(text.skip(4));
        (seq![(hex_value(text[2]) * 16 + hex_value(text[3])) as char] + value, rest)
    } else {
        let (value, rest) = read_double_quoted(text.skip(2));
        let meant = if text[1] == 'n' {
            '\n'
        } else if text[1] == 'r' {
            '\r'
        } else if text[1] == 't' {
            '\t'
        } else {
            text[1]
        };
        (seq![meant] + value, rest)
    }
}

proof fn quoted_from_the_front(text: Seq<char>, double: bool)
    requires
        text.len() > 0,
    ensures
        quoted_chars(text, double) == (if double {
            crate::yaml::double_quoted_char(text[0])
        } else {
            crate::yaml::single_quoted_char(text[0])
        }) + quoted_chars(text.skip(1), double),
    decreases text.len(),
{
    let front = text.drop_last();
    if front.len() > 0 {
        quoted_from_the_front(front, double);
        assert(text.skip(1).drop_last() =~= front.skip(1));
        assert(text.skip(1).last() == text.last());
        assert(quoted_chars(text, double) =~= (if double {
            crate::yaml::double_quoted_char(text[0])
        } else {
            crate::yaml::single_quoted_char(text[0])
        }) + quoted_chars(text.skip(1), double));
    } else {
        assert(text.skip(1) =~= Seq::empty());
        assert(front =~= Seq::empty());
        assert(quoted_chars(text, double) =~= (if double {
            crate::yaml::double_quoted_char(text[0])
        } else {
            crate::yaml::single_quoted_char(text[0])
        }) + quoted_chars(text.skip(1), double));
    }
}

proof fn single_quoted_reads_back(text: Seq<char>, rest: Seq<char>)
    requires
        rest.len() > 0 ==> rest[0] != '\'',
    ensures
        read_single_quoted(quoted_chars(text, false) + seq!['\''] + rest) == (text, rest),
    decreases text.len(),
{
    reveal_strlit("''");
    let written = quoted_chars(text, false) + seq!['\''] + rest;
    if text.len() == 0 {
        assert(written =~= seq!['\''] + rest);
        assert(written.skip(1) =~= rest);
    } else {
        quoted_from_the_front(text, false);
        let more = quoted_chars(text.skip(1), false) + seq!['\''] + rest;
        single_quoted_reads_back(text.skip(1), rest);
        assert(text =~= seq![text[0]] + text.skip(1));
        if text[0] == '\'' {
            assert(written =~= "''"@ + more);
            assert(written.skip(2) =~= more);
        } else {
            assert(written =~= seq![text[0]] + more);
            assert(written.skip(1) =~= more);
        }
    }
}

proof fn control_characters_are_small(ch: char)
    requires
        is_control(ch),
    ensures
        0 <= (ch as u32) < 128,
{
}

proof fn hex_digits_read_back(ch: char)
    requires
        (ch as u32) < 256,
    ensures
        (hex_value(crate::yaml::hex_digit((ch as u32) as int / 16)) * 16 + hex_value(
            crate::yaml::hex_digit((ch as u32) as int % 16),
        )) as char == ch,
{
    let high = (ch as u32) as int / 16;
    let low = (ch as u32) as int % 16;
    assert(hex_value(crate::yaml::hex_digit(high)) == high);
    assert(hex_value(crate::yaml::hex_digit(low)) == low);
    assert(high * 16 + low == (ch as u32) as int);
}

proof fn double_quoted_reads_back(text: Seq<char>, rest: Seq<char>)
    ensures
        read_double_quoted(quoted_chars(text, true) + seq!['"'] + rest) == (text, rest),
    decreases text.len(),
{
    reveal_strlit("\\\"");
    reveal_strlit("\\\\");
    reveal_strlit("\\n");
    reveal_strlit("\\r");
    reveal_strlit("\\t");
    reveal_strlit("\\x");
    let written = quoted_chars(text, true) + seq!['"'] + rest;
    if text.len() == 0 {
        assert(written =~= seq!['"'] + rest);
        assert(written.skip(1) =~= rest);
    } else {
        quoted_from_the_front(text, true);
        let more = quoted_chars(text.skip(1), true) + seq!['"'] + rest;
        let first = crate::yaml::double_quoted_char(text[0]);
        double_quoted_reads_back(text.skip(1), rest);
        assert(text =~= seq![text[0]] + text.skip(1));
        assert(written =~= first + more);
        assert(written.skip(first.len() as int) =~= more);
        if first.len() == 4 {
            control_characters_are_small(text[0]);
            hex_digits_read_back(text[0]);
            assert(written[2] == first[2]);
            assert(written[3] == first[3]);
        }
        assert(written[0] == first[0]);
        if first.len() > 1 {
            assert(written[1] == first[1]);
        }
    }
}

/// A value in quotes reads back as it was, whatever it holds and whatever
/// follows it on its line.
pub proof fn quoted_values_read_back(text: Seq<char>, rest: Seq<char>)
    requires
        rest.len() > 0 ==> rest[0] != '\'',
    ensures
        ({
            let written = quoted_text(text) + rest;
            &&& written[0] == '\'' || written[0] == '"'
            &&& written[0] == '\'' ==> read_single_quoted(written.skip(1)) == (text, rest)
            &&& written[0] == '"' ==> read_double_quoted(written.skip(1)) == (text, rest)
        }),
{
    reveal_strlit("\"");
    reveal_strlit("'");
    single_quoted_reads_back(text, rest);
    double_quoted_reads_back(text, rest);
    let written = quoted_text(text) + rest;
    let double = needs_double_quotes(text);
    let quote = if double {
        '"'
    } else {
        '\''
    };
    assert(written.skip(1) =~= quoted_chars(text, double) + seq![quote] + rest);
}

proof fn hex_digits_are_plain(value: int)
    requires
        0 <= value < 16,
    ensures
        !is_control(crate::yaml::hex_digit(value)),
{
}

proof fn quoted_chars_stay_on_the_line(text: Seq<char>, double: bool)
    requires
        double || forall|i: int| 0 <= i < text.len() ==> !is_control(#[trigger] text[i]),
    ensures
        forall|i: int|
            0 <= i < quoted_chars(text, double).len() ==> !is_control(
                #[trigger] quoted_chars(text, double)[i],
            ),
    decreases text.len(),
{
    if text.len() > 0 {
        reveal_strlit("''");
        reveal_strlit("\\\"");
        reveal_strlit("\\\\");
        reveal_strlit("\\n");
        reveal_strlit("\\r");
        reveal_strlit("\\t");
        reveal_strlit("\\x");
        let front = text.drop_last();
        assert forall|i: int| 0 <= i < front.len() && !double implies !is_control(
            #[trigger] front[i],
        ) by {
            assert(front[i] == text[i]);
        }
        quoted_chars_stay_on_the_line(front, double);
        assert(!double ==> !is_control(text[text.len() - 1]));
        let last = if double {
            crate::yaml::double_quoted_char(text.last())
        } else {
            crate::yaml::single_quoted_char(text.last())
        };
        assert forall|i: int| 0 <= i < last.len() implies !is_control(#[trigger] last[i]) by {
            if double && last.len() == 4 {
                control_characters_are_small(text.last());
                hex_digits_are_plain((text.last() as u32) as int / 16);
                hex_digits_are_plain((text.last() as u32) as int % 16);
            }
        }
        let all = quoted_chars(text, double);
        let before = quoted_chars(front, double);
        assert forall|i: int| 0 <= i < all.len() implies !is_control(#[trigger] all[i]) by {
            if i < before.len() {
                assert(all[i] == before[i]);
            } else {
                assert(all[i] == last[i - before.len()]);
            }
        }
    }
}

/// A value in quotes stays on one line: it holds no line break and no other
/// control character, whatever it stands for.
pub proof fn quoted_values_stay_on_their_line(text: Seq<char>, i: int)
    requires
        0 <= i < quoted_text(text).len(),
    ensures
        quoted_text(text)[i] != '\n',
        quoted_text(text)[i] != '\r',
        quoted_text(text)[i] >= ' ',
{
    reveal_strlit("\"");
    reveal_strlit("'");
    let double = needs_double_quotes(text);
    quoted_chars_stay_on_the_line(text, double);
    let inner = quoted_chars(text, double);
    if 0 < i <= inner.len() {
        assert(quoted_text(text)[i] == inner[i - 1]);
        assert(!is_control(inner[i - 1]));
    }
}

/// The entries of a mapping stand below each other, in order and each with the
/// same indentation: key, colon, and either a value on the same line or lines
/// that are indented further by two blanks. Nothing is left out and nothing
/// put between them.
pub proof fn entries_stand_below_each_other(
    front: Seq<(Seq<char>, YamlView)>,
    entry: (Seq<char>, YamlView),
    prefix: Seq<char>,
)
    ensures
        entries_text(Seq::empty(), prefix) == Seq::<char>::empty(),
        entry.1 is Scalar ==> entries_text(front.push(entry), prefix) == entries_text(front, prefix)
            + (prefix + entry.0 + ": "@ + entry.1->Scalar_0 + "\n"@),
        entry.1 is Mapping && entry.1->Mapping_0.len() > 0 ==> entries_text(
            front.push(entry),
            prefix,
        ) == entries_text(front, prefix) + (prefix + entry.0 + ":\n"@ + entries_text(
            entry.1->Mapping_0,
            prefix + "  "@,
        )),
        entry.1 is Mapping && entry.1->Mapping_0.len() == 0 ==> entries_text(
            front.push(entry),
            prefix,
        ) == entries_text(front, prefix) + (prefix + entry.0 + ": {}\n"@),
        entry.1 is Sequence && entry.1->Sequence_0.len() > 0 ==> entries_text(
            front.push(entry),
            prefix,
        ) == entries_text(front, prefix) + (prefix + entry.0 + if entry.1->Sequence_1 {
            ": !override\n"@
        } else {
            ":\n"@
        } + items_text(entry.1->Sequence_0, prefix + "  "@)),
        entry.1 is Sequence && entry.1->Sequence_0.len() == 0 ==> entries_text(
            front.push(entry),
            prefix,
        ) == entries_text(front, prefix) + (prefix + entry.0 + if entry.1->Sequence_1 {
            ": !override []\n"@
        } else {
            ": []\n"@
        }),
{
    reveal_strlit(":");
    reveal_strlit(": ");
    reveal_strlit(":\n");
    reveal_strlit("\n");
    reveal_strlit(" ");
    reveal_strlit("");
    reveal_strlit(" {}\n");
    reveal_strlit(": {}\n");
    reveal_strlit(" !override");
    reveal_strlit(": !override\n");
    reveal_strlit(" []\n");
    reveal_strlit(": !override []\n");
    reveal_strlit(": []\n");
    let entries = front.push(entry);
    assert(entries.drop_last() =~= front);
    assert(entries.last() == entry);
    let tail = tail_text(entry.1, prefix);
    assert(entries_text(entries, prefix) =~= entries_text(front, prefix) + (prefix + entry.0 + (
    ":"@ + tail)));
    if entry.1 is Scalar {
        assert(":"@ + tail =~= ": "@ + entry.1->Scalar_0 + "\n"@);
        assert(entries_text(entries, prefix) =~= entries_text(front, prefix) + (prefix + entry.0
            + ": "@ + entry.1->Scalar_0 + "\n"@));
    } else if entry.1 is Mapping {
        let inner = entries_text(entry.1->Mapping_0, prefix + "  "@);
        if entry.1->Mapping_0.len() > 0 {
            assert(":"@ + tail =~= ":\n"@ + inner);
            assert(entries_text(entries, prefix) =~= entries_text(front, prefix) + (prefix
                + entry.0 + ":\n"@ + inner));
        } else {
            assert(":"@ + tail =~= ": {}\n"@);
        }
    } else {
        let inner = items_text(entry.1->Sequence_0, prefix + "  "@);
        if entry.1->Sequence_0.len() > 0 {
            let head = if entry.1->Sequence_1 {
                ": !override\n"@
            } else {
                ":\n"@
            };
            assert(":"@ + tail =~= head + inner);
            assert(entries_text(entries, prefix) =~= entries_text(front, prefix) + (prefix
                + entry.0 + head + inner));
        } else {
            let head = if entry.1->Sequence_1 {
                ": !override []\n"@
            } else {
                ": []\n"@
            };
            assert(":"@ + tail =~= head);
            assert(entries_text(entries, prefix) =~= entries_text(front, prefix) + (prefix
                + entry.0 + head));
        }
    }
}

/// The items of a list stand below each other, each behind a dash: a value on
/// the same line, and of a mapping the first entry on the same line and the
/// others below it.
pub proof fn items_stand_below_each_other(
    front: Seq<YamlView>,
    item: YamlView,
    prefix: Seq<char>,
)
    ensures
        items_text(Seq::empty(), prefix) == Seq::<char>::empty(),
        item is Scalar ==> items_text(front.push(item), prefix) == items_text(front, prefix) + (
        prefix + "- "@ + item->Scalar_0 + "\n"@),
        item is Mapping && item->Mapping_0.len() > 0 && item->Mapping_0[0].1 is Scalar
            ==> items_text(front.push(item), prefix) == items_text(front, prefix) + (prefix + "- "@
            + item->Mapping_0[0].0 + ": "@ + item->Mapping_0[0].1->Scalar_0 + "\n"@ + entries_text(
            item->Mapping_0.drop_first(),
            prefix + "  "@,
        )),
{
    reveal_strlit("-");
    reveal_strlit("- ");
    reveal_strlit(":");
    reveal_strlit(": ");
    reveal_strlit("\n");
    reveal_strlit(" ");
    let items = front.push(item);
    assert(items.drop_last() =~= front);
    assert(items.last() == item);
    let tail = item_text(item, prefix);
    assert(items_text(items, prefix) =~= items_text(front, prefix) + (prefix + ("-"@ + tail)));
    if item is Scalar {
        assert("-"@ + tail =~= "- "@ + item->Scalar_0 + "\n"@);
        assert(items_text(items, prefix) =~= items_text(front, prefix) + (prefix + "- "@
            + item->Scalar_0 + "\n"@));
    } else if item is Mapping && item->Mapping_0.len() > 0 && item->Mapping_0[0].1 is Scalar {
        let others = entries_text(item->Mapping_0.drop_first(), prefix + "  "@);
        let value = item->Mapping_0[0].1->Scalar_0;
        assert(tail_text(item->Mapping_0[0].1, prefix + "  "@) == " "@ + value + "\n"@);
        assert("-"@ + tail =~= "- "@ + item->Mapping_0[0].0 + ": "@ + value + "\n"@ + others);
        assert(items_text(items, prefix) =~= items_text(front, prefix) + (prefix + "- "@
            + item->Mapping_0[0].0 + ": "@ + value + "\n"@ + others));
    }
}

proof fn value_is_handed_over(
    sensitive: Seq<(Seq<char>, SensitiveEnvValue)>,
    placeholders: Seq<Seq<char>>,
)
    requires
        sensitive.len() == placeholders.len(),
        placeholders.no_duplicates(),
    ensures
        keys_ascend(interpolation_entries(sensitive, placeholders)),
        forall|i: int|
            0 <= i < sensitive.len() ==> lookup(
                interpolation_entries(sensitive, placeholders),
                #[trigger] placeholders[i],
            ) == Some(sensitive[i].1.value),
        forall|name: Seq<char>| #[trigger]
            lookup(interpolation_entries(sensitive, placeholders), name) is Some
                ==> placeholders.contains(name),
    decreases sensitive.len(),
{
    if sensitive.len() > 0 {
        let front = sensitive.drop_last();
        let names = placeholders.drop_last();
        let before = interpolation_entries(front, names);
        let all = interpolation_entries(sensitive, placeholders);
        assert forall|i: int, j: int|
            0 <= i < names.len() && 0 <= j < names.len() && i != j implies names[i]
            != names[j] by {
            assert(placeholders[i] != placeholders[j]);
        }
        value_is_handed_over(front, names);
        assert forall|i: int| 0 <= i < sensitive.len() implies lookup(
            all,
            #[trigger] placeholders[i],
        ) == Some(sensitive[i].1.value) by {
            lookup_after_insert(
                before,
                placeholders.last(),
                sensitive.last().1.value,
                placeholders[i],
            );
            if i < front.len() {
                assert(names[i] == placeholders[i]);
                assert(front[i] == sensitive[i]);
                assert(placeholders[i] != placeholders[placeholders.len() - 1]);
            }
        }
        assert forall|name: Seq<char>| #[trigger]
            lookup(all, name) is Some implies placeholders.contains(name) by {
            lookup_after_insert(before, placeholders.last(), sensitive.last().1.value, name);
            if name == placeholders.last() {
                assert(placeholders[placeholders.len() - 1] == name);
            } else {
                let i = choose|i: int| 0 <= i < names.len() && names[i] == name;
                assert(placeholders[i] == name);
            }
        }
        lookup_after_insert(
            before,
            placeholders.last(),
            sensitive.last().1.value,
            placeholders.last(),
        );
    } else {
        assert(placeholders =~= Seq::empty());
    }
}

/// Every hidden value is handed to Compose under a name of its own that begins
/// with `DECUNE_CONTAINER_ENV_` and goes on with the variable's name in safe
/// characters, and nothing else is handed over.
pub proof fn hidden_values_are_handed_over(
    sensitive: Seq<(Seq<char>, SensitiveEnvValue)>,
    environment: Seq<(Seq<char>, String)>,
) -> (names: Seq<Seq<char>>)
    requires
        hands_over(sensitive, environment),
    ensures
        names.len() == sensitive.len(),
        names.no_duplicates(),
        forall|i: int|
            0 <= i < sensitive.len() ==> {
                let start = "DECUNE_CONTAINER_ENV_"@ + safe_name(sensitive[i].0);
                &&& lookup(environment, #[trigger] names[i]) == Some(sensitive[i].1.value)
                &&& start.is_prefix_of(names[i])
            },
        forall|name: Seq<char>| #[trigger]
            lookup(environment, name) is Some ==> names.contains(name),
{
    let names = choose|placeholders: Seq<Seq<char>>|
        {
            &&& #[trigger] are_placeholders(keys_of(sensitive), placeholders)
            &&& environment == interpolation_entries(sensitive, placeholders)
        };
    placeholders_differ(keys_of(sensitive), names);
    value_is_handed_over(sensitive, names);
    assert forall|i: int| 0 <= i < sensitive.len() implies {
        let start = "DECUNE_CONTAINER_ENV_"@ + safe_name(sensitive[i].0);
        &&& lookup(environment, #[trigger] names[i]) == Some(sensitive[i].1.value)
        &&& start.is_prefix_of(names[i])
    } by {
        let start = "DECUNE_CONTAINER_ENV_"@ + safe_name(sensitive[i].0);
        assert(keys_of(sensitive)[i] == sensitive[i].0);
        if names[i] == start {
            assert(start.is_prefix_of(names[i]));
        } else {
            let number = choose|number: nat|
                number >= 2 && names[i]
                    == #[trigger] crate::compose::placeholder::numbered_placeholder(
                    sensitive[i].0,
                    number,
                );
            assert(names[i] =~= start + ("_"@ + crate::text::decimal(number)));
            assert(start =~= names[i].subrange(0, start.len() as int));
        }
    }
    names
}

/// A key becomes a name of upper-case letters, digits and underscores that
/// begins with no digit: letters in upper case, digits as they are, and an
/// underscore for all else.
pub proof fn names_are_safe(key: Seq<char>, i: int)
    requires
        0 <= i < key.len(),
    ensures
        ({
            let shift: int = if '0' <= key[0] <= '9' {
                1
            } else {
                0
            };
            let name = safe_name(key);
            &&& name.len() == key.len() + shift
            &&& shift == 1 ==> name[0] == '_'
            &&& 'A' <= key[i] <= 'Z' || '0' <= key[i] <= '9' ==> name[i + shift] == key[i]
            &&& 'a' <= key[i] <= 'z' ==> 'A' <= name[i + shift] <= 'Z' && name[i + shift] as int
                - 'A' as int == key[i] as int - 'a' as int
            &&& !('A' <= key[i] <= 'Z' || '0' <= key[i] <= '9' || 'a' <= key[i] <= 'z')
                ==> name[i + shift] == '_'
        }),
        safe_name(Seq::empty()) == seq!['_'],
{
    assert(safe_name(Seq::empty()) =~= seq!['_']);
}

proof fn redactions_are_kept(
    sensitive: Seq<(Seq<char>, SensitiveEnvValue)>,
    i: int,
    r: int,
)
    requires
        0 <= i < sensitive.len(),
        0 <= r < sensitive[i].1.redactions@.len(),
    ensures
        redactions_of(sensitive).contains(sensitive[i].1.redactions@[r]@),
    decreases sensitive.len(),
{
    let front = sensitive.drop_last();
    let before = redactions_of(front);
    let last = views(sensitive.last().1.redactions@);
    let text = sensitive[i].1.redactions@[r]@;
    if i < front.len() {
        assert(front[i] == sensitive[i]);
        redactions_are_kept(front, i, r);
        let j = choose|j: int| 0 <= j < before.len() && before[j] == text;
        assert((before + last)[j] == text);
    } else {
        assert((before + last)[before.len() + r] == last[r]);
    }
}

/// Every text that may not be shown of a hidden value is hidden.
pub proof fn texts_of_hidden_values_are_hidden(
    sensitive: Seq<(Seq<char>, SensitiveEnvValue)>,
    i: int,
    r: int,
)
    requires
        0 <= i < sensitive.len(),
        0 <= r < sensitive[i].1.redactions@.len(),
    ensures
        redactions_of(sensitive).contains(sensitive[i].1.redactions@[r]@),
{
    redactions_are_kept(sensitive, i, r);
}

} // verus!
