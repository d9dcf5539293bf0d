//! YAML documents as the tool writes them.

use crate::text::chars_of;
use vstd::prelude::*;
use vstd::string::*;

verus! {

/// A part of a YAML document.
#[derive(Debug)]
pub enum Yaml {
    /// A value, as it is written.
    Scalar(String),
    /// Values by key; the keys are given as they are written.
    Mapping(Vec<(String, Yaml)>),
    /// Values in order.
    Sequence {
        /// The values.
        items: Vec<Yaml>,
        /// Whether they replace what another file gives, instead of being
        /// added to it.
        replaces: bool,
    },
}

/// A part of a YAML document, by what it holds.
pub enum YamlView {
    /// A value, as it is written.
    Scalar(Seq<char>),
    /// Values by key.
    Mapping(Seq<(Seq<char>, YamlView)>),
    /// Values in order, and whether they replace others.
    Sequence(Seq<YamlView>, bool),
}

impl View for Yaml {
    type V = YamlView;

    open spec fn view(&self) -> YamlView
        decreases self,
    {
        match self {
            Yaml::Scalar(text) => YamlView::Scalar(text@),
            Yaml::Mapping(entries) => YamlView::Mapping(
                Seq::new(
                    entries@.len(),
                    |i: int|
                        (
                            entries@[i].0@,
                            if 0 <= i < entries@.len() {
                                entries@[i].1.view()
                            } else {
                                YamlView::Scalar(Seq::empty())
                            },
                        ),
                ),
            ),
            Yaml::Sequence { items, replaces } => YamlView::Sequence(
                Seq::new(
                    items@.len(),
                    |i: int|
                        if 0 <= i < items@.len() {
                            items@[i].view()
                        } else {
                            YamlView::Scalar(Seq::empty())
                        },
                ),
                *replaces,
            ),
        }
    }
}

/// What stands behind the colon of an entry, or behind the dash of an item,
/// up to the end of the last line. `prefix` stands in front of the lines of
/// the entry.
pub open spec fn tail_text(node: YamlView, prefix: Seq<char>) -> Seq<char>
    decreases node, 0nat,
{
    match node {
        YamlView::Scalar(text) => " "@ + text + "\n"@,
        YamlView::Mapping(entries) => if entries.len() == 0 {
            " {}\n"@
        } else {
            "\n"@ + entries_text(entries, prefix + "  "@)
        },
        YamlView::Sequence(items, replaces) => (if replaces {
            " !override"@
        } else {
            ""@
        }) + if items.len() == 0 {
            " []\n"@
        } else {
            "\n"@ + items_text(items, prefix + "  "@)
        },
    }
}

/// The lines of entries.
pub open spec fn entries_text(entries: Seq<(Seq<char>, YamlView)>, prefix: Seq<char>) -> Seq<char>
    decreases entries, entries.len(),
{
    if entries.len() == 0 {
        Seq::empty()
    } else {
        entries_text(entries.drop_last(), prefix) + prefix + entries.last().0 + ":"@ + tail_text(
            entries.last().1,
            prefix,
        )
    }
}

/// The lines of items.
pub open spec fn items_text(items: Seq<YamlView>, prefix: Seq<char>) -> Seq<char>
    decreases items, items.len(),
{
    if items.len() == 0 {
        Seq::empty()
    } else {
        items_text(items.drop_last(), prefix) + prefix + "-"@ + item_text(items.last(), prefix)
    }
}

/// What stands behind the dash of an item. The first entry of a mapping
/// stands on the same line.
pub open spec fn item_text(node: YamlView, prefix: Seq<char>) -> Seq<char>
    decreases node, 1nat,
{
    match node {
        YamlView::Mapping(entries) => if entries.len() == 0 {
            " {}\n"@
        } else {
            " "@ + entries[0].0 + ":"@ + tail_text(entries[0].1, prefix + "  "@) + entries_text(
                entries.drop_first(),
                prefix + "  "@,
            )
        },
        _ => tail_text(node, prefix),
    }
}

/// Entries, by what they hold.
pub open spec fn entry_views(entries: Seq<(String, Yaml)>) -> Seq<(Seq<char>, YamlView)> {
    entries.map_values(|entry: (String, Yaml)| (entry.0@, entry.1@))
}

/// Items, by what they hold.
pub open spec fn item_views(items: Seq<Yaml>) -> Seq<YamlView> {
    items.map_values(|item: Yaml| item@)
}

/// What a mapping and a sequence hold is what their parts hold.
pub(crate) proof fn yaml_view_of_parts(node: Yaml)
    ensures
        node matches Yaml::Mapping(entries) ==> node@ == YamlView::Mapping(entry_views(entries@)),
        node matches Yaml::Sequence { items, replaces } ==> node@ == YamlView::Sequence(
            item_views(items@),
            replaces,
        ),
{
    if node is Mapping {
        assert(node@->Mapping_0 =~= entry_views(node->Mapping_0@));
    }
    if node is Sequence {
        assert(node@->Sequence_0 =~= item_views(node->items@));
    }
}

/// The lines of a document that is a mapping.
pub fn render_document(entries: &Vec<(String, Yaml)>) -> (res: String)
    ensures
        res@ == entries_text(entry_views(entries@), ""@),
{
    assert(entry_views(entries@).skip(0) =~= entry_views(entries@));
    render_entries(entries, 0, "")
}

fn deeper(prefix: &str) -> (res: String)
    ensures
        res@ == prefix@ + "  "@,
{
    let mut text = prefix.to_owned();
    text.append("  ");
    text
}

fn render_tail(node: &Yaml, prefix: &str) -> (res: String)
    ensures
        res@ == tail_text(node@, prefix@),
    decreases node, 0nat,
{
    proof {
        yaml_view_of_parts(*node);
    }
    match node {
        Yaml::Scalar(value) => {
            let mut text = " ".to_owned();
            text.append(value.as_str());
            text.append("\n");
            text
        },
        Yaml::Mapping(entries) => {
            if entries.len() == 0 {
                " {}\n".to_owned()
            } else {
                let mut text = "\n".to_owned();
                text.append(render_entries(entries, 0, deeper(prefix).as_str()).as_str());
                assert(entry_views(entries@).skip(0) =~= entry_views(entries@));
                text
            }
        },
        Yaml::Sequence { items, replaces } => {
            let mut text = if *replaces {
                " !override".to_owned()
            } else {
                "".to_owned()
            };
            let ghost tag = text@;
            if items.len() == 0 {
                text.append(" []\n");
            } else {
                text.append("\n");
                text.append(render_items(items, deeper(prefix).as_str()).as_str());
                assert(text@ =~= tag + ("\n"@ + items_text(
                    item_views(items@),
                    prefix@ + "  "@,
                )));
            }
            text
        },
    }
}

fn render_entries(entries: &Vec<(String, Yaml)>, start: usize, prefix: &str) -> (res: String)
    requires
        start <= entries@.len(),
    ensures
        res@ == entries_text(entry_views(entries@).skip(start as int), prefix@),
    decreases entries, 1nat,
{
    let ghost all = entry_views(entries@).skip(start as int);
    let mut text = String::new();
    let mut i: usize = start;
    assert(all.take(0) =~= Seq::empty());
    assert(text@ =~= entries_text(all.take(0), prefix@));
    while i < entries.len()
        invariant
            start <= i <= entries@.len(),
            all == entry_views(entries@).skip(start as int),
            text@ == entries_text(all.take(i - start), prefix@),
        decreases entries@.len() - i,
    {
        assert(all.take(i - start + 1).drop_last() =~= all.take(i - start));
        assert(all[i - start] == (entries@[i as int].0@, entries@[i as int].1@));
        text.append(prefix);
        text.append(entries[i].0.as_str());
        text.append(":");
        text.append(render_tail(&entries[i].1, prefix).as_str());
        i = i + 1;
    }
    assert(all.take(all.len() as int) =~= all);
    text
}

fn render_items(items: &Vec<Yaml>, prefix: &str) -> (res: String)
    ensures
        res@ == items_text(item_views(items@), prefix@),
    decreases items, 1nat,
{
    let ghost all = item_views(items@);
    let mut text = String::new();
    let mut i: usize = 0;
    assert(all.take(0) =~= Seq::empty());
    assert(text@ =~= items_text(all.take(0), prefix@));
    while i < items.len()
        invariant
            i <= items@.len(),
            all == item_views(items@),
            text@ == items_text(all.take(i as int), prefix@),
        decreases items@.len() - i,
    {
        assert(all.take(i as int + 1).drop_last() =~= all.take(i as int));
        let item = render_item(&items[i], prefix);
        text.append(prefix);
        text.append("-");
        text.append(item.as_str());
        assert(all.take(i as int + 1).last() == items@[i as int]@);
        i = i + 1;
    }
    assert(all.take(all.len() as int) =~= all);
    text
}

fn render_item(node: &Yaml, prefix: &str) -> (res: String)
    ensures
        res@ == item_text(node@, prefix@),
    decreases node, 1nat,
{
    proof {
        yaml_view_of_parts(*node);
    }
    match node {
        Yaml::Mapping(entries) => {
            if entries.len() == 0 {
                " {}\n".to_owned()
            } else {
                let inner = deeper(prefix);
                let mut text = " ".to_owned();
                text.append(entries[0].0.as_str());
                text.append(":");
                text.append(render_tail(&entries[0].1, inner.as_str()).as_str());
                text.append(render_entries(entries, 1, inner.as_str()).as_str());
                assert(entry_views(entries@).skip(1) =~= entry_views(entries@).drop_first());
                text
            }
        },
        _ => render_tail(node, prefix),
    }
}

/// Whether a character cannot stand in a single-quoted value.
pub open spec fn is_control(ch: char) -> bool {
    ch < ' ' || ch == '\u{7f}'
}

/// A character of a single-quoted value.
pub open spec fn single_quoted_char(ch: char) -> Seq<char> {
    if ch == '\'' {
        "''"@
    } else {
        seq![ch]
    }
}

/// The digit of a number below sixteen.
pub open spec fn hex_digit(value: int) -> char {
    if value < 10 {
        (('0' as u32) + value) as char
    } else {
        (('a' as u32) + value - 10) as char
    }
}

/// A character of a double-quoted value.
pub open spec fn double_quoted_char(ch: char) -> Seq<char> {
    if ch == '"' {
        "\\\""@
    } else if ch == '\\' {
        "\\\\"@
    } else if ch == '\n' {
        "\\n"@
    } else if ch == '\r' {
        "\\r"@
    } else if ch == '\t' {
        "\\t"@
    } else if is_control(ch) {
        "\\x"@ + seq![hex_digit((ch as u32) as int / 16), hex_digit((ch as u32) as int % 16)]
    } else {
        seq![ch]
    }
}

/// The characters of a value, each written so that it may stand in quotes.
pub open spec fn quoted_chars(text: Seq<char>, double: bool) -> Seq<char>
    decreases text.len(),
{
    if text.len() == 0 {
        Seq::empty()
    } else {
        quoted_chars(text.drop_last(), double) + if double {
            double_quoted_char(text.last())
        } else {
            single_quoted_char(text.last())
        }
    }
}

/// Whether a value needs double quotes.
pub open spec fn needs_double_quotes(text: Seq<char>) -> bool {
    exists|i: int| 0 <= i < text.len() && is_control(#[trigger] text[i])
}

/// A text as a value in quotes: single ones, or double ones where it holds
/// line breaks or other control characters.
pub open spec fn quoted_text(text: Seq<char>) -> Seq<char> {
    if needs_double_quotes(text) {
        "\""@ + quoted_chars(text, true) + "\""@
    } else {
        "'"@ + quoted_chars(text, false) + "'"@
    }
}

fn char_is_control(ch: char) -> (res: bool)
    ensures
        res == is_control(ch),
{
    ch < ' ' || ch == '\u{7f}'
}

fn hex_digit_char(value: u8) -> (res: char)
    requires
        value < 16,
    ensures
        res == hex_digit(value as int),
{
    if value < 10 {
        (48 + value) as char
    } else {
        (97 + (value - 10)) as char
    }
}

fn single_quoted(ch: char) -> (res: String)
    ensures
        res@ == single_quoted_char(ch),
{
    let mut res = String::new();
    if ch == '\'' {
        res.append("''");
    } else {
        res.push(ch);
    }
    assert(res@ =~= single_quoted_char(ch));
    res
}

fn double_quoted(ch: char) -> (res: String)
    ensures
        res@ == double_quoted_char(ch),
{
    if ch == '"' {
        "\\\"".to_owned()
    } else if ch == '\\' {
        "\\\\".to_owned()
    } else if ch == '\n' {
        "\\n".to_owned()
    } else if ch == '\r' {
        "\\r".to_owned()
    } else if ch == '\t' {
        "\\t".to_owned()
    } else if char_is_control(ch) {
        let code: u8 = ch as u8;
        let mut res = "\\x".to_owned();
        res.push(hex_digit_char(code / 16));
        res.push(hex_digit_char(code % 16));
        assert(res@ =~= double_quoted_char(ch));
        res
    } else {
        let mut res = String::new();
        res.push(ch);
        assert(res@ =~= seq![ch]);
        res
    }
}

/// A text as a value in quotes.
pub fn quoted(text: &str) -> (res: String)
    ensures
        res@ == quoted_text(text@),
{
    let chars = chars_of(text);
    let mut double = false;
    let mut i: usize = 0;
    while i < chars.len()
        invariant
            chars@ == text@,
            i <= chars@.len(),
            double == exists|j: int| 0 <= j < i && is_control(#[trigger] text@[j]),
        decreases chars@.len() - i,
    {
        if char_is_control(chars[i]) {
            assert(is_control(text@[i as int]));
            double = true;
        }
        i = i + 1;
    }
    assert(double == needs_double_quotes(text@));
    let quote = if double {
        "\""
    } else {
        "'"
    };
    let mut res = quote.to_owned();
    let mut k: usize = 0;
    assert(text@.take(0) =~= Seq::empty());
    assert(res@ =~= quote@ + quoted_chars(text@.take(0), double));
    while k < chars.len()
        invariant
            chars@ == text@,
            k <= chars@.len(),
            res@ == quote@ + quoted_chars(text@.take(k as int), double),
        decreases chars@.len() - k,
    {
        assert(text@.take(k as int + 1).drop_last() =~= text@.take(k as int));
        let written = if double {
            double_quoted(chars[k])
        } else {
            single_quoted(chars[k])
        };
        res.append(written.as_str());
        assert(res@ =~= quote@ + quoted_chars(text@.take(k as int + 1), double));
        k = k + 1;
    }
    assert(text@.take(text@.len() as int) =~= text@);
    res.append(quote);
    res
}

} // verus!
