//! Text helpers: comparison, trimming, searching and number rendering over
//! the characters of a string.

use vstd::prelude::*;
use vstd::string::*;

verus! {

/// Appending one character at the end of a `String`, as
/// `std::string::String::push` documents it.
pub assume_specification[ String::push ](s: &mut String, ch: char)
    ensures
        final(s)@ == old(s)@.push(ch),
;

/// The characters of each string of a sequence.
pub open spec fn views(strings: Seq<String>) -> Seq<Seq<char>> {
    strings.map_values(|s: String| s@)
}

/// The characters of an optional string.
pub open spec fn opt_view(value: Option<String>) -> Option<Seq<char>> {
    match value {
        Some(text) => Some(text@),
        None => None,
    }
}

/// Whether two texts hold the same characters.
pub fn same_text(left: &str, right: &str) -> (res: bool)
    ensures
        res == (left@ == right@),
{
    left.to_owned() == right.to_owned()
}

/// Whether two optional texts are both absent or hold the same characters.
pub fn same_optional_text(left: &Option<String>, right: &Option<String>) -> (res: bool)
    ensures
        res == (opt_view(*left) == opt_view(*right)),
{
    match (left, right) {
        (Some(left), Some(right)) => same_text(left, right),
        (None, None) => true,
        _ => false,
    }
}

/// The characters of a text.
pub fn chars_of(text: &str) -> (res: Vec<char>)
    ensures
        res@ == text@,
{
    let mut chars: Vec<char> = Vec::new();
    for ch in iter: text.chars()
        invariant
            iter.seq() == text@,
            chars@ == text@.take(iter.index() as int),
    {
        chars.push(ch);
        assert(chars@ =~= text@.take(iter.index() as int + 1));
    }
    assert(text@.take(text@.len() as int) =~= text@);
    chars
}

/// Whether `prefix` starts `text`.
pub open spec fn has_prefix(text: Seq<char>, prefix: Seq<char>) -> bool {
    prefix.len() <= text.len() && text.take(prefix.len() as int) == prefix
}

/// Whether `prefix` starts `text`.
pub fn starts_with(text: &str, prefix: &str) -> (res: bool)
    ensures
        res == has_prefix(text@, prefix@),
{
    let text_len: usize = text.unicode_len();
    let prefix_len: usize = prefix.unicode_len();
    if prefix_len > text_len {
        return false;
    }
    same_text(text.substring_char(0, prefix_len), prefix)
}

/// Whether a character has the Unicode property `White_Space`.
pub open spec fn is_white_space(ch: char) -> bool {
    ||| '\u{9}' <= ch <= '\u{d}'
    ||| ch == ' '
    ||| ch == '\u{85}'
    ||| ch == '\u{a0}'
    ||| ch == '\u{1680}'
    ||| '\u{2000}' <= ch <= '\u{200a}'
    ||| ch == '\u{2028}'
    ||| ch == '\u{2029}'
    ||| ch == '\u{202f}'
    ||| ch == '\u{205f}'
    ||| ch == '\u{3000}'
}

/// Whether a character has the Unicode property `White_Space`.
pub fn char_is_white_space(ch: char) -> (res: bool)
    ensures
        res == is_white_space(ch),
{
    ('\u{9}' <= ch && ch <= '\u{d}') || ch == ' ' || ch == '\u{85}' || ch == '\u{a0}' || ch
        == '\u{1680}' || ('\u{2000}' <= ch && ch <= '\u{200a}') || ch == '\u{2028}' || ch
        == '\u{2029}' || ch == '\u{202f}' || ch == '\u{205f}' || ch == '\u{3000}'
}

/// A text without its leading white space.
pub open spec fn trimmed_start(text: Seq<char>) -> Seq<char>
    decreases text.len(),
{
    if text.len() > 0 && is_white_space(text[0]) {
        trimmed_start(text.drop_first())
    } else {
        text
    }
}

/// A text without its trailing white space.
pub open spec fn trimmed_end(text: Seq<char>) -> Seq<char>
    decreases text.len(),
{
    if text.len() > 0 && is_white_space(text.last()) {
        trimmed_end(text.drop_last())
    } else {
        text
    }
}

/// A text without its leading and trailing white space.
pub open spec fn trimmed(text: Seq<char>) -> Seq<char> {
    trimmed_end(trimmed_start(text))
}

/// A text without its leading and trailing white space.
pub fn trim(text: &str) -> (res: &str)
    ensures
        res@ == trimmed(text@),
{
    let chars = chars_of(text);
    let mut start: usize = 0;
    let mut end: usize = chars.len();
    assert(text@.skip(0) =~= text@);
    while start < end && char_is_white_space(chars[start])
        invariant
            chars@ == text@,
            start <= end == text@.len(),
            trimmed_start(text@) == trimmed_start(text@.skip(start as int)),
        decreases end - start,
    {
        assert(text@.skip(start as int).drop_first() =~= text@.skip(start as int + 1));
        start = start + 1;
    }
    assert(trimmed_start(text@) == text@.skip(start as int));
    assert(text@.skip(start as int) =~= text@.subrange(start as int, end as int));
    while start < end && char_is_white_space(chars[end - 1])
        invariant
            chars@ == text@,
            start <= end <= text@.len(),
            trimmed(text@) == trimmed_end(text@.subrange(start as int, end as int)),
        decreases end,
    {
        assert(text@.subrange(start as int, end as int).drop_last() =~= text@.subrange(
            start as int,
            end - 1,
        ));
        end = end - 1;
    }
    text.substring_char(start, end)
}

/// What is left of a text after trimming, unless that is empty.
pub open spec fn trimmed_non_empty(text: Seq<char>) -> Option<Seq<char>> {
    if trimmed(text).len() > 0 {
        Some(trimmed(text))
    } else {
        None
    }
}

/// What is left of a text after trimming, unless that is empty.
pub fn non_empty_trimmed(text: &str) -> (res: Option<&str>)
    ensures
        match res {
            Some(rest) => trimmed_non_empty(text@) == Some(rest@),
            None => trimmed_non_empty(text@) is None,
        },
{
    let rest = trim(text);
    if rest.is_empty() {
        None
    } else {
        Some(rest)
    }
}

/// Whether `left` stands before `right` in the order of code points.
pub open spec fn text_less(left: Seq<char>, right: Seq<char>) -> bool
    decreases left.len(),
{
    if right.len() == 0 {
        false
    } else if left.len() == 0 {
        true
    } else if left[0] == right[0] {
        text_less(left.drop_first(), right.drop_first())
    } else {
        left[0] < right[0]
    }
}

/// The order of texts has no cycle of one.
pub proof fn text_less_irreflexive(text: Seq<char>)
    ensures
        !text_less(text, text),
    decreases text.len(),
{
    if text.len() > 0 {
        text_less_irreflexive(text.drop_first());
    }
}

/// The order of texts is transitive.
pub proof fn text_less_transitive(a: Seq<char>, b: Seq<char>, c: Seq<char>)
    requires
        text_less(a, b),
        text_less(b, c),
    ensures
        text_less(a, c),
    decreases a.len(),
{
    if a.len() > 0 && a[0] == b[0] && b[0] == c[0] {
        text_less_transitive(a.drop_first(), b.drop_first(), c.drop_first());
    }
}

/// Of two different texts one stands before the other.
pub proof fn text_less_total(a: Seq<char>, b: Seq<char>)
    ensures
        text_less(a, b) || a == b || text_less(b, a),
    decreases a.len(),
{
    if a.len() > 0 && b.len() > 0 && a[0] == b[0] {
        text_less_total(a.drop_first(), b.drop_first());
        assert(a =~= seq![a[0]] + a.drop_first());
        assert(b =~= seq![b[0]] + b.drop_first());
    } else if a.len() == 0 && b.len() == 0 {
        assert(a =~= b);
    }
}

/// Whether `left` stands before `right` in the order of code points.
pub fn text_is_less(left: &str, right: &str) -> (res: bool)
    ensures
        res == text_less(left@, right@),
{
    let a = chars_of(left);
    let b = chars_of(right);
    let mut i: usize = 0;
    assert(left@.skip(0) =~= left@);
    assert(right@.skip(0) =~= right@);
    while i < a.len() && i < b.len() && a[i] == b[i]
        invariant
            a@ == left@,
            b@ == right@,
            i <= a@.len(),
            i <= b@.len(),
            text_less(left@, right@) == text_less(left@.skip(i as int), right@.skip(i as int)),
        decreases a@.len() - i,
    {
        assert(left@.skip(i as int).drop_first() =~= left@.skip(i as int + 1));
        assert(right@.skip(i as int).drop_first() =~= right@.skip(i as int + 1));
        i = i + 1;
    }
    if i == b.len() {
        false
    } else if i == a.len() {
        true
    } else {
        a[i] < b[i]
    }
}

/// The digit character of a value below ten.
pub open spec fn digit_char(value: nat) -> char {
    (('0' as u32) + value) as char
}

/// The decimal digits of a number, without leading zeros.
pub open spec fn decimal(value: nat) -> Seq<char>
    decreases value,
{
    if value < 10 {
        seq![digit_char(value)]
    } else {
        decimal(value / 10).push(digit_char(value % 10))
    }
}

/// The decimal digits of a number, without leading zeros.
pub fn decimal_text(value: u128) -> (res: String)
    ensures
        res@ == decimal(value as nat),
    decreases value,
{
    let digit: u8 = 48 + (value % 10) as u8;
    if value < 10 {
        let mut text = String::new();
        text.push(digit as char);
        assert(text@ =~= decimal(value as nat));
        text
    } else {
        let mut text = decimal_text(value / 10);
        text.push(digit as char);
        text
    }
}

/// The decimal rendering of a signed number.
pub open spec fn signed_decimal(value: int) -> Seq<char> {
    if value < 0 {
        seq!['-'] + decimal((-value) as nat)
    } else {
        decimal(value as nat)
    }
}

/// The decimal rendering of a signed number.
pub fn signed_decimal_text(value: i64) -> (res: String)
    ensures
        res@ == signed_decimal(value as int),
{
    if value < 0 {
        let magnitude: u128 = (-(value as i128)) as u128;
        let digits = decimal_text(magnitude);
        let mut text = String::new();
        text.push('-');
        text.append(digits.as_str());
        assert(text@ =~= signed_decimal(value as int));
        text
    } else {
        decimal_text(value as u128)
    }
}

/// Different numbers have different decimal renderings.
pub proof fn decimal_injective(left: nat, right: nat)
    requires
        decimal(left) == decimal(right),
    ensures
        left == right,
    decreases left,
{
    decimal_not_empty(left);
    decimal_not_empty(right);
    assert(decimal(left).last() == digit_char(left % 10));
    assert(decimal(right).last() == digit_char(right % 10));
    if left < 10 && right < 10 {
    } else if left < 10 {
        decimal_not_empty(right / 10);
        assert(decimal(right).len() == decimal(right / 10).len() + 1);
    } else if right < 10 {
        decimal_not_empty(left / 10);
        assert(decimal(left).len() == decimal(left / 10).len() + 1);
    } else {
        assert(decimal(left).drop_last() =~= decimal(left / 10));
        assert(decimal(right).drop_last() =~= decimal(right / 10));
        decimal_injective(left / 10, right / 10);
    }
}

/// A decimal rendering has at least one digit.
pub(crate) proof fn decimal_not_empty(value: nat)
    ensures
        decimal(value).len() > 0,
{
}

/// What stands before and behind the first occurrence of a character.
pub open spec fn parted(text: Seq<char>, separator: char) -> Option<(Seq<char>, Seq<char>)>
    decreases text.len(),
{
    if text.len() == 0 {
        None
    } else if text[0] == separator {
        Some((Seq::empty(), text.drop_first()))
    } else {
        match parted(text.drop_first(), separator) {
            Some((before, behind)) => Some((seq![text[0]] + before, behind)),
            None => None,
        }
    }
}

/// What stands before and behind the first occurrence of a character.
pub fn part(text: &str, separator: char) -> (res: Option<(&str, &str)>)
    ensures
        match res {
            Some((before, behind)) => parted(text@, separator) == Some((before@, behind@)),
            None => parted(text@, separator) is None,
        },
{
    let chars = chars_of(text);
    let mut i: usize = 0;
    assert(text@.skip(0) =~= text@);
    assert(text@.take(0) =~= Seq::empty());
    assert forall|before: Seq<char>| #[trigger] (Seq::<char>::empty() + before) == before by {
        assert(Seq::<char>::empty() + before =~= before);
    }
    while i < chars.len()
        invariant
            chars@ == text@,
            i <= chars@.len(),
            match parted(text@.skip(i as int), separator) {
                Some((before, behind)) => parted(text@, separator) == Some(
                    (text@.take(i as int) + before, behind),
                ),
                None => parted(text@, separator) is None,
            },
        decreases chars@.len() - i,
    {
        let ghost rest = text@.skip(i as int);
        assert(rest.drop_first() =~= text@.skip(i as int + 1));
        if chars[i] == separator {
            let before = text.substring_char(0, i);
            let behind = text.substring_char(i + 1, chars.len());
            assert(before@ =~= text@.take(i as int) + Seq::<char>::empty());
            assert(behind@ =~= rest.drop_first());
            return Some((before, behind));
        }
        proof {
            if let Some((before, behind)) = parted(rest.drop_first(), separator) {
                assert(text@.take(i as int) + (seq![rest[0]] + before) =~= text@.take(i as int + 1)
                    + before);
            }
        }
        i = i + 1;
    }
    None
}

/// A text without the occurrences of a character at its start.
pub open spec fn without_leading(text: Seq<char>, leading: char) -> Seq<char>
    decreases text.len(),
{
    if text.len() > 0 && text[0] == leading {
        without_leading(text.drop_first(), leading)
    } else {
        text
    }
}

/// A text without the occurrences of a character at its start.
pub fn trim_leading(text: &str, leading: char) -> (res: &str)
    ensures
        res@ == without_leading(text@, leading),
{
    let chars = chars_of(text);
    let mut i: usize = 0;
    assert(text@.skip(0) =~= text@);
    while i < chars.len() && chars[i] == leading
        invariant
            chars@ == text@,
            i <= chars@.len(),
            without_leading(text@, leading) == without_leading(text@.skip(i as int), leading),
        decreases chars@.len() - i,
    {
        assert(text@.skip(i as int).drop_first() =~= text@.skip(i as int + 1));
        i = i + 1;
    }
    assert(text@.skip(i as int) =~= text@.subrange(i as int, text@.len() as int));
    text.substring_char(i, chars.len())
}

} // verus!
