//! Reading numbers and capture groups out of text.

use vstd::prelude::*;
use vstd::string::*;

verus! {

/// What a search with a regular expression captures: for each of the
/// group names asked for, the text that the group matched, or `None` for a
/// group that does not exist or took no part in the match.
pub type Groups = Seq<Option<Seq<char>>>;

/// The groups named `names` that `pattern` captures in the leftmost match
/// within `text`; `None` where `pattern` is no valid regular expression or
/// matches nowhere in `text`.
pub uninterp spec fn regex_captures(
    pattern: Seq<char>,
    names: Seq<Seq<char>>,
    text: Seq<char>,
) -> Option<Groups>;

/// The texts of a list of names.
pub open spec fn names_view(names: Seq<&str>) -> Seq<Seq<char>> {
    names.map_values(|name: &str| name@)
}

/// The text of an optional string.
pub open spec fn text_of(field: Option<&str>) -> Option<Seq<char>> {
    match field {
        Some(text) => Some(text@),
        None => None,
    }
}

/// The texts of some captured groups.
pub open spec fn groups_view(groups: Option<Vec<Option<&str>>>) -> Option<Groups> {
    match groups {
        Some(found) => Some(found@.map_values(|group: Option<&str>| text_of(group))),
        None => None,
    }
}

/// A run of characters that stands somewhere in a text.
pub open spec fn is_part(part: Seq<char>, whole: Seq<char>) -> bool {
    exists|start: int|
        0 <= start && start + part.len() <= whole.len() && #[trigger] whole.subrange(
            start,
            start + part.len(),
        ) == part
}

/// Every group that was captured stands somewhere in the text.
pub open spec fn groups_within(found: Seq<Option<&str>>, text: Seq<char>) -> bool {
    forall|i: int|
        0 <= i < found.len() ==> ((#[trigger] found[i]) matches Some(part) ==> is_part(part@, text))
}

/// `regex::Regex`, carried as it is.
#[verifier::external_type_specification]
#[verifier::external_body]
pub struct ExRegex(regex::Regex);

/// A pattern, compiled once and searched with as often as needed. It
/// holds the pattern's text and what compiling that text gave: there is
/// no other way to make one.
pub struct Matcher<'p> {
    pattern: &'p str,
    compiled: Option<regex::Regex>,
}

/// `regex::Regex::new`: the pattern is kept beside what compiling it
/// gave, which is nothing for a pattern that is no valid regular
/// expression. The contract says which pattern the matcher is of.
#[verifier::external_body]
fn compile<'p>(pattern: &'p str) -> (matcher: Matcher<'p>)
    ensures
        matcher.pattern() == pattern@,
{
    Matcher { pattern, compiled: regex::Regex::new(pattern).ok() }
}

/// `regex::Regex::captures` and, for each name, `Captures::name` with
/// `Match::as_str`, on what compiling the matcher's pattern gave. The
/// contract gives the outcome its name, and adds that a match yields one
/// entry for each name asked for, in their order, and that what a group
/// captured is a slice of the text that was searched.
#[verifier::external_body]
fn search<'t>(matcher: &Matcher, names: &[&str], text: &'t str) -> (groups: Option<
    Vec<Option<&'t str>>,
>)
    ensures
        groups_view(groups) == regex_captures(matcher.pattern(), names_view(names@), text@),
        groups matches Some(found) ==> found@.len() == names@.len() && groups_within(found@, text@),
{
    let caps = matcher.compiled.as_ref()?.captures(text)?;
    let mut groups = Vec::with_capacity(names.len());
    for name in names {
        groups.push(caps.name(name).map(|group| group.as_str()));
    }
    Some(groups)
}

impl<'p> Matcher<'p> {
    /// The text of the pattern.
    pub closed spec fn pattern(self) -> Seq<char> {
        self.pattern@
    }

    /// Compiles a pattern. A pattern that is no valid regular expression
    /// gives a matcher that finds nothing.
    pub fn new(pattern: &'p str) -> (matcher: Self)
        ensures
            matcher.pattern() == pattern@,
    {
        compile(pattern)
    }

    /// Searches a text for the leftmost match of the pattern and gives
    /// what the named groups captured.
    pub fn captures<'t>(&self, names: &[&str], text: &'t str) -> (groups: Option<
        Vec<Option<&'t str>>,
    >)
        ensures
            groups_view(groups) == regex_captures(self.pattern(), names_view(names@), text@),
            groups matches Some(found) ==> found@.len() == names@.len() && groups_within(
                found@,
                text@,
            ),
    {
        search(self, names, text)
    }
}

/// An ASCII decimal digit.
pub open spec fn is_digit(c: char) -> bool {
    '0' <= c <= '9'
}

/// The number that a sequence of digits denotes.
pub open spec fn digits_value(digits: Seq<char>) -> nat
    decreases digits.len(),
{
    if digits.len() == 0 {
        0
    } else {
        digits_value(digits.drop_last()) * 10 + (digits.last() as nat - '0' as nat) as nat
    }
}

/// A text without its leading plus sign, if it has one.
pub open spec fn unsigned(text: Seq<char>) -> Seq<char> {
    if text.len() > 0 && text[0] == '+' {
        text.skip(1)
    } else {
        text
    }
}

/// The number that a text denotes in decimal: an optional plus sign and
/// then one or more ASCII digits. Other texts denote none.
pub open spec fn decimal(text: Seq<char>) -> Option<nat> {
    let digits = unsigned(text);
    if digits.len() > 0 && (forall|i: int| 0 <= i < digits.len() ==> is_digit(#[trigger] digits[i])) {
        Some(digits_value(digits))
    } else {
        None
    }
}

/// The number that a text denotes in decimal, where it is at most `max`.
pub open spec fn decimal_up_to(text: Seq<char>, max: nat) -> Option<nat> {
    match decimal(text) {
        Some(value) => if value <= max {
            Some(value)
        } else {
            None
        },
        None => None,
    }
}

/// A sequence of digits denotes at least what any of its prefixes does.
pub proof fn lemma_digits_value_prefix(digits: Seq<char>, n: int)
    requires
        0 <= n <= digits.len(),
    ensures
        digits_value(digits.take(n)) <= digits_value(digits),
    decreases digits.len() - n,
{
    if n == digits.len() {
        assert(digits.take(n) =~= digits);
    } else {
        lemma_digits_value_prefix(digits, n + 1);
        assert(digits.take(n + 1).drop_last() =~= digits.take(n));
    }
}

/// Reads an unsigned decimal number that fits 64 bits.
pub fn parse_u64(text: &str) -> (value: Option<u64>)
    ensures
        value matches Some(v) ==> decimal_up_to(text@, u64::MAX as nat) == Some(v as nat),
        value is None ==> decimal_up_to(text@, u64::MAX as nat) is None,
{
    if !text.is_ascii() {
        proof {
            let i = choose|i: int| 0 <= i < text@.len() && !('\0' <= #[trigger] text@[i] <= '\u{7f}');
            if text@[0] == '+' {
                assert(unsigned(text@)[i - 1] == text@[i]);
            }
        }
        return None;
    }
    let len = text.unicode_len();
    let start: usize = if len > 0 && text.get_ascii(0) == 43u8 {
        1
    } else {
        0
    };
    let ghost digits = unsigned(text@);
    if start == len {
        return None;
    }
    let mut acc: u64 = 0;
    let mut i: usize = start;
    while i < len
        invariant
            text.is_ascii(),
            len == text@.len(),
            digits == unsigned(text@),
            digits.len() == len - start,
            start <= i <= len,
            start == 0 || start == 1,
            start == 1 ==> digits == text@.skip(1),
            start == 0 ==> digits == text@,
            forall|j: int| 0 <= j < i - start ==> is_digit(#[trigger] digits[j]),
            acc as nat == digits_value(digits.take(i - start)),
        decreases len - i,
    {
        let byte = text.get_ascii(i);
        if byte < 48u8 || byte > 57u8 {
            assert(!is_digit(digits[i - start]));
            return None;
        }
        let digit: u64 = (byte - 48u8) as u64;
        proof {
            assert(digits.take(i - start + 1).drop_last() =~= digits.take(i - start));
            lemma_digits_value_prefix(digits, i - start + 1);
        }
        if acc > (u64::MAX - digit) / 10 {
            return None;
        }
        acc = acc * 10 + digit;
        i += 1;
    }
    assert(digits.take(len - start) =~= digits);
    Some(acc)
}

/// Reads an unsigned decimal number that fits 32 bits.
pub fn parse_u32(text: &str) -> (value: Option<u32>)
    ensures
        value matches Some(v) ==> decimal_up_to(text@, u32::MAX as nat) == Some(v as nat),
        value is None ==> decimal_up_to(text@, u32::MAX as nat) is None,
{
    match parse_u64(text) {
        Some(wide) => if wide <= 0xffff_ffffu64 {
            Some(wide as u32)
        } else {
            None
        },
        None => None,
    }
}

} // verus!
