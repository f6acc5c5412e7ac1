//! Checks on the text a caller submits: blank fields and identifier shape.

use vstd::prelude::*;
use vstd::string::StrSliceExecFns;

verus! {

broadcast use vstd::string::group_string_axioms;

/// What the `regex` crate answers when it is asked whether a text matches
/// a pattern: `None` where the pattern does not compile.
pub uninterp spec fn pattern_match(pattern: Seq<char>, text: Seq<char>) -> Option<bool>;

/// The shape of a username and of an item locator: one or more word
/// characters from the first character to the last.
pub const WORD_PATTERN: &'static str = r"^\w+$";

/// Whether a text has the shape of a username or an item locator.
pub open spec fn matches_word_pattern(text: Seq<char>) -> bool {
    pattern_match(WORD_PATTERN@, text) == Some(true)
}

/// Whether a character is whitespace: whether it has the Unicode property
/// `White_Space`. These are the controls from tab to carriage return, the
/// space, next line, the no-break space, the ogham space mark, the spaces
/// from en quad to hair space, the line and paragraph separators, the
/// narrow no-break space, the medium mathematical space and the
/// ideographic space.
pub open spec fn is_white_space(character: char) -> bool {
    let code = character as u32;
    ||| 0x09 <= code <= 0x0d
    ||| code == 0x20
    ||| code == 0x85
    ||| code == 0xa0
    ||| code == 0x1680
    ||| 0x2000 <= code <= 0x200a
    ||| code == 0x2028
    ||| code == 0x2029
    ||| code == 0x202f
    ||| code == 0x205f
    ||| code == 0x3000
}

/// A text is blank when it holds nothing but whitespace, so that nothing
/// is left of it after trimming.
pub open spec fn is_blank_text(text: Seq<char>) -> bool {
    forall|i: int| 0 <= i < text.len() ==> is_white_space(#[trigger] text[i])
}

/// Whether an optional field was provided and is blank.
pub open spec fn given_blank(field: Option<Seq<char>>) -> bool {
    field is Some && is_blank_text(field->0)
}

/// A text after a partial update: the change where one is given, else the
/// text as it was.
pub open spec fn merged(current: Seq<char>, change: Option<Seq<char>>) -> Seq<char> {
    match change {
        Some(text) => text,
        None => current,
    }
}

/// Compiles a pattern with `regex::Regex::new` and asks `Regex::is_match`
/// whether the text matches it; `None` where the pattern does not compile.
/// Both depend on the two texts alone. The contract only names the answer.
#[verifier::external_body]
fn regex_is_match(pattern: &str, text: &str) -> (found: Option<bool>)
    ensures
        found == pattern_match(pattern@, text@),
{
    match regex::Regex::new(pattern) {
        Ok(compiled) => Some(compiled.is_match(text)),
        Err(_) => None,
    }
}

/// Whether a character is whitespace.
pub fn is_whitespace(character: char) -> (white: bool)
    ensures
        white == is_white_space(character),
{
    let code: u32 = character as u32;
    (0x09 <= code && code <= 0x0d) || code == 0x20 || code == 0x85 || code == 0xa0 || code
        == 0x1680 || (0x2000 <= code && code <= 0x200a) || code == 0x2028 || code == 0x2029
        || code == 0x202f || code == 0x205f || code == 0x3000
}

/// Whether a submitted field counts as empty.
pub fn is_blank(text: &str) -> (blank: bool)
    ensures
        blank == is_blank_text(text@),
{
    for character in walk: text.chars()
        invariant
            walk.seq() == text@,
            forall|i: int| 0 <= i < walk.index() ==> is_white_space(#[trigger] text@[i]),
    {
        if !is_whitespace(character) {
            return false;
        }
    }
    true
}

/// Whether a text can serve as a username or an item locator: one or more
/// word characters and nothing else.
pub fn is_identifier(text: &str) -> (legal: bool)
    ensures
        legal == matches_word_pattern(text@),
{
    match regex_is_match(WORD_PATTERN, text) {
        Some(found) => found,
        None => false,
    }
}

/// Whether two texts are the same, character for character.
pub fn same_text(left: &str, right: &str) -> (same: bool)
    ensures
        same == (left@ == right@),
{
    let left_owned = left.to_owned();
    let right_owned = right.to_owned();
    left_owned == right_owned
}

/// Whether an optional field was provided and is blank.
pub fn is_blank_if_given(field: Option<&str>) -> (blank: bool)
    ensures
        blank == given_blank(field.deep_view()),
{
    match field {
        Some(text) => is_blank(text),
        None => false,
    }
}

/// An owned copy of an optional text.
pub fn owned_if_given(field: Option<&str>) -> (copy: Option<String>)
    ensures
        copy.deep_view() == field.deep_view(),
{
    match field {
        Some(text) => Some(text.to_owned()),
        None => None,
    }
}

/// Whether a text begins with another.
pub fn has_prefix(text: &str, prefix: &str) -> (found: bool)
    ensures
        found == prefix@.is_prefix_of(text@),
{
    let length = prefix.unicode_len();
    if text.unicode_len() < length {
        return false;
    }
    let mut index: usize = 0;
    while index < length
        invariant
            index <= length,
            length == prefix@.len(),
            length <= text@.len(),
            forall|i: int| 0 <= i < index ==> text@[i] == prefix@[i],
        decreases length - index,
    {
        if text.get_char(index) != prefix.get_char(index) {
            assert(text@.subrange(0, length as int)[index as int] != prefix@[index as int]);
            return false;
        }
        index += 1;
    }
    assert(prefix@ =~= text@.subrange(0, length as int));
    true
}

} // verus!
