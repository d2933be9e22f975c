//! The calls into outside crates that the service's rules rest on: regular
//! expression escaping, slug generation and random identifiers.

use vstd::prelude::*;

verus! {

/// A character with a special meaning in a regular expression.
pub open spec fn is_regex_meta(c: char) -> bool {
    c == '\\' || c == '.' || c == '+' || c == '*' || c == '?' || c == '(' || c == ')' || c == '|'
        || c == '[' || c == ']' || c == '{' || c == '}' || c == '^' || c == '$' || c == '#' || c
        == '&' || c == '-' || c == '~'
}

/// `text` with a backslash put before each character that has a special
/// meaning in a regular expression.
pub open spec fn regex_escaped(text: Seq<char>) -> Seq<char>
    decreases text.len(),
{
    if text.len() == 0 {
        Seq::empty()
    } else {
        let rest = regex_escaped(text.drop_last());
        let c = text.last();
        if is_regex_meta(c) {
            rest.push('\\').push(c)
        } else {
            rest.push(c)
        }
    }
}

/// Calls `regex::escape`, which puts a backslash before each of the
/// characters `\ . + * ? ( ) | [ ] { } ^ $ # & - ~` and copies every other
/// character (regex-syntax's `escape_into` and `is_meta_character`).
#[verifier::external_body]
pub(crate) fn escape_regex(text: &str) -> (res: String)
    ensures
        res@ == regex_escaped(text@),
{
    regex::escape(text)
}

/// What `slugify::slugify(text, stop_words, sep, max_length)` returns: the
/// text transliterated to ASCII, lower-cased, stop words removed, each run
/// of other characters than `a`-`z` and `0`-`9` turned into one separator.
pub uninterp spec fn slugified(
    text: Seq<char>,
    stop_words: Seq<char>,
    sep: Seq<char>,
    max_length: Option<usize>,
) -> Seq<char>;

/// A lower-case ASCII letter or digit.
pub open spec fn is_slug_char(c: char) -> bool {
    ('a' <= c && c <= 'z') || ('0' <= c && c <= '9')
}

/// Letters and digits in runs joined by single hyphens: no other
/// characters, no hyphen at either end, no two hyphens in a row.
pub open spec fn is_slug(s: Seq<char>) -> bool {
    &&& forall|i: int| 0 <= i < s.len() ==> (is_slug_char(#[trigger] s[i]) || s[i] == '-')
    &&& s.len() > 0 ==> s[0] != '-' && s[s.len() - 1] != '-'
    &&& forall|i: int| 0 <= i < s.len() - 1 ==> !(#[trigger] s[i] == '-' && s[i + 1] == '-')
}

/// Calls `slugify::slugify`. The result is named by `slugified`; beside
/// that, its loop shows that with `-` as the separator the result only holds
/// lower-case letters, digits and single inner hyphens. The function indexes
/// the separator's first character and casts it to a byte, so the separator
/// must start with an ASCII character.
#[verifier::external_body]
pub(crate) fn slugify_text(
    text: &str,
    stop_words: &str,
    sep: &str,
    max_length: Option<usize>,
) -> (res: String)
    requires
        sep@.len() >= 1,
        (sep@[0] as int) < 128,
    ensures
        res@ == slugified(text@, stop_words@, sep@, max_length),
        sep@[0] == '-' ==> is_slug(res@),
{
    slugify::slugify(text, stop_words, sep, max_length)
}

/// A lower-case hexadecimal digit.
pub open spec fn is_lower_hex(c: char) -> bool {
    ('0' <= c && c <= '9') || ('a' <= c && c <= 'f')
}

/// The hyphenated lower-case text of a random (version 4, RFC 4122) UUID:
/// 36 characters, hyphens at 8, 13, 18 and 23, hexadecimal digits elsewhere,
/// a `4` at 14 and one of `8 9 a b` at 19.
pub open spec fn is_uuid_v4_text(s: Seq<char>) -> bool {
    &&& s.len() == 36
    &&& forall|i: int|
        0 <= i < 36 ==> if i == 8 || i == 13 || i == 18 || i == 23 {
            #[trigger] s[i] == '-'
        } else {
            is_lower_hex(s[i])
        }
    &&& s[14] == '4'
    &&& (s[19] == '8' || s[19] == '9' || s[19] == 'a' || s[19] == 'b')
}

/// Calls `uuid::Uuid::new_v4()` and formats it with `to_string`: random
/// bytes with the version and variant bits set, written as hyphenated
/// lower-case hexadecimal. Nothing is said of which identifier comes out;
/// the call panics where the system yields no random bytes.
#[verifier::external_body]
pub(crate) fn new_uuid_v4() -> (res: String)
    ensures
        is_uuid_v4_text(res@),
{
    uuid::Uuid::new_v4().to_string()
}

} // verus!
