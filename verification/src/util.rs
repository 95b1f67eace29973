//! Percent-encoding of version identifiers, the URL check applied to
//! configured endpoints, and typed access to the fields of a JSON document.

use vstd::prelude::*;
use vstd::utf8::*;
use crate::error::{Error, ErrorView};
use crate::json::{parsed_json, Json};
use crate::text::{
    chars_contain, chars_occur_at, chars_of, concat2, has_prefix, is_substring, owned, push_char,
    string_of, sub_chars,
};

verus! {

/// The ASCII letters and digits.
pub open spec fn is_ascii_alphanumeric(c: char) -> bool {
    ||| '0' <= c <= '9'
    ||| 'A' <= c <= 'Z'
    ||| 'a' <= c <= 'z'
}

/// The upper-case hexadecimal digit of a value below sixteen.
pub open spec fn hex_digit(value: int) -> char
    recommends
        0 <= value < 16,
{
    if value < 10 {
        ('0' as int + value) as char
    } else {
        ('A' as int + value - 10) as char
    }
}

/// One byte written as `%XX`.
pub open spec fn percent_byte(byte: u8) -> Seq<char> {
    seq!['%', hex_digit(byte as int / 16), hex_digit(byte as int % 16)]
}

/// Each byte of `bytes` written as `%XX`, in order.
pub open spec fn percent_bytes(bytes: Seq<u8>) -> Seq<char>
    decreases bytes.len(),
{
    if bytes.len() == 0 {
        Seq::empty()
    } else {
        percent_bytes(bytes.drop_last()) + percent_byte(bytes.last())
    }
}

/// What one character becomes: an ASCII letter or digit stays; `+`, `-` and
/// `.` become `%2B`, `%2D` and `%2E`; any other character becomes the `%XX`
/// forms of the bytes of its UTF-8 encoding.
pub open spec fn encode_char(c: char) -> Seq<char> {
    if c == '+' {
        seq!['%', '2', 'B']
    } else if c == '-' {
        seq!['%', '2', 'D']
    } else if c == '.' {
        seq!['%', '2', 'E']
    } else if is_ascii_alphanumeric(c) {
        seq![c]
    } else {
        percent_bytes(encode_scalar(c as u32))
    }
}

/// The encoding of a text: the encodings of its characters, in order.
pub open spec fn url_encoded(text: Seq<char>) -> Seq<char>
    decreases text.len(),
{
    if text.len() == 0 {
        Seq::empty()
    } else {
        url_encoded(text.drop_last()) + encode_char(text.last())
    }
}

/// The characters an encoded text is made of: ASCII letters, digits and `%`.
pub open spec fn is_encoded_char(c: char) -> bool {
    is_ascii_alphanumeric(c) || c == '%'
}

/// Every character of `text` is an ASCII letter, a digit or `%`.
pub open spec fn is_encoded_text(text: Seq<char>) -> bool {
    forall|i: int| 0 <= i < text.len() ==> is_encoded_char(#[trigger] text[i])
}

fn hex_digit_of(value: u8) -> (digit: char)
    requires
        value < 16,
    ensures
        digit == hex_digit(value as int),
        is_ascii_alphanumeric(digit),
{
    if value < 10 {
        (48u8 + value) as char
    } else {
        (65u8 + (value - 10)) as char
    }
}

fn push_percent_byte(encoded: &mut String, byte: u8)
    ensures
        final(encoded)@ == old(encoded)@ + percent_byte(byte),
{
    push_char(encoded, '%');
    push_char(encoded, hex_digit_of(byte / 16));
    push_char(encoded, hex_digit_of(byte % 16));
    assert(encoded@ =~= old(encoded)@ + percent_byte(byte));
}

/// The bytes of the UTF-8 encoding of `c`.
pub fn utf8_bytes(c: char) -> (bytes: Vec<u8>)
    ensures
        bytes@ == encode_scalar(c as u32),
{
    let v: u32 = c as u32;
    let bytes = if v <= 0x7F {
        assert(v & 0x7F < 0x100) by (bit_vector);
        vec![(v & 0x7F) as u8]
    } else if v <= 0x7FF {
        assert((v >> 6) & 0x1F < 0x100 && v & 0x3F < 0x100) by (bit_vector);
        vec![0xC0u8 | ((v >> 6) & 0x1F) as u8, 0x80u8 | (v & 0x3F) as u8]
    } else if v <= 0xFFFF {
        assert((v >> 12) & 0x0F < 0x100 && (v >> 6) & 0x3F < 0x100 && v & 0x3F < 0x100)
            by (bit_vector);
        vec![
            0xE0u8 | ((v >> 12) & 0x0F) as u8,
            0x80u8 | ((v >> 6) & 0x3F) as u8,
            0x80u8 | (v & 0x3F) as u8,
        ]
    } else {
        assert((v >> 18) & 0x7 < 0x100 && (v >> 12) & 0x3F < 0x100 && (v >> 6) & 0x3F < 0x100 && v
            & 0x3F < 0x100) by (bit_vector);
        vec![
            0xF0u8 | ((v >> 18) & 0x7) as u8,
            0x80u8 | ((v >> 12) & 0x3F) as u8,
            0x80u8 | ((v >> 6) & 0x3F) as u8,
            0x80u8 | (v & 0x3F) as u8,
        ]
    };
    assert(bytes@ =~= encode_scalar(c as u32));
    bytes
}

fn push_percent_bytes(encoded: &mut String, bytes: &Vec<u8>)
    ensures
        final(encoded)@ == old(encoded)@ + percent_bytes(bytes@),
{
    let mut i: usize = 0;
    while i < bytes.len()
        invariant
            i <= bytes.len(),
            encoded@ == old(encoded)@ + percent_bytes(bytes@.take(i as int)),
        decreases bytes.len() - i,
    {
        push_percent_byte(encoded, bytes[i]);
        assert(bytes@.take(i + 1).drop_last() == bytes@.take(i as int));
        assert(encoded@ =~= old(encoded)@ + percent_bytes(bytes@.take(i + 1)));
        i = i + 1;
    }
    assert(bytes@ == bytes@.take(bytes.len() as int));
}

/// Whether `c` is an ASCII letter or digit.
pub fn is_alphanumeric(c: char) -> (yes: bool)
    ensures
        yes == is_ascii_alphanumeric(c),
{
    ('0' <= c && c <= '9') || ('A' <= c && c <= 'Z') || ('a' <= c && c <= 'z')
}

/// Percent-encodes `text` for use as a version identifier in a query string.
pub fn url_encode(text: &str) -> (encoded: String)
    ensures
        encoded@ == url_encoded(text@),
        is_encoded_text(encoded@),
{
    let mut encoded = String::new();
    for c in it: text.chars()
        invariant
            it.seq() == text@,
            encoded@ == url_encoded(it.seq().take(it.index() as int)),
    {
        let ghost before = it.seq().take(it.index() as int);
        let ghost after = it.seq().take(it.index() + 1);
        assert(after.drop_last() == before && after.last() == c);
        if c == '+' {
            push_char(&mut encoded, '%');
            push_char(&mut encoded, '2');
            push_char(&mut encoded, 'B');
        } else if c == '-' {
            push_char(&mut encoded, '%');
            push_char(&mut encoded, '2');
            push_char(&mut encoded, 'D');
        } else if c == '.' {
            push_char(&mut encoded, '%');
            push_char(&mut encoded, '2');
            push_char(&mut encoded, 'E');
        } else if is_alphanumeric(c) {
            push_char(&mut encoded, c);
        } else {
            let bytes = utf8_bytes(c);
            push_percent_bytes(&mut encoded, &bytes);
        }
        assert(encoded@ =~= url_encoded(before) + encode_char(c));
    }
    assert(text@ == text@.take(text@.len() as int));
    proof {
        url_encoded_is_encoded_text(text@);
    }
    encoded
}

/// Every byte written as `%XX` is made of `%` and upper-case hexadecimal digits.
pub proof fn percent_bytes_is_encoded_text(bytes: Seq<u8>)
    ensures
        is_encoded_text(percent_bytes(bytes)),
    decreases bytes.len(),
{
    if bytes.len() > 0 {
        percent_bytes_is_encoded_text(bytes.drop_last());
        let b = bytes.last();
        assert(is_encoded_text(percent_byte(b)));
    }
}

/// The encoding of any text holds only ASCII letters, digits and `%`.
pub proof fn url_encoded_is_encoded_text(text: Seq<char>)
    ensures
        is_encoded_text(url_encoded(text)),
    decreases text.len(),
{
    if text.len() > 0 {
        url_encoded_is_encoded_text(text.drop_last());
        let c = text.last();
        if !(c == '+' || c == '-' || c == '.' || is_ascii_alphanumeric(c)) {
            percent_bytes_is_encoded_text(encode_scalar(c as u32));
        }
        assert(is_encoded_text(encode_char(c)));
    }
}

/// A text of ASCII letters and digits is its own encoding.
pub proof fn url_encoded_keeps_alphanumerics(text: Seq<char>)
    requires
        forall|i: int| 0 <= i < text.len() ==> is_ascii_alphanumeric(#[trigger] text[i]),
    ensures
        url_encoded(text) == text,
    decreases text.len(),
{
    if text.len() > 0 {
        url_encoded_keeps_alphanumerics(text.drop_last());
        assert(text == text.drop_last().push(text.last()));
        assert(url_encoded(text) =~= text.drop_last() + seq![text.last()]);
    }
}

/// The encoding of a text joined from two parts is the two encodings joined.
pub proof fn url_encoded_concat(first: Seq<char>, second: Seq<char>)
    ensures
        url_encoded(first + second) == url_encoded(first) + url_encoded(second),
    decreases second.len(),
{
    if second.len() == 0 {
        assert(first + second == first);
    } else {
        url_encoded_concat(first, second.drop_last());
        assert((first + second).drop_last() == first + second.drop_last());
        assert((first + second).last() == second.last());
    }
}

/// The characters with the Unicode property `White_Space`.
pub open spec fn is_whitespace(c: char) -> bool {
    let v = c as u32;
    ||| 0x09 <= v <= 0x0D
    ||| v == 0x20
    ||| v == 0x85
    ||| v == 0xA0
    ||| v == 0x1680
    ||| 0x2000 <= v <= 0x200A
    ||| v == 0x2028
    ||| v == 0x2029
    ||| v == 0x202F
    ||| v == 0x205F
    ||| v == 0x3000
}

/// How many whitespace characters `text` begins with.
pub open spec fn leading_whitespace(text: Seq<char>) -> nat
    decreases text.len(),
{
    if text.len() > 0 && is_whitespace(text[0]) {
        1 + leading_whitespace(text.drop_first())
    } else {
        0
    }
}

/// How many whitespace characters `text` ends with.
pub open spec fn trailing_whitespace(text: Seq<char>) -> nat
    decreases text.len(),
{
    if text.len() > 0 && is_whitespace(text.last()) {
        1 + trailing_whitespace(text.drop_last())
    } else {
        0
    }
}

/// `text` without the whitespace at its two ends.
pub open spec fn trimmed(text: Seq<char>) -> Seq<char> {
    let rest = text.skip(leading_whitespace(text) as int);
    rest.take(rest.len() - trailing_whitespace(rest))
}

/// The position of the first `#` or `?` of `text`, its length where it has none.
pub open spec fn query_start(text: Seq<char>) -> nat
    decreases text.len(),
{
    if text.len() == 0 || text[0] == '#' || text[0] == '?' {
        0
    } else {
        1 + query_start(text.drop_first())
    }
}

/// `text` up to its first `#` or `?`.
pub open spec fn without_query(text: Seq<char>) -> Seq<char> {
    text.take(query_start(text) as int)
}

/// `head` is `scheme`, then `://`, then a rest in which `://` does not occur again.
pub open spec fn has_scheme(head: Seq<char>, scheme: Seq<char>) -> bool {
    let opening = scheme + "://"@;
    has_prefix(head, opening) && !is_substring(head.skip(opening.len() as int), "://"@)
}

/// The URLs that a configuration may name: trimmed and cut before the first
/// `#` or `?`, the text is `http` or `https`, then `://`, then a rest that
/// holds no further `://`.
pub open spec fn is_http_url(url: Seq<char>) -> bool {
    let head = without_query(trimmed(url));
    has_scheme(head, "http"@) || has_scheme(head, "https"@)
}

/// The failure given for a text that is no such URL.
pub open spec fn invalid_url() -> ErrorView {
    ErrorView::Configuration {
        message: "Invalid URL"@,
        fix: "Please provide a valid URL starting with http:// or https://"@,
    }
}

/// Whether `c` has the Unicode property `White_Space`.
pub fn is_whitespace_char(c: char) -> (yes: bool)
    ensures
        yes == is_whitespace(c),
{
    let v: u32 = c as u32;
    (0x09 <= v && v <= 0x0D) || v == 0x20 || v == 0x85 || v == 0xA0 || v == 0x1680 || (0x2000 <= v
        && v <= 0x200A) || v == 0x2028 || v == 0x2029 || v == 0x202F || v == 0x205F || v == 0x3000
}

fn scheme_matches(head: &Vec<char>, scheme: &str) -> (yes: bool)
    ensures
        yes == has_scheme(head@, scheme@),
{
    let opening = chars_of(concat2(scheme, "://").as_str());
    let separator = chars_of("://");
    if !chars_occur_at(head, &opening, 0) {
        return false;
    }
    let rest = sub_chars(head, opening.len(), head.len());
    assert(head@.skip(opening.len() as int) == head@.subrange(
        opening.len() as int,
        head.len() as int,
    ));
    !chars_contain(&rest, &separator)
}

/// Checks that `url` is an absolute `http` or `https` URL.
pub fn parse_url(url: &str) -> (checked: Result<(), Error>)
    ensures
        checked is Ok <==> is_http_url(url@),
        checked matches Err(error) ==> error@ == invalid_url(),
{
    let chars = chars_of(url);
    let mut start: usize = 0;
    assert(chars@.skip(0) == chars@);
    while start < chars.len() && is_whitespace_char(chars[start])
        invariant
            start <= chars.len(),
            leading_whitespace(chars@) == start + leading_whitespace(chars@.skip(start as int)),
        decreases chars.len() - start,
    {
        assert(chars@.skip(start as int).drop_first() == chars@.skip(start + 1));
        start = start + 1;
    }
    let ghost rest = chars@.skip(start as int);
    let mut end: usize = chars.len();
    assert(rest == chars@.subrange(start as int, end as int));
    while end > start && is_whitespace_char(chars[end - 1])
        invariant
            start <= end <= chars.len(),
            rest == chars@.skip(start as int),
            trailing_whitespace(rest) == (chars.len() - end) + trailing_whitespace(
                chars@.subrange(start as int, end as int),
            ),
        decreases end,
    {
        assert(chars@.subrange(start as int, end as int).drop_last() == chars@.subrange(
            start as int,
            end - 1,
        ));
        end = end - 1;
    }
    assert(trimmed(chars@) == chars@.subrange(start as int, end as int));
    let mut cut: usize = start;
    assert(chars@.subrange(start as int, end as int).skip(0) == chars@.subrange(start as int, end as int));
    while cut < end && chars[cut] != '#' && chars[cut] != '?'
        invariant
            start <= cut <= end <= chars.len(),
            query_start(chars@.subrange(start as int, end as int)) == (cut - start) + query_start(
                chars@.subrange(cut as int, end as int),
            ),
        decreases end - cut,
    {
        assert(chars@.subrange(cut as int, end as int).drop_first() == chars@.subrange(
            cut + 1,
            end as int,
        ));
        cut = cut + 1;
    }
    let head = sub_chars(&chars, start, cut);
    assert(head@ == without_query(trimmed(url@)));
    if scheme_matches(&head, "http") || scheme_matches(&head, "https") {
        Ok(())
    } else {
        Err(
            Error::Configuration {
                message: owned("Invalid URL"),
                fix: owned("Please provide a valid URL starting with http:// or https://"),
            },
        )
    }
}

/// What a response to a request for JSON comes to: a failed request is
/// `FetchFailed` with the URL; a body that is no JSON text is
/// `LanguageServer` with the parser's words; any other body is its document.
pub open spec fn fetched_json(url: Seq<char>, response: Result<Seq<u8>, Seq<char>>) -> Result<
    Json,
    ErrorView,
> {
    match response {
        Err(error) => Err(ErrorView::FetchFailed { url, error }),
        Ok(body) => match parsed_json(body) {
            Ok(doc) => Ok(doc),
            Err(detail) => Err(
                ErrorView::LanguageServer("Failed to parse JSON response: "@ + detail),
            ),
        },
    }
}

/// The bytes or the failure of a response, as sequences.
pub open spec fn response_view(response: Result<Vec<u8>, String>) -> Result<Seq<u8>, Seq<char>> {
    match response {
        Ok(body) => Ok(body@),
        Err(error) => Err(error@),
    }
}

/// Reads the response to a GET request for `url` as a JSON document.
pub fn fetch_json(url: &str, response: &Result<Vec<u8>, String>) -> (fetched: Result<Json, Error>)
    ensures
        match fetched {
            Ok(doc) => fetched_json(url@, response_view(*response)) == Ok::<Json, ErrorView>(doc),
            Err(error) => fetched_json(url@, response_view(*response)) == Err::<Json, ErrorView>(
                error@,
            ),
        },
{
    match response {
        Err(error) => Err(Error::FetchFailed { url: owned(url), error: error.clone() }),
        Ok(body) => match Json::parse(body.as_slice()) {
            Ok(doc) => Ok(doc),
            Err(detail) => Err(
                Error::LanguageServer(concat2("Failed to parse JSON response: ", detail.as_str())),
            ),
        },
    }
}

/// The failure for a field that is absent or of another type.
pub open spec fn missing(field: Seq<char>) -> ErrorView {
    ErrorView::Missing { field }
}

/// The text of the string member `field` of `doc`.
pub open spec fn str_field(doc: Json, field: Seq<char>) -> Result<Seq<char>, ErrorView> {
    match doc.member(field) {
        Some(value) => match value.text() {
            Some(text) => Ok(text),
            None => Err(missing(field)),
        },
        None => Err(missing(field)),
    }
}

/// The object member `field` of `doc`.
pub open spec fn obj_field(doc: Json, field: Seq<char>) -> Result<Json, ErrorView> {
    match doc.member(field) {
        Some(value) => if value is Object {
            Ok(value)
        } else {
            Err(missing(field))
        },
        None => Err(missing(field)),
    }
}

/// The length of the first part of a dotted path: the characters before
/// its first `.`.
pub open spec fn part_len(path: Seq<char>) -> nat
    decreases path.len(),
{
    if path.len() == 0 || path[0] == '.' {
        0
    } else {
        1 + part_len(path.drop_first())
    }
}

/// The string at the dotted path that starts at `from` in `path`, looked up
/// from `doc` downwards. Each part names a member of the value reached so
/// far. The first part that names none fails with the path up to and
/// including that part; a value at the end that is no string fails with the
/// whole path.
pub open spec fn nested_str_from(doc: Json, path: Seq<char>, from: int) -> Result<
    Seq<char>,
    ErrorView,
>
    decreases path.len() - from,
{
    let end = from + part_len(path.skip(from));
    match doc.member(path.subrange(from, end)) {
        None => Err(missing(path.take(end))),
        Some(child) => if end >= path.len() {
            match child.text() {
                Some(text) => Ok(text),
                None => Err(missing(path)),
            }
        } else {
            nested_str_from(child, path, end + 1)
        },
    }
}

/// The string at the dotted `path` in `doc`.
pub open spec fn nested_str(doc: Json, path: Seq<char>) -> Result<Seq<char>, ErrorView> {
    nested_str_from(doc, path, 0)
}

/// Typed access to the fields of a JSON document.
pub trait JsonExt {
    /// Extracts a string field.
    fn get_str(&self, field: &str) -> Result<&str, Error>;

    /// Extracts a nested string field by a dotted path such as `parent.child`.
    fn get_nested_str(&self, path: &str) -> Result<&str, Error>;

    /// Extracts an object field.
    fn get_obj(&self, field: &str) -> Result<&Json, Error>;
}

impl JsonExt for Json {
    fn get_str(&self, field: &str) -> (found: Result<&str, Error>)
        ensures
            match found {
                Ok(text) => str_field(*self, field@) == Ok::<Seq<char>, ErrorView>(text@),
                Err(error) => str_field(*self, field@) == Err::<Seq<char>, ErrorView>(error@),
            },
    {
        match self.get(field) {
            Some(value) => match value.as_str() {
                Some(text) => Ok(text),
                None => Err(Error::Missing { field: owned(field) }),
            },
            None => Err(Error::Missing { field: owned(field) }),
        }
    }

    fn get_nested_str(&self, path: &str) -> (found: Result<&str, Error>)
        ensures
            match found {
                Ok(text) => nested_str(*self, path@) == Ok::<Seq<char>, ErrorView>(text@),
                Err(error) => nested_str(*self, path@) == Err::<Seq<char>, ErrorView>(error@),
            },
    {
        let chars = chars_of(path);
        let mut current: &Json = self;
        let mut from: usize = 0;
        loop
            invariant
                chars@ == path@,
                from <= chars.len(),
                nested_str(*self, path@) == nested_str_from(*current, path@, from as int),
            decreases chars.len() - from,
        {
            let mut end: usize = from;
            assert(chars@.skip(from as int).skip(0) == chars@.skip(from as int));
            while end < chars.len() && chars[end] != '.'
                invariant
                    from <= end <= chars.len(),
                    part_len(chars@.skip(from as int)) == (end - from) + part_len(
                        chars@.skip(end as int),
                    ),
                decreases chars.len() - end,
            {
                assert(chars@.skip(end as int).drop_first() == chars@.skip(end + 1));
                end = end + 1;
            }
            let key = string_of(&chars, from, end);
            match current.get(key.as_str()) {
                None => {
                    assert(chars@.take(end as int) == chars@.subrange(0, end as int));
                    return Err(Error::Missing { field: string_of(&chars, 0, end) });
                },
                Some(child) => {
                    if end >= chars.len() {
                        return match child.as_str() {
                            Some(text) => Ok(text),
                            None => Err(Error::Missing { field: owned(path) }),
                        };
                    }
                    current = child;
                    from = end + 1;
                },
            }
        }
    }

    fn get_obj(&self, field: &str) -> (found: Result<&Json, Error>)
        ensures
            match found {
                Ok(object) => obj_field(*self, field@) == Ok::<Json, ErrorView>(*object),
                Err(error) => obj_field(*self, field@) == Err::<Json, ErrorView>(error@),
            },
    {
        match self.get(field) {
            Some(value) => match value.as_object() {
                Some(object) => Ok(object),
                None => Err(Error::Missing { field: owned(field) }),
            },
            None => Err(Error::Missing { field: owned(field) }),
        }
    }
}

/// A path without a `.` names a member of the document itself: looking it
/// up as a nested string is looking up the string field of that name.
pub proof fn nested_str_of_one_part(doc: Json, field: Seq<char>)
    requires
        forall|i: int| 0 <= i < field.len() ==> #[trigger] field[i] != '.',
    ensures
        nested_str(doc, field) == str_field(doc, field),
{
    part_len_without_dot(field);
    assert(field.skip(0) == field);
    assert(field.subrange(0, field.len() as int) == field);
    assert(field.take(field.len() as int) == field);
}

/// A text without a `.` is one part.
pub proof fn part_len_without_dot(path: Seq<char>)
    requires
        forall|i: int| 0 <= i < path.len() ==> #[trigger] path[i] != '.',
    ensures
        part_len(path) == path.len(),
    decreases path.len(),
{
    if path.len() > 0 {
        let rest = path.drop_first();
        assert forall|i: int| 0 <= i < rest.len() implies #[trigger] rest[i] != '.' by {
            assert(rest[i] == path[i + 1]);
        }
        part_len_without_dot(rest);
    }
}

} // verus!
