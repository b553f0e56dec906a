//! The header types of the HTTP stack, and what this crate relies on of them.
//!
//! `reqwest::header` hands on the header module of the `http` crate. The types
//! stay opaque here: a contract speaks of a name's text, of a value's bytes and
//! of the items of a header table. The functions in the second half of this
//! file call into `http`; their contracts state what its source shows and are
//! not proved.

use reqwest::header::HeaderMap;
use reqwest::header::HeaderName;
use reqwest::header::HeaderValue;
use reqwest::header::InvalidHeaderName;
use reqwest::header::InvalidHeaderValue;
use reqwest::header::ToStrError;
use vstd::prelude::*;
use vstd::utf8::encode_utf8;

verus! {

/// The longest header name, in bytes, that `http` accepts.
pub const MAX_HEADER_NAME_LEN: usize = 65535;

/// While a header table holds at most this many items, it takes one more
/// name for sure. `http` sizes its index in powers of two up to 32768 slots
/// and doubles it when three quarters are taken, or, when names collide
/// often, when a fifth is taken; an insertion that would double past 32768
/// is refused by `try_insert` and panics in `insert`. With 6553 items or
/// fewer no doubling goes past 32768. A fuller table may still take a name:
/// that is for the table to say.
pub const HEADER_MAP_ROOM: usize = 6553;

/// A character of an HTTP token: a letter, a digit, or one of
/// ``! # $ % & ' * + - . ^ _ ` | ~``.
pub open spec fn is_name_char(c: char) -> bool {
    ||| 'a' <= c <= 'z'
    ||| 'A' <= c <= 'Z'
    ||| '0' <= c <= '9'
    ||| c == '!'
    ||| c == '#'
    ||| c == '$'
    ||| c == '%'
    ||| c == '&'
    ||| c == '\''
    ||| c == '*'
    ||| c == '+'
    ||| c == '-'
    ||| c == '.'
    ||| c == '^'
    ||| c == '_'
    ||| c == '`'
    ||| c == '|'
    ||| c == '~'
}

/// A legal header field name: a token of 1 to 65535 characters.
pub open spec fn is_header_name(s: Seq<char>) -> bool {
    &&& 1 <= s.len() <= MAX_HEADER_NAME_LEN
    &&& forall|i: int| 0 <= i < s.len() ==> is_name_char(#[trigger] s[i])
}

/// An ASCII capital becomes its small letter; any other character stays.
pub open spec fn lower_char(c: char) -> char {
    if 'A' <= c <= 'Z' {
        ((c as u8) + 32) as char
    } else {
        c
    }
}

/// The text with each ASCII capital replaced by its small letter.
pub open spec fn ascii_lower(s: Seq<char>) -> Seq<char> {
    Seq::new(s.len(), |i: int| lower_char(s[i]))
}

/// A character that a header value written as text may hold: a tab, or any
/// character from the space on but DEL.
pub open spec fn is_value_char(c: char) -> bool {
    (c as u32 >= 32 && c as u32 != 127) || c == '\t'
}

/// A legal header field value, written as text.
pub open spec fn is_header_value(s: Seq<char>) -> bool {
    forall|i: int| 0 <= i < s.len() ==> is_value_char(#[trigger] s[i])
}

/// A byte of visible ASCII: a tab, or a byte from the space up to `~`.
pub open spec fn is_visible_byte(b: u8) -> bool {
    (32 <= b < 127) || b == 9
}

/// The bytes read as text, where each of them is visible ASCII; `None` where
/// one is not.
pub open spec fn visible_text(bytes: Seq<u8>) -> Option<Seq<char>> {
    if forall|i: int| 0 <= i < bytes.len() ==> is_visible_byte(#[trigger] bytes[i]) {
        Some(Seq::new(bytes.len(), |i: int| bytes[i] as char))
    } else {
        None
    }
}

/// One item of a header table: a name and the bytes of one of its values.
pub type HeaderItem = (Seq<char>, Seq<u8>);

/// The values that `items` holds under `name`, in the order of `items`.
pub open spec fn values_of(items: Seq<HeaderItem>, name: Seq<char>) -> Seq<Seq<u8>> {
    items.filter(|item: HeaderItem| item.0 == name).map_values(|item: HeaderItem| item.1)
}

/// What a header table holds, by name: each name with its values in order.
pub type HeaderTable = Map<Seq<char>, Seq<Seq<u8>>>;

/// The items as a map from each name that occurs to its values.
pub open spec fn header_values(items: Seq<HeaderItem>) -> HeaderTable {
    Map::new(
        |name: Seq<char>| exists|i: int| 0 <= i < items.len() && (#[trigger] items[i]).0 == name,
        |name: Seq<char>| values_of(items, name),
    )
}

/// `http::header::HeaderMap`: a multimap from header names to values.
#[verifier::external_type_specification]
#[verifier::external_body]
#[verifier::reject_recursive_types(T)]
pub struct ExHeaderMap<T>(HeaderMap<T>);

/// `http::header::HeaderName`: a validated, lower-case header name.
#[verifier::external_type_specification]
#[verifier::external_body]
pub struct ExHeaderName(HeaderName);

/// `http::header::HeaderValue`: a validated header value, held as bytes.
#[verifier::external_type_specification]
#[verifier::external_body]
pub struct ExHeaderValue(HeaderValue);

/// `http::header::InvalidHeaderName`: the error of a refused header name.
#[verifier::external_type_specification]
#[verifier::external_body]
pub struct ExInvalidHeaderName(InvalidHeaderName);

/// `http::header::InvalidHeaderValue`: the error of a refused header value.
#[verifier::external_type_specification]
#[verifier::external_body]
pub struct ExInvalidHeaderValue(InvalidHeaderValue);

/// `http::header::ToStrError`: the error of a value that is not text.
#[verifier::external_type_specification]
#[verifier::external_body]
pub struct ExToStrError(ToStrError);

/// The text of a header name: what `HeaderName::as_str` returns.
pub uninterp spec fn header_name_text(name: HeaderName) -> Seq<char>;

/// The bytes of a header value: what `HeaderValue::as_bytes` returns.
pub uninterp spec fn header_value_bytes(value: HeaderValue) -> Seq<u8>;

/// The items of a header table in the order in which `HeaderMap::iter` yields
/// them: each name once for each of its values.
pub uninterp spec fn header_map_items(map: HeaderMap) -> Seq<HeaderItem>;

/// `HeaderName::try_from(&str)`. The source accepts a name of 1 to 65535 bytes
/// whose every byte its table of token characters maps to a non-zero byte, and
/// stores what the table maps to: the capitals as small letters, the rest as
/// it is.
#[verifier::external_body]
pub(crate) fn header_name_from_str(key: &str) -> (r: Result<HeaderName, InvalidHeaderName>)
    ensures
        match r {
            Ok(name) => is_header_name(key@) && header_name_text(name) == ascii_lower(key@),
            Err(_) => !is_header_name(key@),
        },
{
    HeaderName::try_from(key)
}

/// `HeaderValue::try_from(&str)`. The source accepts the text where each of its
/// bytes is a tab or at least 32 and not 127, and stores the bytes of the text.
#[verifier::external_body]
pub(crate) fn header_value_from_str(value: &str) -> (r: Result<HeaderValue, InvalidHeaderValue>)
    ensures
        match r {
            Ok(v) => is_header_value(value@) && header_value_bytes(v) == encode_utf8(value@),
            Err(_) => !is_header_value(value@),
        },
{
    HeaderValue::try_from(value)
}

/// `Display` of `InvalidHeaderName`, which writes one fixed sentence.
#[verifier::external_body]
pub(crate) fn invalid_name_reason(error: &InvalidHeaderName) -> (reason: String)
    ensures
        reason@ == "invalid HTTP header name"@,
{
    error.to_string()
}

/// `Display` of `InvalidHeaderValue`, which writes one fixed sentence.
#[verifier::external_body]
pub(crate) fn invalid_value_reason(error: &InvalidHeaderValue) -> (reason: String)
    ensures
        reason@ == "failed to parse header value"@,
{
    error.to_string()
}

/// `HeaderName::as_str`.
#[verifier::external_body]
pub(crate) fn header_name_as_str(name: &HeaderName) -> (text: &str)
    ensures
        text@ == header_name_text(*name),
{
    name.as_str()
}

/// `HeaderValue::to_str`. The source yields the bytes as text where each byte
/// is a tab or from 32 to 126, and an error otherwise.
#[verifier::external_body]
pub(crate) fn header_value_to_str(value: &HeaderValue) -> (r: Result<&str, ToStrError>)
    ensures
        match r {
            Ok(text) => visible_text(header_value_bytes(*value)) == Some(text@),
            Err(_) => visible_text(header_value_bytes(*value)) is None,
        },
{
    value.to_str()
}

/// `HeaderMap::new`: a table without items.
#[verifier::external_body]
pub(crate) fn header_map_new() -> (map: HeaderMap)
    ensures
        header_map_items(map) == Seq::<HeaderItem>::empty(),
{
    HeaderMap::new()
}

/// `HeaderMap::insert` with a `HeaderName` as the key. Afterwards the name has
/// the one value given, whatever it had before; the other names keep their
/// values. The call panics where the table cannot grow, which `requires`
/// leaves out (see `HEADER_MAP_ROOM`).
#[verifier::external_body]
pub(crate) fn header_map_insert(map: &mut HeaderMap, name: HeaderName, value: HeaderValue)
    requires
        header_map_items(*old(map)).len() <= HEADER_MAP_ROOM,
    ensures
        header_values(header_map_items(*final(map))) == header_values(
            header_map_items(*old(map)),
        ).insert(header_name_text(name), seq![header_value_bytes(value)]),
        header_map_items(*final(map)).len() <= header_map_items(*old(map)).len() + 1,
{
    map.insert(name, value);
}

/// `HeaderMap::try_insert` with a `HeaderName` as the key, and whether the
/// table took the header. Where it did, the table is as after `insert`. Where
/// it did not, the table could not grow, and it holds what it held. A table
/// of at most `HEADER_MAP_ROOM` items always takes one more.
#[verifier::external_body]
pub(crate) fn header_map_try_insert(
    map: &mut HeaderMap,
    name: HeaderName,
    value: HeaderValue,
) -> (taken: bool)
    ensures
        taken ==> header_values(header_map_items(*final(map))) == header_values(
            header_map_items(*old(map)),
        ).insert(header_name_text(name), seq![header_value_bytes(value)]),
        taken ==> header_map_items(*final(map)).len() <= header_map_items(*old(map)).len() + 1,
        !taken ==> header_map_items(*final(map)) == header_map_items(*old(map)),
        header_map_items(*old(map)).len() <= HEADER_MAP_ROOM ==> taken,
{
    map.try_insert(name, value).is_ok()
}

/// `HeaderMap::len`: the number of items, each value counted.
#[verifier::external_body]
pub(crate) fn header_map_len(map: &HeaderMap) -> (n: usize)
    ensures
        n == header_map_items(*map).len(),
{
    map.len()
}

/// `HeaderMap::contains_key` with a `&str` as the key. The source lowers the
/// key as it does for a new name and looks that name up.
#[verifier::external_body]
pub(crate) fn header_map_contains_key(map: &HeaderMap, key: &str) -> (found: bool)
    requires
        is_header_name(key@),
    ensures
        found == header_values(header_map_items(*map)).dom().contains(ascii_lower(key@)),
{
    map.contains_key(key)
}

/// `HeaderMap::iter`, collected: the items in the order of the iterator.
#[verifier::external_body]
pub(crate) fn header_map_iter<'a>(map: &'a HeaderMap) -> (items: Vec<
    (&'a HeaderName, &'a HeaderValue),
>)
    ensures
        items@.len() == header_map_items(*map).len(),
        forall|i: int|
            0 <= i < items@.len() ==> header_map_items(*map)[i] == (
                header_name_text(*(#[trigger] items@[i]).0),
                header_value_bytes(*items@[i].1),
            ),
{
    map.iter().collect()
}

} // verus!
