//! Requests as values, and the header map that each of them carries.
//!
//! The header map is the one of the `http` crate, as `reqwest` hands it on.
//! Verus cannot look into it, so what it holds has a name here,
//! [`header_entries`], and the few operations that the client needs are
//! trusted wrappers that say what they do to that name.
use vstd::prelude::*;
use vstd::string::StringExecFns;
use vstd::utf8::encode_utf8;
use reqwest::header::{HeaderMap, HeaderName, HeaderValue, InvalidHeaderName, InvalidHeaderValue};
use crate::errors::{fails_with, Error, ErrorView};
use crate::responses::error_response::{error_views, ErrorResponse};
use crate::text::pairs;

verus! {

/// The header map of the `http` crate, taken as it is.
#[verifier::external_type_specification]
#[verifier::external_body]
#[verifier::reject_recursive_types(T)]
pub struct ExHeaderMap<T>(HeaderMap<T>);

/// A header name of the `http` crate, taken as it is.
#[verifier::external_type_specification]
#[verifier::external_body]
pub struct ExHeaderName(HeaderName);

/// A header value of the `http` crate, taken as it is.
#[verifier::external_type_specification]
#[verifier::external_body]
pub struct ExHeaderValue(HeaderValue);

/// The refusal of a header name by the `http` crate.
#[verifier::external_type_specification]
#[verifier::external_body]
pub struct ExInvalidHeaderName(InvalidHeaderName);

/// The refusal of a header value by the `http` crate.
#[verifier::external_type_specification]
#[verifier::external_body]
pub struct ExInvalidHeaderValue(InvalidHeaderValue);

/// The headers of a request: for each name, in lower case, its values in the
/// order in which they would be sent.
pub type Headers = Map<Seq<char>, Seq<Seq<u8>>>;

/// What a header map holds.
pub uninterp spec fn header_entries(map: HeaderMap) -> Headers;

/// The text of a header name, which is in lower case.
pub uninterp spec fn header_name_text(name: HeaderName) -> Seq<char>;

/// The bytes of a header value.
pub uninterp spec fn header_value_bytes(value: HeaderValue) -> Seq<u8>;

/// The most names that the client puts into one header map. The map of the
/// `http` crate refuses to grow beyond 32768 slots; one that never held more
/// names than this never asks for more than half of them.
pub const MAX_HEADER_NAMES: usize = 1024;

/// No header at all.
pub open spec fn no_headers() -> Headers {
    Map::empty()
}

/// Whether a character may stand in a header name.
pub open spec fn is_header_name_char(c: char) -> bool {
    let n = c as u32;
    ||| 0x61 <= n <= 0x7a
    ||| 0x41 <= n <= 0x5a
    ||| 0x30 <= n <= 0x39
    ||| c == '!'
    ||| c == '#'
    ||| c == '$'
    ||| c == '%'
    ||| c == '&'
    ||| c == '\''
    ||| c == '*'
    ||| c == '+'
    ||| c == '-'
    ||| c == '.'
    ||| c == '^'
    ||| c == '_'
    ||| c == '`'
    ||| c == '|'
    ||| c == '~'
}

/// An upper-case letter as its lower-case letter, any other character as it is.
pub open spec fn lower_header_char(c: char) -> char {
    if 0x41 <= c as u32 <= 0x5a {
        ((c as u32 + 0x20) as u8) as char
    } else {
        c
    }
}

/// Whether a text is accepted as a header name: between 1 and 65535
/// characters, each of which may stand in a header name. Such characters
/// take one byte each, so that the text has as many bytes as characters.
pub open spec fn valid_header_name(name: Seq<char>) -> bool {
    &&& 1 <= name.len() <= 65535
    &&& forall|i: int| 0 <= i < name.len() ==> is_header_name_char(#[trigger] name[i])
}

/// A header name as the map keys it: in lower case.
pub open spec fn normalized_header_name(name: Seq<char>) -> Seq<char> {
    Seq::new(name.len(), |i: int| lower_header_char(name[i]))
}

/// Whether a byte may stand in a header value: a tab, or anything from the
/// space upwards but the delete character.
pub open spec fn is_header_value_byte(b: u8) -> bool {
    (b >= 32 && b != 127) || b == 9
}

/// Whether a text is accepted as a header value: every byte of its UTF-8
/// form may stand in a header value.
pub open spec fn valid_header_value(value: Seq<char>) -> bool {
    forall|i: int|
        0 <= i < encode_utf8(value).len() ==> is_header_value_byte(#[trigger] encode_utf8(value)[i])
}

/// The headers `base` with one more header set: whatever `base` held under
/// that name is replaced by the one value.
pub open spec fn with_header(base: Headers, name: Seq<char>, value: Seq<char>) -> Headers {
    base.insert(normalized_header_name(name), seq![encode_utf8(value)])
}

/// `HeaderMap::new` of the `http` crate: the map that it makes is empty.
#[verifier::external_body]
pub(crate) fn new_header_map() -> (r: HeaderMap)
    ensures
        header_entries(r) == no_headers(),
{
    HeaderMap::new()
}

/// `HeaderName::from_str` of the `http` crate, reached through `str::parse`.
/// It accepts a text of 1 to 65535 bytes in which every byte is a letter, a
/// digit or one of the marks that its table lists, and turns upper-case
/// letters into lower case; it refuses every other text.
#[verifier::external_body]
fn parse_header_name(name: &str) -> (r: Result<HeaderName, InvalidHeaderName>)
    ensures
        r is Ok == valid_header_name(name@),
        r matches Ok(n) ==> header_name_text(n) == normalized_header_name(name@),
{
    name.parse::<HeaderName>()
}

/// `HeaderValue::from_str` of the `http` crate. It accepts a text whose
/// bytes are all at least 32 and not 127, or a tab, and keeps those bytes
/// as they are; it refuses every other text.
#[verifier::external_body]
fn parse_header_value(value: &str) -> (r: Result<HeaderValue, InvalidHeaderValue>)
    ensures
        r is Ok == valid_header_value(value@),
        r matches Ok(v) ==> header_value_bytes(v) == encode_utf8(value@),
{
    HeaderValue::from_str(value)
}

/// `HeaderMap::insert` of the `http` crate: the value becomes the only one
/// under the name, whatever the map held under it before. The call panics
/// when the map would have to grow beyond its largest size, which cannot
/// happen to a map that never held more than [`MAX_HEADER_NAMES`] names.
#[verifier::external_body]
fn insert_header(map: &mut HeaderMap, name: HeaderName, value: HeaderValue)
    requires
        header_entries(*old(map)).dom().finite(),
        header_entries(*old(map)).dom().len() < MAX_HEADER_NAMES,
    ensures
        header_entries(*final(map)) == header_entries(*old(map)).insert(
            header_name_text(name),
            seq![header_value_bytes(value)],
        ),
{
    map.insert(name, value);
}

/// `HeaderMap::remove` of the `http` crate, with the name as a text: every
/// value under the name, taken in lower case, leaves the map. A text that is
/// no header name leaves the map as it was.
#[verifier::external_body]
pub(crate) fn remove_header(map: &mut HeaderMap, name: &str)
    ensures
        valid_header_name(name@) ==> header_entries(*final(map)) == header_entries(
            *old(map),
        ).remove(normalized_header_name(name@)),
        !valid_header_name(name@) ==> header_entries(*final(map)) == header_entries(*old(map)),
{
    map.remove(name);
}

/// What goes wrong, if anything, when one header is set from texts: the name
/// is looked at first, then the value.
pub open spec fn header_fault(name: Seq<char>, value: Seq<char>) -> Option<ErrorView> {
    if !valid_header_name(name) {
        Some(ErrorView::TransportError("Invalid Header Name"@))
    } else if !valid_header_value(value) {
        Some(ErrorView::TransportError("Invalid Header Value"@))
    } else {
        None
    }
}

/// What goes wrong, if anything, when a list of headers is set in order: the
/// fault of the first header that has one.
pub open spec fn headers_fault(list: Seq<(Seq<char>, Seq<char>)>) -> Option<ErrorView>
    decreases list.len(),
{
    if list.len() == 0 {
        None
    } else if header_fault(list[0].0, list[0].1) is Some {
        header_fault(list[0].0, list[0].1)
    } else {
        headers_fault(list.drop_first())
    }
}

/// The headers `base` after each header of a list is set in order.
pub open spec fn with_headers(base: Headers, list: Seq<(Seq<char>, Seq<char>)>) -> Headers
    decreases list.len(),
{
    if list.len() == 0 {
        base
    } else {
        with_header(with_headers(base, list.drop_last()), list.last().0, list.last().1)
    }
}

/// Of the headers set under one name, the last is the only one that the
/// result holds under that name.
pub proof fn lemma_last_header_wins(base: Headers, list: Seq<(Seq<char>, Seq<char>)>, i: int)
    requires
        0 <= i < list.len(),
        forall|j: int|
            i < j < list.len() ==> normalized_header_name(#[trigger] list[j].0)
                != normalized_header_name(list[i].0),
    ensures
        with_headers(base, list).dom().contains(normalized_header_name(list[i].0)),
        with_headers(base, list)[normalized_header_name(list[i].0)] == seq![
            encode_utf8(list[i].1),
        ],
    decreases list.len(),
{
    if i < list.len() - 1 {
        let before = list.drop_last();
        assert(before[i] == list[i]);
        assert forall|j: int| i < j < before.len() implies normalized_header_name(
            #[trigger] before[j].0,
        ) != normalized_header_name(before[i].0) by {
            assert(before[j] == list[j]);
        }
        lemma_last_header_wins(base, before, i);
        assert(normalized_header_name(list[list.len() - 1].0) != normalized_header_name(
            list[i].0,
        ));
    }
}

/// Whether a character is printable ASCII or a tab.
pub open spec fn is_plain_char(c: char) -> bool {
    (' ' <= c && c <= '~') || c == '\t'
}

/// A text of printable ASCII characters and tabs is accepted as a header
/// value, and its bytes are its characters.
pub proof fn lemma_plain_text_is_header_value(value: Seq<char>)
    requires
        forall|i: int| 0 <= i < value.len() ==> is_plain_char(#[trigger] value[i]),
    ensures
        valid_header_value(value),
        encode_utf8(value).len() == value.len(),
{
    assert(vstd::utf8::is_ascii_chars(value)) by {
        assert forall|i: int| 0 <= i < value.len() implies '\0' <= #[trigger] value[i]
            <= '\u{7f}' by {
            assert(is_plain_char(value[i]));
        }
    }
    vstd::utf8::is_ascii_chars_encode_utf8(value);
    assert forall|i: int| 0 <= i < encode_utf8(value).len() implies is_header_value_byte(
        #[trigger] encode_utf8(value)[i],
    ) by {
        assert(is_plain_char(value[i]));
        assert(value[i] as u8 == encode_utf8(value)[i]);
    }
}

/// Sets one header whose name and value are known to be accepted.
pub(crate) fn set_header(map: &mut HeaderMap, name: &str, value: &str)
    requires
        valid_header_name(name@),
        valid_header_value(value@),
        header_entries(*old(map)).dom().finite(),
        header_entries(*old(map)).dom().len() < MAX_HEADER_NAMES,
    ensures
        header_entries(*final(map)) == with_header(header_entries(*old(map)), name@, value@),
{
    if let Ok(n) = parse_header_name(name) {
        if let Ok(v) = parse_header_value(value) {
            insert_header(map, n, v);
        }
    }
}

/// Sets one header from texts that a caller supplied. A header of the same
/// name, whatever its case, is replaced, never doubled. A name or a value
/// that is not accepted is reported, and the map stays as it was.
pub(crate) fn override_header(map: &mut HeaderMap, name: &str, value: &str) -> (r: Result<
    (),
    Error,
>)
    requires
        header_entries(*old(map)).dom().finite(),
        header_entries(*old(map)).dom().len() < MAX_HEADER_NAMES,
    ensures
        r is Ok == header_fault(name@, value@) is None,
        r is Ok ==> header_entries(*final(map)) == with_header(
            header_entries(*old(map)),
            name@,
            value@,
        ),
        r matches Err(e) ==> Some(e@) == header_fault(name@, value@) && header_entries(
            *final(map),
        ) == header_entries(*old(map)),
{
    let header_name = match parse_header_name(name) {
        Ok(n) => n,
        Err(_) => {
            return Err(Error::TransportError(String::from_str("Invalid Header Name")));
        },
    };
    let header_value = match parse_header_value(value) {
        Ok(v) => v,
        Err(_) => {
            return Err(Error::TransportError(String::from_str("Invalid Header Value")));
        },
    };
    remove_header(map, name);
    insert_header(map, header_name, header_value);
    assert(header_entries(*map) =~= with_header(header_entries(*old(map)), name@, value@));
    Ok(())
}

/// The verb of a request.
#[derive(Debug, Clone, Copy, PartialEq, Eq, Structural)]
pub enum Method {
    Get,
    Post,
    Put,
    Patch,
    Delete,
}

/// What a request carries in its body.
#[derive(Debug, Clone)]
pub enum Payload {
    /// Nothing.
    Empty,
    /// Fields, to be sent in the form encoding.
    Form(Vec<(String, String)>),
    /// The caller's own value, which the transport sends as JSON.
    Json,
    /// An object of text fields, which the transport sends as JSON.
    JsonObject(Vec<(String, String)>),
    /// Bytes, sent as they are.
    Raw(Vec<u8>),
    /// A text, sent as it is.
    Text(String),
}

/// What a [`Payload`] stands for.
pub enum PayloadView {
    Empty,
    Form(Seq<(Seq<char>, Seq<char>)>),
    Json,
    JsonObject(Seq<(Seq<char>, Seq<char>)>),
    Raw(Seq<u8>),
    Text(Seq<char>),
}

impl View for Payload {
    type V = PayloadView;

    open spec fn view(&self) -> PayloadView {
        match *self {
            Payload::Empty => PayloadView::Empty,
            Payload::Form(f) => PayloadView::Form(pairs(f@)),
            Payload::Json => PayloadView::Json,
            Payload::JsonObject(f) => PayloadView::JsonObject(pairs(f@)),
            Payload::Raw(b) => PayloadView::Raw(b@),
            Payload::Text(t) => PayloadView::Text(t@),
        }
    }
}

/// One call for the transport to make.
#[derive(Debug)]
pub struct Request {
    pub method: Method,
    pub url: String,
    pub headers: HeaderMap,
    /// The pairs of the query string, in order.
    pub query: Vec<(String, String)>,
    pub payload: Payload,
}

/// What a [`Request`] stands for.
pub struct RequestView {
    pub method: Method,
    pub url: Seq<char>,
    pub headers: Headers,
    pub query: Seq<(Seq<char>, Seq<char>)>,
    pub payload: PayloadView,
}

impl View for Request {
    type V = RequestView;

    open spec fn view(&self) -> RequestView {
        RequestView {
            method: self.method,
            url: self.url@,
            headers: header_entries(self.headers),
            query: pairs(self.query@),
            payload: self.payload@,
        }
    }
}

/// How the body of a reply is to be read.
#[derive(Debug, Clone, Copy, PartialEq, Eq, Structural)]
pub enum ReplyShape {
    /// As the shape that the call expects.
    Success,
    /// As an error, with which the call fails.
    Failure,
}

/// Whether a status code reports success: whether it lies in 200 to 299.
pub open spec fn is_success_status(status: u16) -> bool {
    200 <= status <= 299
}

/// Whether a status code reports success.
pub fn is_success(status: u16) -> (r: bool)
    ensures
        r == is_success_status(status),
{
    200 <= status && status <= 299
}

/// How the body of a reply with this status code is to be read.
pub fn classify(status: u16) -> (r: ReplyShape)
    ensures
        r == (if is_success_status(status) {
            ReplyShape::Success
        } else {
            ReplyShape::Failure
        }),
{
    if is_success(status) {
        ReplyShape::Success
    } else {
        ReplyShape::Failure
    }
}

/// The body of a reply, read as [`classify`] says.
#[derive(Debug)]
pub enum Decoded<T> {
    /// The shape that the call expects.
    Success(T),
    /// One error.
    Failure(ErrorResponse),
    /// A list of errors.
    Failures(Vec<ErrorResponse>),
}

/// What a call comes to once the body of its reply is read: the value of a
/// success, and for an error the failure that carries it.
pub fn outcome<T>(decoded: Decoded<T>) -> (r: Result<T, Error>)
    ensures
        decoded matches Decoded::Success(t) ==> r == Ok::<T, Error>(t),
        decoded matches Decoded::Failure(e) ==> fails_with(r, ErrorView::DescribeError(e@)),
        decoded matches Decoded::Failures(v) ==> fails_with(
            r,
            ErrorView::ErrorResponses(error_views(v@)),
        ),
{
    match decoded {
        Decoded::Success(t) => Ok(t),
        Decoded::Failure(e) => Err(Error::DescribeError(e)),
        Decoded::Failures(v) => Err(Error::ErrorResponses(v)),
    }
}

} // verus!
