//! The request normalizer: from a descriptor to what is sent, or to the error
//! that ends the call.

use crate::header::ascii_lower;
use crate::header::header_map_contains_key;
use crate::header::header_map_insert;
use crate::header::header_map_items;
use crate::header::header_map_len;
use crate::header::header_map_new;
use crate::header::header_map_try_insert;
use crate::header::header_name_from_str;
use crate::header::header_name_text;
use crate::header::header_value_bytes;
use crate::header::header_value_from_str;
use crate::header::header_values;
use crate::header::invalid_name_reason;
use crate::header::invalid_value_reason;
use crate::header::is_header_name;
use crate::header::is_header_value;
use crate::header::HeaderTable;
use crate::header::HEADER_MAP_ROOM;
use crate::laws::lemma_fault_unless_legal;
use crate::laws::lemma_included_count_bounded;
use crate::laws::lemma_rejected_unless_sendable;
use crate::model::header_views;
use crate::model::ErrorView;
use crate::model::HeaderView;
use crate::model::HttpClientError;
use crate::model::HttpHeader;
use crate::model::HttpMethod;
use crate::model::HttpRequest;
use crate::model::RequestView;
use crate::text::same_text;
use crate::text::starts_with;
use crate::text::str_to_uppercase;
use crate::text::uppercase_of;
use reqwest::header::HeaderMap;
use reqwest::header::HeaderName;
use reqwest::header::HeaderValue;
use vstd::prelude::*;
use vstd::string::StringExecFns;
use vstd::utf8::encode_utf8;

verus! {

/// Whether the URL names one of the two schemes that the core sends on.
pub open spec fn has_scheme(url: Seq<char>) -> bool {
    "http://"@.is_prefix_of(url) || "https://"@.is_prefix_of(url)
}

/// The URL that is requested: the given one where it names a scheme, else the
/// given one behind `http://`. The default is never `https://`: it spares the
/// user typing a scheme, and it is not a secure choice.
pub open spec fn effective_url(url: Seq<char>) -> Seq<char> {
    if has_scheme(url) {
        url
    } else {
        "http://"@ + url
    }
}

/// Whether a header of the descriptor takes part in the request.
pub open spec fn is_included(header: HeaderView) -> bool {
    header.enabled && header.key.len() > 0
}

/// The detail of the error that a header causes, if it causes one: its key
/// where the key is no legal name, else its value where that is not legal,
/// each followed by the reason.
pub open spec fn header_fault(header: HeaderView) -> Option<Seq<char>> {
    if !is_included(header) {
        None
    } else if !is_header_name(header.key) {
        Some(header.key + ": "@ + "invalid HTTP header name"@)
    } else if !is_header_value(header.value) {
        Some(header.value + ": "@ + "failed to parse header value"@)
    } else {
        None
    }
}

/// The fault of the first header that has one.
pub open spec fn first_fault(headers: Seq<HeaderView>) -> Option<Seq<char>>
    decreases headers.len(),
{
    if headers.len() == 0 {
        None
    } else {
        match header_fault(headers[0]) {
            Some(detail) => Some(detail),
            None => first_fault(headers.drop_first()),
        }
    }
}

/// The header table that the included headers fill, taken in order: each
/// puts its value under its lowered key, in place of what was there.
pub open spec fn chosen_headers(headers: Seq<HeaderView>) -> HeaderTable
    decreases headers.len(),
{
    if headers.len() == 0 {
        Map::empty()
    } else {
        let before = chosen_headers(headers.drop_last());
        let header = headers.last();
        if is_included(header) {
            before.insert(ascii_lower(header.key), seq![encode_utf8(header.value)])
        } else {
            before
        }
    }
}

/// The table with the default content type added, where there is a body and
/// no content type yet.
pub open spec fn with_default_content_type(
    table: HeaderTable,
    body: Seq<char>,
) -> HeaderTable {
    if body.len() > 0 && !table.dom().contains("content-type"@) {
        table.insert("content-type"@, seq![encode_utf8("application/json"@)])
    } else {
        table
    }
}

/// The method that an upper-case name stands for. A name that is none of the
/// seven stands for GET: the fallback is silent.
pub open spec fn method_named(upper: Seq<char>) -> HttpMethod {
    if upper == "POST"@ {
        HttpMethod::Post
    } else if upper == "PUT"@ {
        HttpMethod::Put
    } else if upper == "PATCH"@ {
        HttpMethod::Patch
    } else if upper == "DELETE"@ {
        HttpMethod::Delete
    } else if upper == "HEAD"@ {
        HttpMethod::Head
    } else if upper == "OPTIONS"@ {
        HttpMethod::Options
    } else {
        HttpMethod::Get
    }
}

/// Whether a request with this method carries a body.
pub open spec fn carries_body(method: HttpMethod) -> bool {
    method == HttpMethod::Post || method == HttpMethod::Put || method == HttpMethod::Patch
}

/// The body that goes out: the given one where it is not empty and the method
/// carries one.
pub open spec fn attached_body(method: HttpMethod, body: Seq<char>) -> Option<Seq<char>> {
    if body.len() > 0 && carries_body(method) {
        Some(body)
    } else {
        None
    }
}

/// The headers that take part in the request, in order.
pub open spec fn included_headers(headers: Seq<HeaderView>) -> Seq<HeaderView> {
    headers.filter(|h: HeaderView| is_included(h))
}

/// How many headers take part in the request. Each of them puts at most one
/// item in the header table; the others put none.
pub open spec fn included_count(headers: Seq<HeaderView>) -> nat {
    included_headers(headers).len()
}

/// Whether every header that takes part in the request is legal.
pub open spec fn headers_are_legal(headers: Seq<HeaderView>) -> bool {
    forall|i: int|
        0 <= i < headers.len() && is_included(#[trigger] headers[i]) ==> is_header_name(
            headers[i].key,
        ) && is_header_value(headers[i].value)
}

/// Whether the descriptor can be sent: it has a URL, and its headers are
/// legal.
pub open spec fn is_sendable(request: RequestView) -> bool {
    request.url.len() > 0 && headers_are_legal(request.headers)
}

/// The error that ends the call before anything is sent, if there is one.
pub open spec fn rejection(request: RequestView) -> Option<ErrorView> {
    if request.url.len() == 0 {
        Some(ErrorView::InvalidUrl("URL is required"@))
    } else {
        match first_fault(request.headers) {
            Some(detail) => Some(ErrorView::InvalidHeader(detail)),
            None => None,
        }
    }
}

/// A request that is ready to be sent.
#[derive(Debug)]
pub struct PreparedRequest {
    pub method: HttpMethod,
    pub url: String,
    pub headers: HeaderMap,
    /// The body to attach; `None` where none goes out.
    pub body: Option<String>,
}

/// What a contract sees of a `PreparedRequest`.
pub ghost struct PreparedView {
    pub method: HttpMethod,
    pub url: Seq<char>,
    pub headers: HeaderTable,
    pub body: Option<Seq<char>>,
}

impl View for PreparedRequest {
    type V = PreparedView;

    open spec fn view(&self) -> PreparedView {
        PreparedView {
            method: self.method,
            url: self.url@,
            headers: header_values(header_map_items(self.headers)),
            body: match self.body {
                Some(text) => Some(text@),
                None => None,
            },
        }
    }
}

/// What is sent for a descriptor that is not rejected, given its method name
/// in upper case.
pub open spec fn prepared(request: RequestView, upper: Seq<char>) -> PreparedView {
    PreparedView {
        method: method_named(upper),
        url: effective_url(request.url),
        headers: with_default_content_type(chosen_headers(request.headers), request.body),
        body: attached_body(method_named(upper), request.body),
    }
}

/// The method for a name that is already in upper case.
pub fn recognize_method(upper: &str) -> (method: HttpMethod)
    ensures
        method == method_named(upper@),
{
    if same_text(upper, "POST") {
        HttpMethod::Post
    } else if same_text(upper, "PUT") {
        HttpMethod::Put
    } else if same_text(upper, "PATCH") {
        HttpMethod::Patch
    } else if same_text(upper, "DELETE") {
        HttpMethod::Delete
    } else if same_text(upper, "HEAD") {
        HttpMethod::Head
    } else if same_text(upper, "OPTIONS") {
        HttpMethod::Options
    } else {
        HttpMethod::Get
    }
}

/// The method of a descriptor: its name is put in upper case and then
/// recognized.
pub fn normalize_method(method: &str) -> (recognized: HttpMethod)
    ensures
        recognized == method_named(uppercase_of(method@)),
{
    let upper = str_to_uppercase(method);
    recognize_method(upper.as_str())
}

/// The URL to request for the URL of a descriptor.
pub fn default_scheme(url: &str) -> (effective: String)
    ensures
        effective@ == effective_url(url@),
{
    if !starts_with(url, "http://") && !starts_with(url, "https://") {
        String::from_str("http://").concat(url)
    } else {
        url.to_owned()
    }
}

/// The body to send with a method.
pub fn attach_body(method: HttpMethod, body: &str) -> (attached: Option<String>)
    ensures
        match attached {
            Some(text) => attached_body(method, body@) == Some(text@),
            None => attached_body(method, body@) is None,
        },
{
    if !body.is_empty() && (method == HttpMethod::Post || method == HttpMethod::Put || method
        == HttpMethod::Patch) {
        Some(body.to_owned())
    } else {
        None
    }
}

/// The detail of a header error: the offending text, then the reason.
fn fault_detail(offending: &str, reason: &str) -> (detail: String)
    ensures
        detail@ == offending@ + ": "@ + reason@,
{
    let mut detail = offending.to_owned();
    detail.append(": ");
    detail.append(reason);
    detail
}

/// Counting one more header: the count grows by one where the header takes
/// part, and stays where it does not.
proof fn lemma_count_step(headers: Seq<HeaderView>, i: int)
    requires
        0 <= i < headers.len(),
    ensures
        included_count(headers.take(i + 1)) == included_count(headers.take(i)) + (if is_included(
            headers[i],
        ) {
            1nat
        } else {
            0nat
        }),
{
    reveal(Seq::filter);
    assert(headers.take(i + 1).drop_last() =~= headers.take(i));
    assert(headers.take(i + 1).last() == headers[i]);
}

/// Puts a header in the table, in place of what its name had. A table with
/// room for sure is given the header; a fuller one is asked whether it takes
/// it, and holds what it held where it does not.
fn put_in_table(table: &mut HeaderMap, name: HeaderName, value: HeaderValue) -> (taken: bool)
    ensures
        taken ==> header_values(header_map_items(*final(table))) == header_values(
            header_map_items(*old(table)),
        ).insert(header_name_text(name), seq![header_value_bytes(value)]),
        taken ==> header_map_items(*final(table)).len() <= header_map_items(*old(table)).len()
            + 1,
        !taken ==> header_map_items(*final(table)) == header_map_items(*old(table)),
        !taken ==> header_map_items(*old(table)).len() > HEADER_MAP_ROOM,
{
    if header_map_len(table) <= HEADER_MAP_ROOM {
        header_map_insert(table, name, value);
        true
    } else {
        header_map_try_insert(table, name, value)
    }
}

/// Validates the headers of a descriptor, all of them, and fills the header
/// table with those that take part. The result is the error of the first
/// header that is not legal, wherever it stands; else the table. Only where
/// the table refuses a header is there no result, `None`; it refuses none
/// while no more than `HEADER_MAP_ROOM` headers take part.
pub fn fill_headers(headers: &Vec<HttpHeader>) -> (r: Option<Result<HeaderMap, HttpClientError>>)
    ensures
        match first_fault(header_views(headers@)) {
            Some(detail) => r matches Some(Err(e)) && e@ == ErrorView::InvalidHeader(detail),
            None => match r {
                Some(Ok(table)) => {
                    &&& header_values(header_map_items(table)) == chosen_headers(
                        header_views(headers@),
                    )
                    &&& header_map_items(table).len() <= included_count(header_views(headers@))
                },
                Some(Err(_)) => false,
                None => included_count(header_views(headers@)) > HEADER_MAP_ROOM,
            },
        },
        r matches Some(Err(_)) <==> !headers_are_legal(header_views(headers@)),
        included_count(header_views(headers@)) <= HEADER_MAP_ROOM ==> r is Some,
{
    let ghost views = header_views(headers@);
    let mut table = header_map_new();
    let mut refused = false;
    let mut i: usize = 0;
    proof {
        reveal(Seq::filter);
        lemma_fault_unless_legal(views);
        assert(views.skip(0) =~= views);
        assert(views.take(0).len() == 0);
        assert(header_values(header_map_items(table)) =~= HeaderTable::empty());
    }
    while i < headers.len()
        invariant
            i <= headers.len(),
            views == header_views(headers@),
            first_fault(views) == first_fault(views.skip(i as int)),
            first_fault(views) is None <==> headers_are_legal(views),
            !refused ==> {
                &&& header_values(header_map_items(table)) == chosen_headers(
                    views.take(i as int),
                )
                &&& header_map_items(table).len() <= included_count(views.take(i as int))
            },
            refused ==> included_count(views.take(i as int)) > HEADER_MAP_ROOM,
        decreases headers.len() - i,
    {
        let header = &headers[i];
        proof {
            assert(views.skip(i as int)[0] == header@);
            assert(views.skip(i as int).drop_first() =~= views.skip(i as int + 1));
            assert(views.take(i as int + 1).drop_last() =~= views.take(i as int));
            assert(views.take(i as int + 1).last() == header@);
            lemma_count_step(views, i as int);
        }
        if header.enabled && !header.key.as_str().is_empty() {
            match header_name_from_str(header.key.as_str()) {
                Err(e) => {
                    let reason = invalid_name_reason(&e);
                    let detail = fault_detail(header.key.as_str(), reason.as_str());
                    return Some(Err(HttpClientError::InvalidHeader(detail)));
                },
                Ok(name) => match header_value_from_str(header.value.as_str()) {
                    Err(e) => {
                        let reason = invalid_value_reason(&e);
                        let detail = fault_detail(header.value.as_str(), reason.as_str());
                        return Some(Err(HttpClientError::InvalidHeader(detail)));
                    },
                    Ok(value) => {
                        // After a refusal there is no table to hand out; the
                        // headers that follow are still validated.
                        if !refused {
                            refused = !put_in_table(&mut table, name, value);
                        }
                    },
                },
            }
        }
        i += 1;
    }
    proof {
        assert(views.take(i as int) =~= views);
        assert(views.skip(i as int).len() == 0);
    }
    if refused {
        None
    } else {
        Some(Ok(table))
    }
}

/// Gives the table the default content type, `application/json`, where the
/// body is not empty and the table names no content type. A content type that
/// is there stays as it is. The result is `false` only where the table
/// refused the header.
pub(crate) fn apply_default_content_type(table: &mut HeaderMap, body: &str) -> (done: bool)
    ensures
        done ==> header_values(header_map_items(*final(table))) == with_default_content_type(
            header_values(header_map_items(*old(table))),
            body@,
        ),
        !done ==> header_map_items(*old(table)).len() > HEADER_MAP_ROOM,
{
    proof {
        reveal_strlit("content-type");
        reveal_strlit("application/json");
        assert(is_header_name("content-type"@));
        assert(is_header_value("application/json"@));
        assert(ascii_lower("content-type"@) =~= "content-type"@);
    }
    if !body.is_empty() && !header_map_contains_key(table, "content-type") {
        match header_name_from_str("content-type") {
            Ok(name) => match header_value_from_str("application/json") {
                Ok(value) => put_in_table(table, name, value),
                // Not reached: the default value is a legal header value.
                Err(_) => {
                    assert(false);
                    true
                },
            },
            // Not reached: the default name is a legal header name.
            Err(_) => {
                assert(false);
                true
            },
        }
    } else {
        true
    }
}

/// Normalizes a descriptor. An empty URL is rejected first, then the first
/// header that is not legal, wherever it stands in the list. A descriptor
/// that can be sent gives the request to send. Only where the header table
/// refuses a header is there no result, `None`; it refuses none while no
/// more than `HEADER_MAP_ROOM` headers take part.
pub fn prepare_request(request: &HttpRequest) -> (r: Option<
    Result<PreparedRequest, HttpClientError>,
>)
    ensures
        match rejection(request@) {
            Some(error) => r matches Some(Err(e)) && e@ == error,
            None => match r {
                Some(Ok(made)) => made@ == prepared(request@, uppercase_of(request@.method)),
                Some(Err(_)) => false,
                None => included_count(request@.headers) > HEADER_MAP_ROOM,
            },
        },
        request@.url.len() == 0 ==> (r matches Some(Err(e)) && e@ == ErrorView::InvalidUrl(
            "URL is required"@,
        )),
        r matches Some(Err(_)) <==> !is_sendable(request@),
        included_count(request@.headers) <= HEADER_MAP_ROOM ==> r is Some,
        request@.headers.len() <= HEADER_MAP_ROOM ==> r is Some,
{
    proof {
        lemma_rejected_unless_sendable(request@);
        lemma_included_count_bounded(request@.headers);
    }
    if request.url.as_str().is_empty() {
        return Some(Err(HttpClientError::InvalidUrl("URL is required".to_owned())));
    }
    let url = default_scheme(request.url.as_str());
    let mut headers = match fill_headers(&request.headers) {
        Some(Ok(table)) => table,
        Some(Err(e)) => {
            return Some(Err(e));
        },
        None => {
            return None;
        },
    };
    if !apply_default_content_type(&mut headers, request.body.as_str()) {
        return None;
    }
    let method = normalize_method(request.method.as_str());
    let body = attach_body(method, request.body.as_str());
    Some(Ok(PreparedRequest { method, url, headers, body }))
}

} // verus!
