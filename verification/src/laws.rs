//! What holds of the core for every input, proved from the definitions that
//! its contracts use.

use crate::format::formatted_body;
use crate::format::printed_json;
use crate::header::ascii_lower;
use crate::header::is_header_name;
use crate::header::is_header_value;
use crate::header::visible_text;
use crate::header::HeaderItem;
use crate::header::HeaderTable;
use crate::model::ErrorView;
use crate::model::HeaderView;
use crate::model::HttpMethod;
use crate::model::RequestView;
use crate::normalize::attached_body;
use crate::normalize::chosen_headers;
use crate::normalize::effective_url;
use crate::normalize::first_fault;
use crate::normalize::has_scheme;
use crate::normalize::header_fault;
use crate::normalize::headers_are_legal;
use crate::normalize::included_count;
use crate::normalize::included_headers;
use crate::normalize::is_included;
use crate::normalize::is_sendable;
use crate::normalize::method_named;
use crate::normalize::prepared;
use crate::normalize::rejection;
use crate::normalize::with_default_content_type;
use crate::response::collected_headers;
use crate::response::reported_millis;
use vstd::prelude::*;
use vstd::utf8::encode_utf8;

verus! {

/// A descriptor with an empty URL is rejected as an invalid URL, whatever its
/// method, headers and body are.
pub proof fn lemma_empty_url_is_rejected(request: RequestView)
    requires
        request.url.len() == 0,
    ensures
        rejection(request) == Some(ErrorView::InvalidUrl("URL is required"@)),
{
}

/// The header error of a descriptor is that of its earliest header that is
/// not legal.
pub proof fn lemma_first_fault_is_earliest(headers: Seq<HeaderView>, i: int)
    requires
        0 <= i < headers.len(),
        header_fault(headers[i]) is Some,
        forall|j: int| 0 <= j < i ==> header_fault(#[trigger] headers[j]) is None,
    ensures
        first_fault(headers) == header_fault(headers[i]),
    decreases i,
{
    if i > 0 {
        let rest = headers.drop_first();
        assert(rest[i - 1] == headers[i]);
        assert forall|j: int| 0 <= j < i - 1 implies header_fault(#[trigger] rest[j]) is None by {
            assert(rest[j] == headers[j + 1]);
        }
        lemma_first_fault_is_earliest(rest, i - 1);
    }
}

/// A list of headers has no fault exactly if each header that is enabled and
/// has a key is legal in name and value.
pub proof fn lemma_fault_unless_legal(headers: Seq<HeaderView>)
    ensures
        first_fault(headers) is None <==> headers_are_legal(headers),
    decreases headers.len(),
{
    if headers.len() > 0 {
        let rest = headers.drop_first();
        lemma_fault_unless_legal(rest);
        if headers_are_legal(headers) {
            assert forall|i: int| 0 <= i < rest.len() && is_included(#[trigger] rest[i]) implies
                is_header_name(rest[i].key) && is_header_value(rest[i].value) by {
                assert(rest[i] == headers[i + 1]);
            }
        }
        if first_fault(headers) is None {
            assert forall|i: int|
                0 <= i < headers.len() && is_included(#[trigger] headers[i]) implies is_header_name(
                headers[i].key,
            ) && is_header_value(headers[i].value) by {
                if i > 0 {
                    assert(rest[i - 1] == headers[i]);
                }
            }
        }
    }
}

/// A descriptor is rejected exactly if it cannot be sent: for want of a URL,
/// or for a header that is not legal.
pub proof fn lemma_rejected_unless_sendable(request: RequestView)
    ensures
        rejection(request) is None <==> is_sendable(request),
{
    lemma_fault_unless_legal(request.headers);
}

/// A URL that names no scheme is requested with `http://` before it, and a
/// URL that names one is requested as it is.
pub proof fn lemma_scheme_defaults_to_http(url: Seq<char>)
    ensures
        !has_scheme(url) ==> effective_url(url) == "http://"@ + url,
        has_scheme(url) ==> effective_url(url) == url,
{
}

/// A name is in the table of the chosen headers exactly if a header that is
/// enabled and has a key carries it, capitals lowered.
pub proof fn lemma_names_come_from_included_headers(headers: Seq<HeaderView>, name: Seq<char>)
    ensures
        chosen_headers(headers).dom().contains(name) <==> exists|i: int|
            0 <= i < headers.len() && is_included(#[trigger] headers[i]) && ascii_lower(
                headers[i].key,
            ) == name,
    decreases headers.len(),
{
    if headers.len() > 0 {
        let front = headers.drop_last();
        lemma_names_come_from_included_headers(front, name);
        if chosen_headers(headers).dom().contains(name) {
            if is_included(headers.last()) && ascii_lower(headers.last().key) == name {
                assert(headers[headers.len() - 1] == headers.last());
            } else {
                let i = choose|i: int|
                    0 <= i < front.len() && is_included(#[trigger] front[i]) && ascii_lower(
                        front[i].key,
                    ) == name;
                assert(headers[i] == front[i]);
            }
        }
        if exists|i: int|
            0 <= i < headers.len() && is_included(#[trigger] headers[i]) && ascii_lower(
                headers[i].key,
            ) == name {
            let i = choose|i: int|
                0 <= i < headers.len() && is_included(#[trigger] headers[i]) && ascii_lower(
                    headers[i].key,
                ) == name;
            if i < front.len() {
                assert(front[i] == headers[i]);
            }
        }
    }
}

/// Headers that are disabled or have no key never reach the table: it is the
/// table of the descriptor without them.
pub proof fn lemma_excluded_headers_have_no_effect(headers: Seq<HeaderView>)
    ensures
        chosen_headers(headers) == chosen_headers(included_headers(headers)),
    decreases headers.len(),
{
    reveal(Seq::filter);
    if headers.len() > 0 {
        let front = headers.drop_last();
        lemma_excluded_headers_have_no_effect(front);
        if is_included(headers.last()) {
            assert(included_headers(headers).drop_last() =~= included_headers(front));
        }
    }
}

/// No more headers take part in a request than the descriptor lists, so a
/// list of at most `HEADER_MAP_ROOM` headers is within the room of the table
/// whatever it holds.
pub proof fn lemma_included_count_bounded(headers: Seq<HeaderView>)
    ensures
        included_count(headers) <= headers.len(),
        included_count(headers) == headers.len() <==> forall|i: int|
            0 <= i < headers.len() ==> is_included(#[trigger] headers[i]),
    decreases headers.len(),
{
    reveal(Seq::filter);
    if headers.len() > 0 {
        let front = headers.drop_last();
        lemma_included_count_bounded(front);
        assert(headers[headers.len() - 1] == headers.last());
        if forall|i: int| 0 <= i < headers.len() ==> is_included(#[trigger] headers[i]) {
            assert forall|i: int| 0 <= i < front.len() implies is_included(#[trigger] front[i]) by {
                assert(front[i] == headers[i]);
            }
        }
        if included_count(headers) == headers.len() {
            assert forall|i: int| 0 <= i < headers.len() implies is_included(
                #[trigger] headers[i],
            ) by {
                if i < front.len() {
                    assert(front[i] == headers[i]);
                }
            }
        }
    }
}

/// A descriptor with a URL is rejected for a header exactly if a header that
/// is enabled and has a key is not legal, however long its header list is;
/// the error is that of the earliest such header. Headers that are disabled
/// or have no key are not validated and cause no error.
pub proof fn lemma_illegal_header_is_reported(request: RequestView)
    requires
        request.url.len() > 0,
    ensures
        !headers_are_legal(request.headers) <==> (rejection(request) matches Some(
            ErrorView::InvalidHeader(_),
        )),
        forall|i: int|
            0 <= i < request.headers.len() && !is_included(#[trigger] request.headers[i])
                ==> header_fault(request.headers[i]) is None,
        first_fault(request.headers) matches Some(detail) ==> rejection(request) == Some(
            ErrorView::InvalidHeader(detail),
        ),
{
    lemma_fault_unless_legal(request.headers);
}

/// Where several included headers lower to one name, the last of them gives
/// the value: a header holds its name alone if no included header after it
/// has that name.
pub proof fn lemma_last_included_header_wins(headers: Seq<HeaderView>, i: int)
    requires
        0 <= i < headers.len(),
        is_included(headers[i]),
        forall|j: int|
            i < j < headers.len() && is_included(#[trigger] headers[j]) ==> ascii_lower(
                headers[j].key,
            ) != ascii_lower(headers[i].key),
    ensures
        chosen_headers(headers).dom().contains(ascii_lower(headers[i].key)),
        chosen_headers(headers)[ascii_lower(headers[i].key)] == seq![
            encode_utf8(headers[i].value),
        ],
    decreases headers.len(),
{
    if i < headers.len() - 1 {
        let front = headers.drop_last();
        assert(front[i] == headers[i]);
        assert forall|j: int| i < j < front.len() && is_included(#[trigger] front[j]) implies
            ascii_lower(front[j].key) != ascii_lower(front[i].key) by {
            assert(front[j] == headers[j]);
        }
        lemma_last_included_header_wins(front, i);
        assert(headers[headers.len() - 1] == headers.last());
    }
}

/// With a body and no content type among its headers, a request goes out with
/// the content type `application/json`. A content type that the headers give
/// stays as it is, and without a body none is added.
pub proof fn lemma_default_content_type(table: HeaderTable, body: Seq<char>)
    ensures
        body.len() > 0 && !table.dom().contains("content-type"@) ==> {
            &&& with_default_content_type(table, body).dom().contains("content-type"@)
            &&& with_default_content_type(table, body)["content-type"@] == seq![
                encode_utf8("application/json"@),
            ]
        },
        table.dom().contains("content-type"@) ==> with_default_content_type(table, body) == table,
        body.len() == 0 ==> with_default_content_type(table, body) == table,
        forall|name: Seq<char>|
            name != "content-type"@ ==> (with_default_content_type(table, body).dom().contains(
                name,
            ) <==> table.dom().contains(name)),
{
}

/// A request with a body goes out with the content type `application/json`
/// where no header that is enabled and has a key names a content type, in
/// whatever case.
pub proof fn lemma_body_gets_json_content_type(request: RequestView, upper: Seq<char>)
    requires
        request.body.len() > 0,
        forall|i: int|
            0 <= i < request.headers.len() && is_included(#[trigger] request.headers[i])
                ==> ascii_lower(request.headers[i].key) != "content-type"@,
    ensures
        prepared(request, upper).headers.dom().contains("content-type"@),
        prepared(request, upper).headers["content-type"@] == seq![
            encode_utf8("application/json"@),
        ],
{
    lemma_names_come_from_included_headers(request.headers, "content-type"@);
}

/// A content type that the descriptor gives goes out unchanged: the value of
/// the last included header that names one, whether there is a body or not.
pub proof fn lemma_explicit_content_type_is_kept(request: RequestView, upper: Seq<char>, i: int)
    requires
        0 <= i < request.headers.len(),
        is_included(request.headers[i]),
        ascii_lower(request.headers[i].key) == "content-type"@,
        forall|j: int|
            i < j < request.headers.len() && is_included(#[trigger] request.headers[j])
                ==> ascii_lower(request.headers[j].key) != "content-type"@,
    ensures
        prepared(request, upper).headers.dom().contains("content-type"@),
        prepared(request, upper).headers["content-type"@] == seq![
            encode_utf8(request.headers[i].value),
        ],
{
    lemma_last_included_header_wins(request.headers, i);
}

/// GET, HEAD, DELETE and OPTIONS never carry a body, however long the body
/// of the descriptor is. POST, PUT and PATCH carry a body that is not empty
/// exactly as it is given.
pub proof fn lemma_body_follows_method(method: HttpMethod, body: Seq<char>)
    ensures
        method == HttpMethod::Get || method == HttpMethod::Head || method == HttpMethod::Delete
            || method == HttpMethod::Options ==> attached_body(method, body) is None,
        (method == HttpMethod::Post || method == HttpMethod::Put || method == HttpMethod::Patch)
            && body.len() > 0 ==> attached_body(method, body) == Some(body),
        body.len() == 0 ==> attached_body(method, body) is None,
{
}

/// A method name that is none of the seven known names stands for GET.
pub proof fn lemma_unknown_method_is_get(upper: Seq<char>)
    requires
        upper != "GET"@,
        upper != "POST"@,
        upper != "PUT"@,
        upper != "PATCH"@,
        upper != "DELETE"@,
        upper != "HEAD"@,
        upper != "OPTIONS"@,
    ensures
        method_named(upper) == HttpMethod::Get,
{
}

/// Every header name of a prepared request is the default content type or
/// comes from a header that is enabled and has a key.
pub proof fn lemma_outgoing_names(request: RequestView, upper: Seq<char>, name: Seq<char>)
    requires
        prepared(request, upper).headers.dom().contains(name),
    ensures
        name == "content-type"@ || exists|i: int|
            0 <= i < request.headers.len() && is_included(#[trigger] request.headers[i])
                && ascii_lower(request.headers[i].key) == name,
{
    lemma_names_come_from_included_headers(request.headers, name);
}

/// A name is among the reported response headers exactly if the transport
/// gave it with a value that is text.
pub proof fn lemma_reported_names(items: Seq<HeaderItem>, name: Seq<char>)
    ensures
        collected_headers(items).dom().contains(name) <==> exists|i: int|
            0 <= i < items.len() && (#[trigger] items[i]).0 == name && visible_text(items[i].1)
                is Some,
    decreases items.len(),
{
    if items.len() > 0 {
        let front = items.drop_last();
        lemma_reported_names(front, name);
        if collected_headers(items).dom().contains(name) {
            if items.last().0 == name && visible_text(items.last().1) is Some {
                assert(items[items.len() - 1] == items.last());
            } else {
                let i = choose|i: int|
                    0 <= i < front.len() && (#[trigger] front[i]).0 == name && visible_text(
                        front[i].1,
                    ) is Some;
                assert(items[i] == front[i]);
            }
        }
        if exists|i: int|
            0 <= i < items.len() && (#[trigger] items[i]).0 == name && visible_text(items[i].1)
                is Some {
            let i = choose|i: int|
                0 <= i < items.len() && (#[trigger] items[i]).0 == name && visible_text(
                    items[i].1,
                ) is Some;
            if i < front.len() {
                assert(front[i] == items[i]);
            }
        }
    }
}

/// Where the transport gives a header name several times, the reported value
/// is the last one that is text: an item gives the value of its name if no
/// later item of that name has a value that is text.
pub proof fn lemma_last_value_wins(items: Seq<HeaderItem>, i: int)
    requires
        0 <= i < items.len(),
        visible_text(items[i].1) is Some,
        forall|j: int|
            i < j < items.len() && (#[trigger] items[j]).0 == items[i].0 ==> visible_text(
                items[j].1,
            ) is None,
    ensures
        collected_headers(items).dom().contains(items[i].0),
        Some(collected_headers(items)[items[i].0]) == visible_text(items[i].1),
    decreases items.len(),
{
    if i < items.len() - 1 {
        let front = items.drop_last();
        assert(front[i] == items[i]);
        assert forall|j: int| i < j < front.len() && (#[trigger] front[j]).0 == front[i].0 implies
            visible_text(front[j].1) is None by {
            assert(front[j] == items[j]);
        }
        lemma_last_value_wins(front, i);
        assert(items[items.len() - 1] == items.last());
    }
}

/// The reported time is the elapsed time in milliseconds wherever 32 bits
/// hold that number, which is for any call shorter than 49 days.
pub proof fn lemma_reported_millis_exact(elapsed_millis: u128)
    requires
        elapsed_millis <= u32::MAX,
    ensures
        reported_millis(elapsed_millis) == elapsed_millis,
{
}

/// A body that is empty or is no JSON is shown as it is, so formatting what
/// is shown changes nothing.
pub proof fn lemma_unparsed_body_is_settled(raw: Seq<char>)
    requires
        raw.len() == 0 || printed_json(raw) is None,
    ensures
        formatted_body(raw) == raw,
        formatted_body(formatted_body(raw)) == formatted_body(raw),
{
    if raw.len() == 0 {
        assert(formatted_body(raw) =~= raw);
    }
}

/// Formatting what is shown changes nothing wherever the printed text of a
/// body, read again, prints as itself. Whether it does is up to the parser
/// and the printer; nothing here says that it always does.
pub proof fn lemma_formatting_twice(raw: Seq<char>)
    requires
        raw.len() > 0,
        printed_json(raw) matches Some(printed) && (printed.len() == 0 || printed_json(printed)
            == Some(printed)),
    ensures
        formatted_body(formatted_body(raw)) == formatted_body(raw),
{
}

} // verus!
