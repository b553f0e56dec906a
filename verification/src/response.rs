//! The response of a call: what the transport received, normalized.

use crate::format::format_json;
use crate::format::formatted_body;
use crate::header::header_map_items;
use crate::header::header_map_iter;
use crate::header::header_name_as_str;
use crate::header::header_name_text;
use crate::header::header_value_bytes;
use crate::header::header_value_to_str;
use crate::header::visible_text;
use crate::header::HeaderItem;
use crate::model::ErrorView;
use crate::model::HttpClientError;
use reqwest::header::HeaderMap;
use vstd::prelude::*;
use vstd::string::StringExecFns;

verus! {

/// How long the transport may take for one call, in seconds. There is no
/// setting that changes it.
pub const REQUEST_TIMEOUT_SECS: u64 = 30;

/// The normalized response of one call.
#[derive(Debug, Clone, PartialEq, Eq)]
pub struct HttpResponse {
    pub status_code: u16,
    /// The status as text: the code and its reason.
    pub status: String,
    /// The response headers, each name once, with its value as text.
    pub headers: Vec<(String, String)>,
    /// The body, formatted for reading.
    pub body: String,
    /// The time the call took, in whole milliseconds.
    pub response_time_ms: u32,
    /// Kept for the callers' record type. A call that fails returns an
    /// `HttpClientError` and no response, so this is never filled.
    pub error: Option<String>,
}

/// What a contract sees of an `HttpResponse`.
pub ghost struct ResponseView {
    pub status_code: u16,
    pub status: Seq<char>,
    pub headers: Map<Seq<char>, Seq<char>>,
    pub body: Seq<char>,
    pub response_time_ms: u32,
    pub error: Option<Seq<char>>,
}

/// A header name with its value, both as text.
pub type TextPair = (Seq<char>, Seq<char>);

/// The views of a list of pairs of strings.
pub open spec fn pair_views(pairs: Seq<(String, String)>) -> Seq<TextPair> {
    pairs.map_values(|pair: (String, String)| (pair.0@, pair.1@))
}

/// No name occurs twice in the list.
pub open spec fn distinct_names(pairs: Seq<TextPair>) -> bool {
    forall|i: int, j: int|
        0 <= i < j < pairs.len() ==> (#[trigger] pairs[i]).0 != (#[trigger] pairs[j]).0
}

/// Whether the list holds the name at the index.
pub open spec fn names_at(pairs: Seq<TextPair>, name: Seq<char>, i: int) -> bool {
    0 <= i < pairs.len() && pairs[i].0 == name
}

/// The list as a map from its names to their values.
pub open spec fn pairs_map(pairs: Seq<TextPair>) -> Map<Seq<char>, Seq<char>> {
    Map::new(
        |name: Seq<char>| exists|i: int| names_at(pairs, name, i),
        |name: Seq<char>| pairs[choose|i: int| names_at(pairs, name, i)].1,
    )
}

impl HttpResponse {
    /// The header list holds each name once.
    pub open spec fn wf(&self) -> bool {
        distinct_names(pair_views(self.headers@))
    }
}

impl View for HttpResponse {
    type V = ResponseView;

    open spec fn view(&self) -> ResponseView {
        ResponseView {
            status_code: self.status_code,
            status: self.status@,
            headers: pairs_map(pair_views(self.headers@)),
            body: self.body@,
            response_time_ms: self.response_time_ms,
            error: match self.error {
                Some(text) => Some(text@),
                None => None,
            },
        }
    }
}

/// The headers of a response as the core reports them. The items are taken
/// in the order of receipt; one whose value is visible ASCII puts that text
/// under its name, in place of what was there; one whose value is not text is
/// passed over.
pub open spec fn collected_headers(items: Seq<HeaderItem>) -> Map<Seq<char>, Seq<char>>
    decreases items.len(),
{
    if items.len() == 0 {
        Map::empty()
    } else {
        let before = collected_headers(items.drop_last());
        match visible_text(items.last().1) {
            Some(text) => before.insert(items.last().0, text),
            None => before,
        }
    }
}

/// The time of a call as the response reports it: the elapsed milliseconds,
/// as far as 32 bits hold them.
pub open spec fn reported_millis(elapsed_millis: u128) -> u32 {
    (elapsed_millis % 0x1_0000_0000) as u32
}

/// Putting a pair at the end of a list that lacks its name adds it to the map.
proof fn lemma_push_new_name(pairs: Seq<TextPair>, name: Seq<char>, value: Seq<char>)
    requires
        distinct_names(pairs),
        forall|i: int| 0 <= i < pairs.len() ==> (#[trigger] pairs[i]).0 != name,
    ensures
        distinct_names(pairs.push((name, value))),
        pairs_map(pairs.push((name, value))) == pairs_map(pairs).insert(name, value),
{
    let after = pairs.push((name, value));
    assert(names_at(after, name, pairs.len() as int));
    assert forall|n: Seq<char>| #[trigger]
        pairs_map(after).dom().contains(n) <==> pairs_map(pairs).insert(
            name,
            value,
        ).dom().contains(n) by {
        if pairs_map(after).dom().contains(n) && n != name {
            let i = choose|i: int| names_at(after, n, i);
            assert(names_at(pairs, n, i));
        }
        if pairs_map(pairs).dom().contains(n) {
            let i = choose|i: int| names_at(pairs, n, i);
            assert(names_at(after, n, i));
        }
    }
    assert forall|n: Seq<char>| #[trigger] pairs_map(after).dom().contains(n) implies pairs_map(
        after,
    )[n] == pairs_map(pairs).insert(name, value)[n] by {
        let i = choose|i: int| names_at(after, n, i);
        if n != name {
            assert(names_at(pairs, n, i));
            let k = choose|k: int| names_at(pairs, n, k);
            assert(after[k] == pairs[k]);
            assert(i == k);
        }
    }
    assert(pairs_map(after) =~= pairs_map(pairs).insert(name, value));
}

/// Replacing the value of a name that the list holds replaces it in the map.
proof fn lemma_replace_value(pairs: Seq<TextPair>, at: int, value: Seq<char>)
    requires
        distinct_names(pairs),
        0 <= at < pairs.len(),
    ensures
        distinct_names(pairs.update(at, (pairs[at].0, value))),
        pairs_map(pairs.update(at, (pairs[at].0, value))) == pairs_map(pairs).insert(
            pairs[at].0,
            value,
        ),
{
    let name = pairs[at].0;
    let after = pairs.update(at, (name, value));
    assert(names_at(pairs, name, at));
    assert(names_at(after, name, at));
    assert forall|n: Seq<char>| #[trigger]
        pairs_map(after).dom().contains(n) <==> pairs_map(pairs).insert(
            name,
            value,
        ).dom().contains(n) by {
        if pairs_map(after).dom().contains(n) {
            let i = choose|i: int| names_at(after, n, i);
            assert(names_at(pairs, n, i));
        }
        if pairs_map(pairs).dom().contains(n) {
            let i = choose|i: int| names_at(pairs, n, i);
            assert(names_at(after, n, i));
        }
    }
    assert forall|n: Seq<char>| #[trigger] pairs_map(after).dom().contains(n) implies pairs_map(
        after,
    )[n] == pairs_map(pairs).insert(name, value)[n] by {
        let i = choose|i: int| names_at(after, n, i);
        if n != name {
            assert(names_at(pairs, n, i));
            let k = choose|k: int| names_at(pairs, n, k);
            assert(after[k] == pairs[k]);
            assert(i == k);
        } else {
            assert(i == at);
        }
    }
    assert(pairs_map(after) =~= pairs_map(pairs).insert(name, value));
}

/// Puts a value under a name: in place of the value that the name has, or
/// at the end where the list lacks the name.
fn put_header(pairs: &mut Vec<(String, String)>, name: String, value: String)
    requires
        distinct_names(pair_views(old(pairs)@)),
    ensures
        distinct_names(pair_views(final(pairs)@)),
        pairs_map(pair_views(final(pairs)@)) == pairs_map(pair_views(old(pairs)@)).insert(
            name@,
            value@,
        ),
{
    let ghost before = pair_views(pairs@);
    let mut i: usize = 0;
    while i < pairs.len()
        invariant
            i <= pairs.len(),
            before == pair_views(pairs@),
            pairs@ == old(pairs)@,
            distinct_names(before),
            forall|k: int| 0 <= k < i ==> (#[trigger] before[k]).0 != name@,
        decreases pairs.len() - i,
    {
        if pairs[i].0 == name {
            proof {
                lemma_replace_value(before, i as int, value@);
                assert(before[i as int].0 == name@);
            }
            pairs.set(i, (name, value));
            assert(pair_views(pairs@) =~= before.update(i as int, (name@, value@)));
            return ;
        }
        i += 1;
    }
    proof {
        lemma_push_new_name(before, name@, value@);
    }
    pairs.push((name, value));
    assert(pair_views(pairs@) =~= before.push((name@, value@)));
}

/// The headers of a response, each name once. Where the transport yields a
/// name several times, its last value that is text stays; a value that is not
/// text never replaces one that is.
pub fn collect_headers(headers: &HeaderMap) -> (pairs: Vec<(String, String)>)
    ensures
        distinct_names(pair_views(pairs@)),
        pairs_map(pair_views(pairs@)) == collected_headers(header_map_items(*headers)),
{
    let ghost items = header_map_items(*headers);
    let received = header_map_iter(headers);
    let mut pairs: Vec<(String, String)> = Vec::new();
    let mut i: usize = 0;
    proof {
        assert(items.take(0).len() == 0);
        assert(pairs_map(pair_views(pairs@)) =~= Map::<Seq<char>, Seq<char>>::empty());
    }
    while i < received.len()
        invariant
            i <= received.len(),
            items == header_map_items(*headers),
            received@.len() == items.len(),
            forall|k: int|
                0 <= k < received@.len() ==> items[k] == (
                    header_name_text(*(#[trigger] received@[k]).0),
                    header_value_bytes(*received@[k].1),
                ),
            distinct_names(pair_views(pairs@)),
            pairs_map(pair_views(pairs@)) == collected_headers(items.take(i as int)),
        decreases received.len() - i,
    {
        let name = received[i].0;
        let value = received[i].1;
        proof {
            assert(items.take(i as int + 1).drop_last() =~= items.take(i as int));
            assert(items.take(i as int + 1).last() == items[i as int]);
        }
        match header_value_to_str(value) {
            Ok(text) => {
                put_header(&mut pairs, header_name_as_str(name).to_owned(), text.to_owned());
            },
            Err(_) => {},
        }
        i += 1;
    }
    proof {
        assert(items.take(i as int) =~= items);
    }
    pairs
}

/// The response of a call that the transport completed: the status as it
/// came, the headers collected, the body formatted, the time in milliseconds.
pub fn build_response(
    status_code: u16,
    status: String,
    headers: &HeaderMap,
    body: &str,
    elapsed_millis: u128,
) -> (response: HttpResponse)
    ensures
        response.wf(),
        response@ == (ResponseView {
            status_code: status_code,
            status: status@,
            headers: collected_headers(header_map_items(*headers)),
            body: formatted_body(body@),
            response_time_ms: reported_millis(elapsed_millis),
            error: None,
        }),
        elapsed_millis <= u32::MAX ==> response.response_time_ms == elapsed_millis,
{
    let collected = collect_headers(headers);
    let shown = format_json(body);
    let response_time_ms: u32 = (elapsed_millis % 0x1_0000_0000u128) as u32;
    HttpResponse {
        status_code,
        status,
        headers: collected,
        body: shown,
        response_time_ms,
        error: None,
    }
}

/// How the one round trip of a call ended.
#[derive(Debug)]
pub enum TransportOutcome {
    /// The request could not be sent, or no response came in time. Holds the
    /// transport's description of the failure.
    SendFailed(String),
    /// A response came, but its body could not be read. Holds the
    /// transport's description of the failure.
    BodyFailed(String),
    /// The whole response was received.
    Completed {
        status_code: u16,
        status: String,
        headers: HeaderMap,
        body: String,
        elapsed_millis: u128,
    },
}

/// The error of a call whose round trip failed; `None` where it completed.
/// Both failures are of one kind: a body that could not be read is told from
/// a request that could not be sent by the words before the description.
pub open spec fn transport_error(outcome: TransportOutcome) -> Option<ErrorView> {
    match outcome {
        TransportOutcome::SendFailed(description) => Some(
            ErrorView::RequestError(description@),
        ),
        TransportOutcome::BodyFailed(description) => Some(
            ErrorView::RequestError("Failed to read body: "@ + description@),
        ),
        TransportOutcome::Completed { .. } => None,
    }
}

/// The result of a call, from how its round trip ended: the normalized
/// response of a completed one, the error of a failed one. A failed call
/// yields no part of a response.
pub fn conclude(outcome: TransportOutcome) -> (r: Result<HttpResponse, HttpClientError>)
    ensures
        match r {
            Ok(response) => {
                &&& outcome matches TransportOutcome::Completed {
                    status_code,
                    status,
                    headers,
                    body,
                    elapsed_millis,
                }
                &&& response.wf()
                &&& response@ == (ResponseView {
                    status_code: status_code,
                    status: status@,
                    headers: collected_headers(header_map_items(headers)),
                    body: formatted_body(body@),
                    response_time_ms: reported_millis(elapsed_millis),
                    error: None,
                })
            },
            Err(e) => transport_error(outcome) == Some(e@),
        },
{
    match outcome {
        TransportOutcome::SendFailed(description) => Err(
            HttpClientError::RequestError(description),
        ),
        TransportOutcome::BodyFailed(description) => Err(
            HttpClientError::RequestError(
                String::from_str("Failed to read body: ").concat(description.as_str()),
            ),
        ),
        TransportOutcome::Completed { status_code, status, headers, body, elapsed_millis } => Ok(
            build_response(status_code, status, &headers, body.as_str(), elapsed_millis),
        ),
    }
}

} // verus!
