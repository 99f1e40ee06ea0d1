//! The request header injector: what becomes of a request, given what the
//! shared cache holds when the request arrives.
//!
//! Without any cached payload the request is turned away: it was to be
//! augmented and there is nothing to augment it with. With a payload the
//! request always goes on, with the cached headers where the payload decodes
//! as an object of headers and unchanged where it does not.

use crate::error::FilterError;
use crate::json::{decode, json_decoded, DocumentView, JsonDocument, JsonMember, MemberView};
use vstd::prelude::*;

verus! {

/// Status of the response that turns a request away.
pub const REJECTION_STATUS: u32 = 500;

/// Body of the response that turns a request away.
pub const REJECTION_BODY: &'static str = "Filter not initialised";

/// Name of the response header that marks the response as this filter's.
pub const MARKER_HEADER: &'static str = "Powered-By";

/// Value of the marker header.
pub const POWERED_BY: &'static str = "header-augmenting-filter";

/// What the host does with the request next.
#[derive(Clone, Copy, Debug, PartialEq, Eq, Structural)]
pub enum Action {
    /// The request goes on.
    Continue,
    /// The request is held; nothing more is done with it.
    Pause,
}

/// A response that the filter sends in place of the upstream's.
#[derive(Clone, Debug)]
pub struct LocalResponse {
    pub status: u32,
    pub headers: Vec<(String, String)>,
    pub body: String,
}

/// A `LocalResponse` as sequences of characters.
pub struct ResponseView {
    pub status: u32,
    pub headers: Seq<(Seq<char>, Seq<char>)>,
    pub body: Seq<char>,
}

impl View for LocalResponse {
    type V = ResponseView;

    open spec fn view(&self) -> ResponseView {
        ResponseView { status: self.status, headers: self.headers.deep_view(), body: self.body@ }
    }
}

/// What becomes of a request.
#[derive(Clone, Debug)]
pub enum RequestOutcome {
    /// The request is answered with `response` and goes no further.
    Rejected { response: LocalResponse },
    /// The request goes on after each of `headers` was set on it, a header
    /// of the same name being overwritten. `warning` holds the failure that
    /// is to be recorded, if there was one.
    Forwarded { headers: Vec<(String, String)>, warning: Option<FilterError> },
}

/// A `RequestOutcome` as sequences of characters.
pub enum OutcomeView {
    Rejected { response: ResponseView },
    Forwarded { headers: Seq<(Seq<char>, Seq<char>)>, warning: Option<FilterError> },
}

impl View for RequestOutcome {
    type V = OutcomeView;

    open spec fn view(&self) -> OutcomeView {
        match self {
            RequestOutcome::Rejected { response } => OutcomeView::Rejected { response: response@ },
            RequestOutcome::Forwarded { headers, warning } => OutcomeView::Forwarded {
                headers: headers.deep_view(),
                warning: *warning,
            },
        }
    }
}

impl OutcomeView {
    /// What the host does with the request next.
    pub open spec fn action(self) -> Action {
        match self {
            OutcomeView::Rejected { .. } => Action::Pause,
            OutcomeView::Forwarded { .. } => Action::Continue,
        }
    }

    /// The failure that this outcome records, if any.
    pub open spec fn failure(self) -> Option<FilterError> {
        match self {
            OutcomeView::Rejected { .. } => Some(FilterError::CacheNeverPopulated),
            OutcomeView::Forwarded { warning, .. } => warning,
        }
    }
}

/// The response that turns a request away while nothing is cached.
pub open spec fn rejection() -> ResponseView {
    ResponseView {
        status: REJECTION_STATUS,
        headers: seq![(MARKER_HEADER@, POWERED_BY@)],
        body: REJECTION_BODY@,
    }
}

/// The header value that a member stands for: the characters of a JSON
/// string, and the compact JSON form of any other value.
pub open spec fn header_value(member: MemberView) -> Seq<char> {
    match member.text {
        Some(text) => text,
        None => member.rendered,
    }
}

/// The headers that the members of an object stand for, one per member and
/// in the members' order.
pub open spec fn headers_of(members: Seq<MemberView>) -> Seq<(Seq<char>, Seq<char>)> {
    Seq::new(members.len(), |i: int| (members[i].name, header_value(members[i])))
}

/// The headers that a decoded payload stands for; only an object has any.
pub open spec fn decoded_headers(doc: DocumentView) -> Result<
    Seq<(Seq<char>, Seq<char>)>,
    FilterError,
> {
    match doc {
        DocumentView::Object(members) => Ok(headers_of(members)),
        _ => Err(FilterError::CacheDecodeFailure),
    }
}

/// What becomes of a request, given the cached payload as decoded, or
/// nothing where the cache holds no payload.
pub open spec fn outcome_for(cached: Option<DocumentView>) -> OutcomeView {
    match cached {
        None => OutcomeView::Rejected { response: rejection() },
        Some(doc) => match decoded_headers(doc) {
            Ok(headers) => OutcomeView::Forwarded { headers, warning: None },
            Err(e) => OutcomeView::Forwarded { headers: Seq::empty(), warning: Some(e) },
        },
    }
}

/// The cached payload as the decoder sees it, or nothing where the cache
/// holds no payload.
pub open spec fn cached_document(cached: Option<&[u8]>) -> Option<DocumentView> {
    match cached {
        Some(bytes) => Some(json_decoded(bytes@)),
        None => None,
    }
}

/// The outcome of reading headers, seen as sequences of characters.
pub open spec fn headers_view(res: Result<Vec<(String, String)>, FilterError>) -> Result<
    Seq<(Seq<char>, Seq<char>)>,
    FilterError,
> {
    match res {
        Ok(headers) => Ok(headers.deep_view()),
        Err(e) => Err(e),
    }
}

/// The header that one member stands for.
fn header_from(member: &JsonMember) -> (res: (String, String))
    ensures
        res.deep_view() == (member@.name, header_value(member@)),
{
    let value = match &member.text {
        Some(text) => text.clone(),
        None => member.rendered.clone(),
    };
    (member.name.clone(), value)
}

/// Reads the headers out of a decoded payload.
pub fn headers_from_document(doc: &JsonDocument) -> (res: Result<
    Vec<(String, String)>,
    FilterError,
>)
    ensures
        headers_view(res) == decoded_headers(doc@),
{
    match doc {
        JsonDocument::Object(members) => {
            let mut headers: Vec<(String, String)> = Vec::new();
            let mut i: usize = 0;
            while i < members.len()
                invariant
                    i <= members.len(),
                    headers.len() == i,
                    forall|j: int|
                        0 <= j < i ==> #[trigger] headers.deep_view()[j] == headers_of(
                            members.deep_view(),
                        )[j],
                decreases members.len() - i,
            {
                let header = header_from(&members[i]);
                let ghost before = headers.deep_view();
                headers.push(header);
                proof {
                    assert forall|j: int| 0 <= j < i + 1 implies #[trigger] headers.deep_view()[j]
                        == headers_of(members.deep_view())[j] by {
                        if j < i {
                            assert(headers.deep_view()[j] == before[j]);
                        }
                    }
                }
                i += 1;
            }
            proof {
                assert(headers.deep_view() =~= headers_of(members.deep_view()));
            }
            Ok(headers)
        },
        _ => Err(FilterError::CacheDecodeFailure),
    }
}

/// Decodes a cached payload and reads the headers out of it.
pub fn parse_headers(cached: &[u8]) -> (res: Result<Vec<(String, String)>, FilterError>)
    ensures
        headers_view(res) == decoded_headers(json_decoded(cached@)),
{
    let doc = decode(cached);
    headers_from_document(&doc)
}

/// The response that turns a request away while nothing is cached.
pub fn reject() -> (res: LocalResponse)
    ensures
        res@ == rejection(),
{
    let mut headers: Vec<(String, String)> = Vec::new();
    headers.push((MARKER_HEADER.to_owned(), POWERED_BY.to_owned()));
    proof {
        assert(headers.deep_view() =~= rejection().headers);
    }
    LocalResponse { status: REJECTION_STATUS, headers, body: REJECTION_BODY.to_owned() }
}

/// Decides what becomes of a request, given the cached payload as decoded,
/// or nothing where the cache holds no payload.
pub fn decide(cached: Option<&JsonDocument>) -> (res: RequestOutcome)
    ensures
        res@ == outcome_for(
            match cached {
                Some(doc) => Some(doc@),
                None => None,
            },
        ),
{
    match cached {
        None => RequestOutcome::Rejected { response: reject() },
        Some(doc) => match headers_from_document(doc) {
            Ok(headers) => RequestOutcome::Forwarded { headers, warning: None },
            Err(e) => {
                let headers: Vec<(String, String)> = Vec::new();
                proof {
                    assert(headers.deep_view() =~= Seq::<(Seq<char>, Seq<char>)>::empty());
                }
                RequestOutcome::Forwarded { headers, warning: Some(e) }
            },
        },
    }
}

/// A request arrived while the cache held `cached`.
pub fn on_request_headers(cached: Option<&[u8]>) -> (res: RequestOutcome)
    ensures
        res@ == outcome_for(cached_document(cached)),
{
    match cached {
        None => decide(None),
        Some(bytes) => {
            let doc = decode(bytes);
            decide(Some(&doc))
        },
    }
}

impl RequestOutcome {
    /// What the host does with the request next.
    pub fn action(&self) -> (res: Action)
        ensures
            res == self@.action(),
    {
        match self {
            RequestOutcome::Rejected { .. } => Action::Pause,
            RequestOutcome::Forwarded { .. } => Action::Continue,
        }
    }

    /// The failure that this outcome records, if any.
    pub fn failure(&self) -> (res: Option<FilterError>)
        ensures
            res == self@.failure(),
    {
        match self {
            RequestOutcome::Rejected { .. } => Some(FilterError::CacheNeverPopulated),
            RequestOutcome::Forwarded { warning, .. } => *warning,
        }
    }
}

} // verus!
