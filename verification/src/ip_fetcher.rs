//! The result of a geolocation lookup, and the fetch worker's judgement of a
//! reply from the geolocation service.

use crate::degrees::Degrees;
use vstd::prelude::*;

verus! {

/// One answer of the geolocation service.
#[derive(Clone, Debug, PartialEq, Eq)]
pub struct IpDetails {
    pub autonomous_system: String,
    pub city: String,
    pub country: String,
    pub country_code: String,
    pub isp: String,
    pub lat: Degrees,
    pub lon: Degrees,
    pub org: String,
    pub query: String,
    pub region: String,
    pub region_name: String,
    pub status: String,
    pub timezone: String,
    pub zip: String,
}

/// What an [`IpDetails`] holds: each text as its characters, each angle in
/// millionths of a degree.
pub struct IpDetailsView {
    pub autonomous_system: Seq<char>,
    pub city: Seq<char>,
    pub country: Seq<char>,
    pub country_code: Seq<char>,
    pub isp: Seq<char>,
    pub lat: int,
    pub lon: int,
    pub org: Seq<char>,
    pub query: Seq<char>,
    pub region: Seq<char>,
    pub region_name: Seq<char>,
    pub status: Seq<char>,
    pub timezone: Seq<char>,
    pub zip: Seq<char>,
}

impl View for IpDetails {
    type V = IpDetailsView;

    open spec fn view(&self) -> IpDetailsView {
        IpDetailsView {
            autonomous_system: self.autonomous_system@,
            city: self.city@,
            country: self.country@,
            country_code: self.country_code@,
            isp: self.isp@,
            lat: self.lat.micro as int,
            lon: self.lon.micro as int,
            org: self.org@,
            query: self.query@,
            region: self.region@,
            region_name: self.region_name@,
            status: self.status@,
            timezone: self.timezone@,
            zip: self.zip@,
        }
    }
}

impl IpDetailsView {
    /// Whether the service accepted the query: the answer's status is `success`.
    pub open spec fn accepted(self) -> bool {
        self.status == "success"@
    }
}

/// How far a lookup has come.
#[derive(Clone, Copy, Debug, PartialEq, Eq, Structural)]
pub enum FetchState {
    Pending,
    Success,
    Failure,
}

impl IpDetails {
    /// Whether the service accepted the query.
    pub fn is_accepted(&self) -> (accepted: bool)
        ensures
            accepted == self@.accepted(),
    {
        let expected = String::from_str("success");
        self.status == expected
    }
}

/// What came back from one request to the geolocation service.
#[derive(Clone, Debug, PartialEq, Eq)]
pub enum Reply {
    /// The request brought no response.
    NoResponse,
    /// A response with HTTP status `code`; `body` is the answer read from
    /// it, or `None` where the body is not an answer.
    Response { code: u16, body: Option<IpDetails> },
}

/// What a [`Reply`] holds.
pub enum ReplyView {
    NoResponse,
    Response { code: u16, body: Option<IpDetailsView> },
}

impl View for Reply {
    type V = ReplyView;

    open spec fn view(&self) -> ReplyView {
        match *self {
            Reply::NoResponse => ReplyView::NoResponse,
            Reply::Response { code, body } => ReplyView::Response {
                code,
                body: match body {
                    Some(details) => Some(details@),
                    None => None,
                },
            },
        }
    }
}

/// Why a lookup produced no result.
#[derive(Clone, Copy, Debug, PartialEq, Eq, Structural)]
pub enum FetchError {
    /// The request brought no response.
    Transport,
    /// The response's HTTP status was not one of success.
    HttpStatus { code: u16 },
    /// The body was not an answer.
    Malformed,
    /// The service rejected the query.
    Rejected,
}

/// The result of a lookup that succeeded.
#[derive(Clone, Debug, PartialEq, Eq)]
pub struct IpFetcher {
    pub details: Option<IpDetails>,
}

/// What an [`IpFetcher`] holds.
pub struct IpFetcherView {
    pub details: Option<IpDetailsView>,
}

impl View for IpFetcher {
    type V = IpFetcherView;

    open spec fn view(&self) -> IpFetcherView {
        IpFetcherView {
            details: match self.details {
                Some(details) => Some(details@),
                None => None,
            },
        }
    }
}

/// Where the geolocation service answers; the target follows.
pub open spec fn service_prefix() -> Seq<char> {
    "http://ip-api.com/json/"@
}

/// Whether an HTTP status code is one of success.
pub open spec fn is_success_code(code: u16) -> bool {
    200 <= code <= 299
}

/// The fetch worker's judgement of a reply: a result for a successful
/// response whose body is an answer to an accepted query, and otherwise the
/// first reason against it, asked in this order: no response, an HTTP status
/// that is not one of success, a body that is not an answer, a query that the
/// service rejected.
pub open spec fn judge(reply: ReplyView) -> Result<IpFetcherView, FetchError> {
    match reply {
        ReplyView::NoResponse => Err(FetchError::Transport),
        ReplyView::Response { code, body } => {
            if !is_success_code(code) {
                Err(FetchError::HttpStatus { code })
            } else {
                match body {
                    None => Err(FetchError::Malformed),
                    Some(details) => {
                        if !details.accepted() {
                            Err(FetchError::Rejected)
                        } else {
                            Ok(IpFetcherView { details: Some(details) })
                        }
                    },
                }
            }
        },
    }
}

/// What a worker's report holds.
pub open spec fn report_view(report: Result<IpFetcher, FetchError>) -> Result<
    IpFetcherView,
    FetchError,
> {
    match report {
        Ok(fetched) => Ok(fetched@),
        Err(error) => Err(error),
    }
}

impl IpFetcher {
    /// The address to request for `target`: the service's address followed by
    /// the target as it stands. An empty target asks for the caller's own
    /// address.
    pub fn request_url(target: &String) -> (url: String)
        ensures
            url@ == service_prefix() + target@,
    {
        let mut url = String::from_str("http://ip-api.com/json/");
        url.append(target.as_str());
        url
    }

    /// Judges the reply to a lookup: a result, holding the answer as it came,
    /// where the reply is a successful response with an answer to an accepted
    /// query, and an error for every other reply.
    pub fn fetch(reply: Reply) -> (report: Result<IpFetcher, FetchError>)
        ensures
            report_view(report) == judge(reply@),
    {
        match reply {
            Reply::NoResponse => Err(FetchError::Transport),
            Reply::Response { code, body } => {
                if code < 200 || code > 299 {
                    Err(FetchError::HttpStatus { code })
                } else {
                    match body {
                        None => Err(FetchError::Malformed),
                        Some(details) => {
                            if !details.is_accepted() {
                                Err(FetchError::Rejected)
                            } else {
                                Ok(IpFetcher { details: Some(details) })
                            }
                        },
                    }
                }
            },
        }
    }
}

/// A lookup succeeds on one kind of reply alone, a successful response whose
/// body is an answer to an accepted query, and its result then holds that
/// answer whole, field for field: there is no result of a failed lookup, and
/// no result without an answer.
pub proof fn lemma_result_is_whole(reply: ReplyView)
    ensures
        judge(reply) is Ok <==> (reply matches ReplyView::Response { code, body: Some(details) }
            && is_success_code(code) && details.accepted()),
        judge(reply) matches Ok(fetched) ==> (fetched.details matches Some(details)
            && details.accepted() && reply->body == Some(details)),
        forall|code: u16, details: IpDetailsView|
            is_success_code(code) && details.accepted() ==> #[trigger] judge(
                ReplyView::Response { code, body: Some(details) },
            ) == Ok::<IpFetcherView, FetchError>(IpFetcherView { details: Some(details) }),
{
}

} // verus!
