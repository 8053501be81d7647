//! The typed client: the request that asks for a resource, and what the
//! answer to it means.
//!
//! Nothing here touches the network. A client says which request to send;
//! whoever sends it hands back what came of it, and the client turns that
//! into records or into the reason why there are none.

use crate::decode::prices::{parse_prices, prices_in};
use crate::decode::renewables::{parse_renewables, renewables_in};
use crate::decode::sites::{parse_sites, sites_in};
use crate::decode::usage::{parse_usages, usages_in};
use crate::error::{Error, ErrorView};
pub use crate::records::{
    CurrentPrices, CurrentRenewables, CurrentUsage, SiteChannels, SiteDetails, TariffInformation,
};
use vstd::prelude::*;

verus! {

/// A request as the transport is to send it.
#[derive(Debug, Clone, PartialEq, Eq)]
pub struct HttpRequest {
    pub method: String,
    pub url: String,
    pub headers: Vec<(String, String)>,
}

pub struct HttpRequestView {
    pub method: Seq<char>,
    pub url: Seq<char>,
    pub headers: Seq<(Seq<char>, Seq<char>)>,
}

impl View for HttpRequest {
    type V = HttpRequestView;

    open spec fn view(&self) -> HttpRequestView {
        HttpRequestView {
            method: self.method@,
            url: self.url@,
            headers: self.headers@.map_values(|header: (String, String)| (header.0@, header.1@)),
        }
    }
}

/// The one request that a client makes: a `GET` of its address that shows
/// the token and asks for JSON.
pub open spec fn request_for(url: Seq<char>, auth_token: Seq<char>) -> HttpRequestView {
    HttpRequestView {
        method: "GET"@,
        url,
        headers: seq![
            ("Authorization"@, "Bearer "@ + auth_token),
            ("Content-Type"@, "application/json"@),
            ("Accept"@, "application/json"@),
        ],
    }
}

/// The header `name` stands in the list once, and with this value.
pub open spec fn carries_once(
    headers: Seq<(Seq<char>, Seq<char>)>,
    name: Seq<char>,
    value: Seq<char>,
) -> bool {
    exists|i: int|
        {
            &&& 0 <= i < headers.len()
            &&& #[trigger] headers[i] == (name, value)
            &&& forall|j: int| 0 <= j < headers.len() && (#[trigger] headers[j]).0 == name ==> j == i
        }
}

/// Every request shows its token in one `Authorization` header, and in no
/// second one.
pub proof fn lemma_request_shows_token_once(url: Seq<char>, auth_token: Seq<char>)
    ensures
        carries_once(
            request_for(url, auth_token).headers,
            "Authorization"@,
            "Bearer "@ + auth_token,
        ),
{
    reveal_strlit("Authorization");
    reveal_strlit("Content-Type");
    reveal_strlit("Accept");
    let headers = request_for(url, auth_token).headers;
    assert(headers[0] == ("Authorization"@, "Bearer "@ + auth_token));
    assert(headers[1].0.len() == 12);
    assert(headers[2].0.len() == 6);
}

/// What the server answered: the status and the text of the body.
///
/// A status has three digits, so a response can only be made of a number
/// from 100 to 999.
#[derive(Debug, PartialEq, Eq)]
pub struct HttpResponse {
    status: u16,
    body: String,
}

impl HttpResponse {
    #[verifier::type_invariant]
    spec fn has_status(self) -> bool {
        100 <= self.status <= 999
    }

    pub closed spec fn code(&self) -> u16 {
        self.status
    }

    pub closed spec fn text(&self) -> Seq<char> {
        self.body@
    }

    pub fn new(status: u16, body: String) -> (res: Option<HttpResponse>)
        ensures
            res is Some <==> 100 <= status <= 999,
            res is Some ==> res.unwrap().code() == status && res.unwrap().text() == body@,
    {
        if 100 <= status && status <= 999 {
            Some(HttpResponse { status, body })
        } else {
            None
        }
    }

    pub fn status(&self) -> (res: u16)
        ensures
            res == self.code(),
            100 <= res <= 999,
    {
        proof {
            use_type_invariant(self);
        }
        self.status
    }

    pub fn body(&self) -> (res: &str)
        ensures
            res@ == self.text(),
    {
        self.body.as_str()
    }
}

/// The status line that `http` prints for a status: the number, a space and
/// the reason phrase.
pub uninterp spec fn status_line(code: u16) -> Seq<char>;

/// Makes a `reqwest::StatusCode` with `from_u16` and prints it with its
/// `Display` impl.
///
/// Trusted: `from_u16` takes the numbers from 100 to 999 and no others, and
/// what is printed depends on the number alone, which the contract claims by
/// giving it the name `status_line`.
#[verifier::external_body]
pub(crate) fn describe_status(code: u16) -> (res: Option<String>)
    ensures
        res is Some <==> 100 <= code <= 999,
        res is Some ==> res.unwrap()@ == status_line(code),
{
    match reqwest::StatusCode::from_u16(code) {
        Ok(status) => Some(status.to_string()),
        Err(_) => None,
    }
}

/// What an exchange comes to before any decoding: the body of a 200
/// answer, or the failure.
pub open spec fn answer_of(outcome: Result<HttpResponse, String>) -> Result<Seq<char>, ErrorView> {
    match outcome {
        Err(cause) => Err(ErrorView::TransportError(cause@)),
        Ok(response) => if response.code() == 200 {
            Ok(response.text())
        } else {
            Err(
                ErrorView::HttpStatusError {
                    status_code: status_line(response.code()),
                    body: response.text(),
                },
            )
        },
    }
}

/// What an exchange comes to once the body of a 200 answer is decoded by
/// `records_in`.
pub open spec fn records_of<T>(
    outcome: Result<HttpResponse, String>,
    records_in: spec_fn(Seq<char>) -> Result<Seq<T>, Seq<char>>,
) -> Result<Seq<T>, ErrorView> {
    match answer_of(outcome) {
        Err(failure) => Err(failure),
        Ok(body) => match records_in(body) {
            Ok(records) => Ok(records),
            Err(message) => Err(ErrorView::ResponseDecodeError(message)),
        },
    }
}

/// Whether a query's result is the expected one, record by record.
pub open spec fn delivers<T: View>(
    res: Result<Vec<T>, Error>,
    expected: Result<Seq<T::V>, ErrorView>,
) -> bool {
    match expected {
        Ok(records) => res is Ok && res->Ok_0@.map_values(|record: T| record@) == records,
        Err(failure) => res is Err && res->Err_0@ == failure,
    }
}

/// Sorts an exchange into its three classes: no answer, an answer with a
/// status other than 200, and a 200 answer, of which the body is handed on.
pub fn body_of(outcome: Result<HttpResponse, String>) -> (res: Result<String, Error>)
    ensures
        match answer_of(outcome) {
            Ok(body) => res is Ok && res->Ok_0@ == body,
            Err(failure) => res is Err && res->Err_0@ == failure,
        },
{
    match outcome {
        Err(cause) => Err(Error::TransportError(cause)),
        Ok(response) => {
            let status = response.status();
            if status == 200 {
                Ok(response.body)
            } else {
                match describe_status(status) {
                    Some(status_code) => Err(
                        Error::HttpStatusError { status_code, body: response.body },
                    ),
                    None => vstd::pervasive::unreached(),
                }
            }
        },
    }
}

/// A client for one resource: where it is, and the token that opens it.
#[derive(Debug, Clone, PartialEq, Eq)]
pub struct RestClient {
    pub url: String,
    pub auth_token: String,
}

impl RestClient {
    pub fn new_client(url: String, auth_token: String) -> (client: RestClient)
        ensures
            client.url@ == url@,
            client.auth_token@ == auth_token@,
    {
        RestClient { url, auth_token }
    }

    /// The request to send.
    pub fn request(&self) -> (request: HttpRequest)
        ensures
            request@ == request_for(self.url@, self.auth_token@),
    {
        let mut headers: Vec<(String, String)> = Vec::new();
        headers.push(
            (
                String::from_str("Authorization"),
                String::from_str("Bearer ").concat(self.auth_token.as_str()),
            ),
        );
        headers.push((String::from_str("Content-Type"), String::from_str("application/json")));
        headers.push((String::from_str("Accept"), String::from_str("application/json")));
        let request = HttpRequest {
            method: String::from_str("GET"),
            url: self.url.clone(),
            headers,
        };
        assert(request@.headers =~= request_for(self.url@, self.auth_token@).headers);
        request
    }

    /// The sites that the answer of the sites endpoint holds.
    pub fn get_site_data(&self, outcome: Result<HttpResponse, String>) -> (res: Result<
        Vec<SiteDetails>,
        Error,
    >)
        ensures
            delivers(res, records_of(outcome, |body: Seq<char>| sites_in(body))),
    {
        let body = body_of(outcome)?;
        parse_sites(body.as_str())
    }

    /// The prices that the answer of the prices endpoint holds.
    pub fn get_price_data(&self, outcome: Result<HttpResponse, String>) -> (res: Result<
        Vec<CurrentPrices>,
        Error,
    >)
        ensures
            delivers(res, records_of(outcome, |body: Seq<char>| prices_in(body))),
    {
        let body = body_of(outcome)?;
        parse_prices(body.as_str())
    }

    /// The usage records that the answer of the usage endpoint holds.
    pub fn get_usage_data(&self, outcome: Result<HttpResponse, String>) -> (res: Result<
        Vec<CurrentUsage>,
        Error,
    >)
        ensures
            delivers(res, records_of(outcome, |body: Seq<char>| usages_in(body))),
    {
        let body = body_of(outcome)?;
        parse_usages(body.as_str())
    }

    /// The renewables records that the answer of the renewables endpoint
    /// holds.
    pub fn get_renewables_data(&self, outcome: Result<HttpResponse, String>) -> (res: Result<
        Vec<CurrentRenewables>,
        Error,
    >)
        ensures
            delivers(res, records_of(outcome, |body: Seq<char>| renewables_in(body))),
    {
        let body = body_of(outcome)?;
        parse_renewables(body.as_str())
    }
}

} // verus!
