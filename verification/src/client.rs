//! The client: it plans the request of a translation call and reads the
//! answer. The exchange itself is the caller's.

use crate::auth::AuthMethod;
use crate::error::TranslateError;
use crate::http::{
    decimal, describe_status, is_success, status_text, HttpRequest, HttpRequestView, HttpResponse,
};
use crate::json::{json_document, member_of, parse, JsonValue};
use crate::request::{TranslateRequest, TranslateRequestView};
use crate::response::{lemma_translations_follow_the_entries, TranslateResponse, Translation};
use vstd::prelude::*;
use vstd::string::StringExecFns;

verus! {

/// The service's own endpoint, used unless another base URL is set.
pub const API_BASE_URL: &'static str = "https://translate.api.cloud.yandex.net/translate/v2";

/// Client for the Yandex Translate API.
///
/// It holds how to authenticate and where the service is. Each call is one
/// request and one answer; the client keeps nothing between calls.
pub struct YandexTranslateClient {
    auth: AuthMethod,
    base_url: String,
}

/// The text of the failure for an answer whose status is not 2xx: the status
/// as it is shown, then the body, or a placeholder where the body could not
/// be read.
pub open spec fn api_failure_text(status: u16, body: Option<Seq<char>>) -> Seq<char> {
    "API returned status "@ + status_text(status) + ": "@ + match body {
        Some(text) => text,
        None => "Unknown error"@,
    }
}

/// What reading the body of a 2xx answer gives: the response that the body
/// denotes, and a JSON failure where it is no JSON or denotes none.
pub open spec fn body_outcome(body: Seq<char>, r: Result<TranslateResponse, TranslateError>) -> bool {
    match json_document(body) {
        Some(document) => match TranslateResponse::decoded(document) {
            Some(translations) => r matches Ok(response) && response@ == translations,
            None => r matches Err(TranslateError::JsonError(_)),
        },
        None => r matches Err(TranslateError::JsonError(_)),
    }
}

/// What a call gives for each thing that the transport can hand back.
pub open spec fn outcome(
    reply: Result<HttpResponse, reqwest::Error>,
    r: Result<TranslateResponse, TranslateError>,
) -> bool {
    match reply {
        Err(failure) => r == Err::<TranslateResponse, TranslateError>(
            TranslateError::RequestFailed(failure),
        ),
        Ok(response) => if is_success(response.status) {
            match response.body {
                Ok(body) => body_outcome(body@, r),
                Err(failure) => r == Err::<TranslateResponse, TranslateError>(
                    TranslateError::RequestFailed(failure),
                ),
            }
        } else {
            r matches Err(TranslateError::ApiError(text)) && text@ == api_failure_text(
                response.status,
                match response.body {
                    Ok(body) => Some(body@),
                    Err(_) => None,
                },
            )
        },
    }
}

/// Reads the body of a 2xx answer.
pub fn read_body(body: &str) -> (r: Result<TranslateResponse, TranslateError>)
    ensures
        body_outcome(body@, r),
{
    match parse(body) {
        Ok(document) => match TranslateResponse::from_json(&document) {
            Ok(response) => Ok(response),
            Err(e) => Err(TranslateError::JsonError(e)),
        },
        Err(e) => Err(TranslateError::JsonError(e)),
    }
}

/// Turns what the transport handed back into the result of the call.
pub fn interpret(reply: Result<HttpResponse, reqwest::Error>) -> (r: Result<
    TranslateResponse,
    TranslateError,
>)
    ensures
        outcome(reply, r),
{
    let response = match reply {
        Ok(response) => response,
        Err(failure) => { return Err(TranslateError::RequestFailed(failure)); },
    };
    if 200 <= response.status && response.status < 300 {
        match response.body {
            Ok(body) => read_body(body.as_str()),
            Err(failure) => Err(TranslateError::RequestFailed(failure)),
        }
    } else {
        let mut text = String::from_str("API returned status ");
        text.append(describe_status(response.status).as_str());
        text.append(": ");
        match response.body {
            Ok(body) => text.append(body.as_str()),
            Err(_) => text.append("Unknown error"),
        }
        Err(TranslateError::ApiError(text))
    }
}

impl YandexTranslateClient {
    /// How the client authenticates.
    pub closed spec fn auth(&self) -> AuthMethod {
        self.auth
    }

    /// Where the service is.
    pub closed spec fn base_url(&self) -> Seq<char> {
        self.base_url@
    }

    /// The request that a call sends: to `/translate` under the base URL,
    /// with the content type, the one authentication header, and the request
    /// as the JSON body.
    pub open spec fn planned_request(&self, request: TranslateRequestView) -> HttpRequestView {
        HttpRequestView {
            url: self.base_url() + "/translate"@,
            headers: seq![
                ("Content-Type"@, "application/json"@),
                ("Authorization"@, self.auth().header_value()),
            ],
            body: request.json_text(),
        }
    }

    /// Creates a client that authenticates by the given method and talks to
    /// the service's own endpoint.
    pub fn new(auth: AuthMethod) -> (client: Self)
        ensures
            client.auth() == auth,
            client.base_url() == API_BASE_URL@,
    {
        YandexTranslateClient { auth, base_url: String::from_str(API_BASE_URL) }
    }

    /// Creates a client that authenticates with an API key.
    pub fn with_api_key(api_key: &str) -> (client: Self)
        ensures
            client.auth() matches AuthMethod::ApiKey(key) && key@ == api_key@,
            client.base_url() == API_BASE_URL@,
    {
        Self::new(AuthMethod::ApiKey(String::from_str(api_key)))
    }

    /// Creates a client that authenticates with an IAM token.
    pub fn with_iam_token(iam_token: &str) -> (client: Self)
        ensures
            client.auth() matches AuthMethod::IAMToken(token) && token@ == iam_token@,
            client.base_url() == API_BASE_URL@,
    {
        Self::new(AuthMethod::IAMToken(String::from_str(iam_token)))
    }

    /// Sets the base URL in place of the service's own endpoint. The URL is
    /// taken as it is.
    pub fn with_base_url(self, base_url: &str) -> (client: Self)
        ensures
            client.auth() == self.auth(),
            client.base_url() == base_url@,
    {
        YandexTranslateClient { auth: self.auth, base_url: String::from_str(base_url) }
    }

    /// Plans the request of a translation call.
    pub fn build_request(&self, request: &TranslateRequest) -> (outbound: HttpRequest)
        ensures
            outbound@ == self.planned_request(request@),
    {
        let mut url = self.base_url.clone();
        url.append("/translate");
        let mut headers: Vec<(String, String)> = Vec::new();
        headers.push((String::from_str("Content-Type"), String::from_str("application/json")));
        headers.push((String::from_str("Authorization"), self.auth.authorization()));
        let outbound = HttpRequest { url, headers, body: request.to_json() };
        assert(outbound@.headers =~= self.planned_request(request@).headers);
        outbound
    }

    /// Translates the texts of a request: plans the request, hands it to
    /// `send` once, and reads what `send` brought back.
    pub fn translate<F>(&self, request: &TranslateRequest, send: F) -> (r: Result<
        TranslateResponse,
        TranslateError,
    >) where F: FnOnce(HttpRequest) -> Result<HttpResponse, reqwest::Error>
        requires
            forall|outbound: HttpRequest|
                outbound@ == self.planned_request(request@) ==> call_requires(send, (outbound,)),
        ensures
            exists|outbound: HttpRequest, reply: Result<HttpResponse, reqwest::Error>|
                outbound@ == self.planned_request(request@) && call_ensures(
                    send,
                    (outbound,),
                    reply,
                ) && outcome(reply, r),
    {
        let outbound = self.build_request(request);
        let ghost sent = outbound;
        let reply = send(outbound);
        let r = interpret(reply);
        assert(sent@ == self.planned_request(request@) && call_ensures(send, (sent,), reply)
            && outcome(reply, r));
        r
    }
}

/// Whether a body answers a request text by text: it denotes an object whose
/// `translations` is an array with one entry for each text of the request.
pub open spec fn answers_each_text(request: TranslateRequestView, body: Seq<char>) -> bool {
    json_document(body) matches Some(JsonValue::Object(members)) && member_of(
        members@,
        "translations"@,
    ) matches Some(JsonValue::Array(items)) && items@.len() == request.texts.len()
}

/// The entries of the `translations` array of a body that has one.
pub open spec fn entries_of(body: Seq<char>) -> Seq<JsonValue> {
    match json_document(body) {
        Some(JsonValue::Object(members)) => match member_of(members@, "translations"@) {
            Some(JsonValue::Array(items)) => items@,
            _ => Seq::empty(),
        },
        _ => Seq::empty(),
    }
}

/// Where the service answers a request with texts entry by entry, a
/// successful call gives as many translations as there are texts, and the
/// translation at each place is the one that the entry at that place denotes:
/// the order of the texts is kept.
pub proof fn lemma_translations_align_with_texts(
    request: TranslateRequestView,
    body: Seq<char>,
    r: Result<TranslateResponse, TranslateError>,
)
    requires
        request.texts.len() > 0,
        answers_each_text(request, body),
        body_outcome(body, r),
        r is Ok,
    ensures
        r->Ok_0@.len() == request.texts.len(),
        forall|i: int|
            0 <= i < request.texts.len() ==> Translation::decoded(entries_of(body)[i]) == Some(
                #[trigger] r->Ok_0@[i],
            ),
{
    lemma_translations_follow_the_entries(entries_of(body));
}

/// The one authentication header of a planned request is `Authorization`,
/// and its value is `Api-Key` and the key for a client with an API key,
/// `Bearer` and the token for a client with an IAM token.
pub proof fn lemma_authorization_header(client: YandexTranslateClient, request: TranslateRequestView)
    ensures
        client.planned_request(request).headers.len() == 2,
        client.planned_request(request).headers[0] == ("Content-Type"@, "application/json"@),
        client.auth() matches AuthMethod::ApiKey(key) ==> client.planned_request(
            request,
        ).headers[1] == ("Authorization"@, "Api-Key "@ + key@),
        client.auth() matches AuthMethod::IAMToken(token) ==> client.planned_request(
            request,
        ).headers[1] == ("Authorization"@, "Bearer "@ + token@),
{
}

/// A client whose base URL was set sends its requests to `/translate` under
/// that URL, whatever the request.
pub proof fn lemma_request_goes_to_the_base_url(
    client: YandexTranslateClient,
    base_url: Seq<char>,
    request: TranslateRequestView,
)
    requires
        client.base_url() == base_url,
    ensures
        client.planned_request(request).url == base_url + "/translate"@,
{
}

/// Whether a text holds another as a run of neighbouring characters.
pub open spec fn holds_text(text: Seq<char>, part: Seq<char>) -> bool {
    exists|at: int| 0 <= at && at + part.len() <= text.len() && #[trigger] text.subrange(
        at,
        at + part.len(),
    ) == part
}

/// An answer whose status is not 2xx fails the call with an API failure
/// whose text holds the status code in decimal and the body as it came.
pub proof fn lemma_api_failure_shows_status_and_body(
    response: HttpResponse,
    r: Result<TranslateResponse, TranslateError>,
)
    requires
        !is_success(response.status),
        response.body is Ok,
        outcome(Ok(response), r),
    ensures
        r matches Err(TranslateError::ApiError(text)) && holds_text(
            text@,
            decimal(response.status as nat),
        ) && holds_text(text@, response.body->Ok_0@),
{
    let text = r->Err_0->ApiError_0@;
    let code = decimal(response.status as nat);
    let body = response.body->Ok_0@;
    let lead = "API returned status "@;
    assert(text.subrange(lead.len() as int, lead.len() as int + code.len()) =~= code);
    assert(text.subrange(text.len() - body.len(), text.len() - body.len() + body.len()) =~= body);
}

/// A 2xx answer whose body is no JSON fails the call with a JSON failure.
pub proof fn lemma_malformed_body_is_a_json_failure(
    response: HttpResponse,
    r: Result<TranslateResponse, TranslateError>,
)
    requires
        is_success(response.status),
        response.body matches Ok(body) && json_document(body@) is None,
        outcome(Ok(response), r),
    ensures
        r matches Err(TranslateError::JsonError(_)),
{
}

} // verus!
