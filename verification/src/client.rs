use vstd::prelude::*;

use crate::config::ApiConfig;
use crate::decimal::{decimal_seq, u64_string};
use crate::json::JsonValue;

verus! {

/// A failed transport operation, distinguishing local precondition failures,
/// the common HTTP rejections, decode failures and connection failures.
#[derive(Debug, Clone, PartialEq)]
pub enum SwarmNodeError {
    /// The server rejected the request (HTTP 400); carries the reason text.
    BadRequest(String),
    /// The credential was refused (HTTP 401 or 403).
    Unauthenticated(String),
    /// The resource does not exist (HTTP 404).
    NotFound(String),
    /// No credential is configured; raised before any network attempt.
    ApiKeyNotSet,
    /// The response had a success status but its body did not decode into
    /// the expected shape.
    DecodeFailure(String),
    /// The exchange failed below HTTP: resolution, connection or transfer.
    TransportFailure(String),
    /// Any other non-success status, with its code and reason text.
    Other(u16, String),
}

/// `e` is the error that a response with the given status and reason maps to:
/// 400 to `BadRequest`, 401 and 403 to `Unauthenticated`, 404 to `NotFound`,
/// and every other status to `Other` carrying the code.
pub open spec fn matches_status_error(e: SwarmNodeError, status: u16, reason: Seq<char>) -> bool {
    if status == 400 {
        e matches SwarmNodeError::BadRequest(m) && m@ == reason
    } else if status == 401 || status == 403 {
        e matches SwarmNodeError::Unauthenticated(m) && m@ == reason
    } else if status == 404 {
        e matches SwarmNodeError::NotFound(m) && m@ == reason
    } else {
        e matches SwarmNodeError::Other(s, m) && s == status && m@ == reason
    }
}

impl SwarmNodeError {
    /// Maps a non-success response to its error.
    pub fn from_response(status: u16, reason: &str) -> (r: SwarmNodeError)
        ensures
            matches_status_error(r, status, reason@),
    {
        if status == 400 {
            SwarmNodeError::BadRequest(String::from_str(reason))
        } else if status == 401 || status == 403 {
            SwarmNodeError::Unauthenticated(String::from_str(reason))
        } else if status == 404 {
            SwarmNodeError::NotFound(String::from_str(reason))
        } else {
            SwarmNodeError::Other(status, String::from_str(reason))
        }
    }

    /// A human-readable description of the error.
    pub fn message(&self) -> (r: String)
        ensures
            self matches SwarmNodeError::BadRequest(m) ==> r@ == "Bad Request: "@ + m@,
            self matches SwarmNodeError::Unauthenticated(m) ==> r@ == "Unauthenticated: "@ + m@,
            self matches SwarmNodeError::NotFound(m) ==> r@ == "Not Found: "@ + m@,
            self is ApiKeyNotSet ==> r@ == "API Key not set"@,
            self matches SwarmNodeError::DecodeFailure(m) ==> r@ == "Failed to parse response body: "@
                + m@,
            self matches SwarmNodeError::TransportFailure(m) ==> r@ == "Request failed: "@ + m@,
            self matches SwarmNodeError::Other(s, m) ==> r@ == "HTTP "@ + decimal_seq(s as nat)
                + ": "@ + m@,
    {
        match self {
            SwarmNodeError::BadRequest(m) => String::from_str("Bad Request: ").concat(m.as_str()),
            SwarmNodeError::Unauthenticated(m) => String::from_str("Unauthenticated: ").concat(
                m.as_str(),
            ),
            SwarmNodeError::NotFound(m) => String::from_str("Not Found: ").concat(m.as_str()),
            SwarmNodeError::ApiKeyNotSet => String::from_str("API Key not set"),
            SwarmNodeError::DecodeFailure(m) => String::from_str(
                "Failed to parse response body: ",
            ).concat(m.as_str()),
            SwarmNodeError::TransportFailure(m) => String::from_str("Request failed: ").concat(
                m.as_str(),
            ),
            SwarmNodeError::Other(s, m) => {
                let code = u64_string(*s as u64);
                String::from_str("HTTP ").concat(code.as_str()).concat(": ").concat(m.as_str())
            },
        }
    }
}

/// The fixed verb set the transport supports.
#[derive(Debug, Clone, Copy, PartialEq, Eq)]
pub enum HttpMethod {
    Get,
    Post,
    Patch,
    Delete,
}

impl HttpMethod {
    /// The verb's wire spelling.
    pub fn as_str(&self) -> (r: &'static str)
        ensures
            self is Get ==> r@ == "GET"@,
            self is Post ==> r@ == "POST"@,
            self is Patch ==> r@ == "PATCH"@,
            self is Delete ==> r@ == "DELETE"@,
    {
        match self {
            HttpMethod::Get => "GET",
            HttpMethod::Post => "POST",
            HttpMethod::Patch => "PATCH",
            HttpMethod::Delete => "DELETE",
        }
    }
}

/// A resource operation before authentication: a verb, a path relative to the
/// versioned API root, query parameters, and an optional JSON object body.
#[derive(Debug)]
pub struct ActionRequest {
    pub method: HttpMethod,
    pub action_path: String,
    pub params: Vec<(String, String)>,
    pub body: Option<Vec<(String, JsonValue)>>,
}

/// One fully planned HTTP exchange: everything the host application needs to
/// issue the call, with the URL resolved and the credential header attached.
#[derive(Debug)]
pub struct HttpRequest {
    pub method: HttpMethod,
    pub url: String,
    pub headers: Vec<(String, String)>,
    pub params: Vec<(String, String)>,
    pub body: Option<Vec<(String, JsonValue)>>,
}

/// `headers` is exactly the bearer-token header for the configured key.
pub open spec fn headers_are_bearer(headers: Seq<(String, String)>, config: ApiConfig) -> bool {
    &&& headers.len() == 1
    &&& headers[0].0@ == "Authorization"@
    &&& config.api_key matches Some(k) && headers[0].1@ == "Bearer "@ + k@
}

/// How an attempted HTTP exchange ended: a response with a status and reason
/// text, or a failure below HTTP.
#[derive(Debug, Clone, PartialEq)]
pub enum RequestOutcome {
    Response(u16, String),
    ConnectionFailure(String),
}

/// The status lies in the HTTP success range.
pub open spec fn spec_is_success(status: u16) -> bool {
    200 <= status < 300
}

/// Tests whether the status lies in the HTTP success range.
pub fn status_is_success(status: u16) -> (r: bool)
    ensures
        r == spec_is_success(status),
{
    200 <= status && status < 300
}

/// Plans requests and interprets their outcomes.
pub struct SwarmClient;

impl SwarmClient {
    /// The headers of an authenticated HTTP request, or `ApiKeyNotSet` when
    /// no credential is configured.
    pub fn get_http_headers(config: &ApiConfig) -> (r: Result<
        Vec<(String, String)>,
        SwarmNodeError,
    >)
        ensures
            config.has_credential() <==> r is Ok,
            r matches Ok(h) ==> headers_are_bearer(h@, *config),
            r matches Err(e) ==> e is ApiKeyNotSet,
    {
        match &config.api_key {
            None => Err(SwarmNodeError::ApiKeyNotSet),
            Some(key) => {
                let value = String::from_str("Bearer ").concat(key.as_str());
                let mut headers: Vec<(String, String)> = Vec::new();
                headers.push((String::from_str("Authorization"), value));
                Ok(headers)
            },
        }
    }

    /// The headers of an authenticated socket handshake; the same bearer
    /// token as for HTTP.
    pub fn get_ws_headers(config: &ApiConfig) -> (r: Result<Vec<(String, String)>, SwarmNodeError>)
        ensures
            config.has_credential() <==> r is Ok,
            r matches Ok(h) ==> headers_are_bearer(h@, *config),
            r matches Err(e) ==> e is ApiKeyNotSet,
    {
        Self::get_http_headers(config)
    }

    /// Plans one authenticated exchange against a resource path: the URL is
    /// the configured origin with the versioned API root and the action path
    /// appended. Fails with `ApiKeyNotSet`, before any network attempt, iff
    /// no credential is configured.
    pub fn prepare_action(config: &ApiConfig, action: ActionRequest) -> (r: Result<
        HttpRequest,
        SwarmNodeError,
    >)
        ensures
            config.has_credential() <==> r is Ok,
            r matches Err(e) ==> e is ApiKeyNotSet,
            r matches Ok(req) ==> {
                &&& req.method == action.method
                &&& req.url@ == "https://"@ + config.api_base@ + "/v1/"@ + action.action_path@
                &&& headers_are_bearer(req.headers@, *config)
                &&& req.params == action.params
                &&& req.body == action.body
            },
    {
        let headers = Self::get_http_headers(config)?;
        let url = String::from_str("https://").concat(config.api_base.as_str()).concat(
            "/v1/",
        ).concat(action.action_path.as_str());
        Ok(
            HttpRequest {
                method: action.method,
                url,
                headers,
                params: action.params,
                body: action.body,
            },
        )
    }

    /// Plans one authenticated exchange against an absolute URL, as handed
    /// back by a previous response for pagination continuation. Fails with
    /// `ApiKeyNotSet`, before any network attempt, iff no credential is
    /// configured.
    pub fn prepare_url(
        config: &ApiConfig,
        method: HttpMethod,
        url: &str,
        body: Option<Vec<(String, JsonValue)>>,
    ) -> (r: Result<HttpRequest, SwarmNodeError>)
        ensures
            config.has_credential() <==> r is Ok,
            r matches Err(e) ==> e is ApiKeyNotSet,
            r matches Ok(req) ==> {
                &&& req.method == method
                &&& req.url@ == url@
                &&& headers_are_bearer(req.headers@, *config)
                &&& req.params@.len() == 0
                &&& req.body == body
            },
    {
        let headers = Self::get_http_headers(config)?;
        Ok(
            HttpRequest {
                method,
                url: String::from_str(url),
                headers,
                params: Vec::new(),
                body,
            },
        )
    }

    /// Decides what an attempted exchange means: a success status clears the
    /// way for decoding the body, every other status maps to its error, and
    /// a connection failure surfaces as `TransportFailure`.
    pub fn evaluate_outcome(outcome: RequestOutcome) -> (r: Result<u16, SwarmNodeError>)
        ensures
            outcome matches RequestOutcome::Response(s, m) ==> {
                &&& spec_is_success(s) <==> r is Ok
                &&& (r matches Ok(st) ==> st == s)
                &&& (r matches Err(e) ==> matches_status_error(e, s, m@))
            },
            outcome matches RequestOutcome::ConnectionFailure(d) ==> (r matches Err(e) && (
            e matches SwarmNodeError::TransportFailure(t) && t@ == d@)),
    {
        match outcome {
            RequestOutcome::Response(status, reason) => {
                if status_is_success(status) {
                    Ok(status)
                } else {
                    Err(SwarmNodeError::from_response(status, reason.as_str()))
                }
            },
            RequestOutcome::ConnectionFailure(detail) => {
                Err(SwarmNodeError::TransportFailure(detail))
            },
        }
    }
}

} // verus!
