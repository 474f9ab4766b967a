//! The ways into a session: the password grant, the refresh grant and the
//! SOAP login, and the renewal of a token that has grown old.
use vstd::prelude::*;
use vstd::string::StringExecFns;
use crate::access_token::{AccessToken, AccessTokenView};
use crate::client::client::{or_empty, Client, ClientView};
use crate::client::headers::{lemma_own_names_are_valid, lemma_own_values_are_valid};
use crate::errors::{Error, ErrorView};
use crate::freshness::{is_stale, parse_u64, parsed_u64, past_validity};
use crate::http::{
    is_success, is_success_status, new_header_map, no_headers, set_header, with_header, Method,
    Payload, PayloadView, Request, RequestView,
};
use crate::responses::error_response::{ErrorResponse, ErrorResponseView};
use crate::responses::token_error_response::TokenErrorResponse;
use crate::responses::token_response::{TokenResponse, TokenResponseView};
use crate::text::{clone_or_empty, no_pairs, opt_text, pairs};
use crate::xml::{extracted, login_envelope, Xml};

verus! {

/// The ways to log in.
#[derive(Debug, Clone)]
pub enum LoginStrategy {
    /// A password grant for a user.
    Password { username: String, password: String },
    /// A refresh grant with the refresh token of the session.
    Refresh,
    /// A SOAP login for a user.
    Soap { username: String, password: String },
}

/// What a [`LoginStrategy`] stands for.
pub enum LoginStrategyView {
    Password { username: Seq<char>, password: Seq<char> },
    Refresh,
    Soap { username: Seq<char>, password: Seq<char> },
}

impl View for LoginStrategy {
    type V = LoginStrategyView;

    open spec fn view(&self) -> LoginStrategyView {
        match *self {
            LoginStrategy::Password { username, password } => LoginStrategyView::Password {
                username: username@,
                password: password@,
            },
            LoginStrategy::Refresh => LoginStrategyView::Refresh,
            LoginStrategy::Soap { username, password } => LoginStrategyView::Soap {
                username: username@,
                password: password@,
            },
        }
    }
}

/// What the token endpoint answered to a grant request.
#[derive(Debug, Clone)]
pub enum TokenReply {
    /// A success status, with the token.
    Granted(TokenResponse),
    /// Any other status, with the reason.
    Refused(TokenErrorResponse),
}

impl ClientView {
    /// The address of the token endpoint.
    pub open spec fn token_url(self) -> Seq<char> {
        self.login_endpoint + "/services/oauth2/token"@
    }

    /// The address of the SOAP login.
    pub open spec fn soap_url(self) -> Seq<char> {
        self.login_endpoint + "/services/Soap/u/"@ + self.version
    }

    /// The fields of a refresh grant. The client secret is always sent, and
    /// sent once more where the session says that it is required.
    pub open spec fn refresh_params(self) -> Seq<(Seq<char>, Seq<char>)> {
        let base = seq![
            ("grant_type"@, "refresh_token"@),
            ("client_secret"@, or_empty(self.client_secret)),
            ("refresh_token"@, or_empty(self.refresh_token)),
            ("client_id"@, or_empty(self.client_id)),
        ];
        if self.secret_required {
            base.push(("client_secret"@, or_empty(self.client_secret)))
        } else {
            base
        }
    }

    /// The fields of a password grant.
    pub open spec fn password_params(self, username: Seq<char>, password: Seq<char>) -> Seq<
        (Seq<char>, Seq<char>),
    > {
        seq![
            ("grant_type"@, "password"@),
            ("client_id"@, or_empty(self.client_id)),
            ("client_secret"@, or_empty(self.client_secret)),
            ("username"@, username),
            ("password"@, password),
        ]
    }

    /// A grant request: the fields, posted to the token endpoint in the form
    /// encoding, without any header of the client's.
    pub open spec fn grant_request(self, fields: Seq<(Seq<char>, Seq<char>)>) -> RequestView {
        RequestView {
            method: Method::Post,
            url: self.token_url(),
            headers: no_headers(),
            query: Seq::empty(),
            payload: PayloadView::Form(fields),
        }
    }

    /// The SOAP login request for a user name and a password.
    pub open spec fn soap_request(self, username: Seq<char>, password: Seq<char>) -> RequestView {
        RequestView {
            method: Method::Post,
            url: self.soap_url(),
            headers: with_header(
                with_header(no_headers(), "Content-Type"@, "text/xml"@),
                "SOAPAction"@,
                "\"\""@,
            ),
            query: Seq::empty(),
            payload: PayloadView::Text(login_envelope(username, password)),
        }
    }

    /// The request with which a login starts.
    pub open spec fn login_request(self, strategy: LoginStrategyView) -> RequestView {
        match strategy {
            LoginStrategyView::Password { username, password } => self.grant_request(
                self.password_params(username, password),
            ),
            LoginStrategyView::Refresh => self.grant_request(self.refresh_params()),
            LoginStrategyView::Soap { username, password } => self.soap_request(
                username,
                password,
            ),
        }
    }

    /// The session after a grant: the token and the instance URL of the
    /// reply, set together; everything else as it was.
    pub open spec fn granted(self, reply: TokenResponseView) -> ClientView {
        ClientView {
            access_token: Some(
                AccessTokenView {
                    token_type: or_empty(reply.token_type),
                    value: reply.access_token,
                    issued_at: reply.issued_at,
                },
            ),
            instance_url: Some(reply.instance_url),
            ..self
        }
    }

    /// Whether the renewal of the token is due at `now_ns`, in nanoseconds
    /// since the epoch: a token is held, it says in milliseconds since the
    /// epoch when it was issued, and that is more than two hours ago.
    pub open spec fn refresh_due(self, now_ns: u128) -> bool {
        &&& self.has_token()
        &&& parsed_u64(self.access_token->0.issued_at) matches Some(issued_ms)
        &&& is_stale(issued_ms, now_ns)
    }

    /// Whether the freshness of the token cannot be told: a token is held
    /// whose time of issue is no number of milliseconds.
    pub open spec fn issue_time_unreadable(self) -> bool {
        self.has_token() && parsed_u64(self.access_token->0.issued_at) is None
    }
}

/// What the client reads of the reply to a SOAP login: the text of each of
/// five tags, where the body has the tag.
#[derive(Debug, Clone)]
pub struct SoapReply {
    pub session_id: Option<String>,
    pub server_timestamp: Option<String>,
    pub server_url: Option<String>,
    pub fault_string: Option<String>,
    pub fault_code: Option<String>,
}

/// What a [`SoapReply`] stands for.
pub struct SoapReplyView {
    pub session_id: Option<Seq<char>>,
    pub server_timestamp: Option<Seq<char>>,
    pub server_url: Option<Seq<char>>,
    pub fault_string: Option<Seq<char>>,
    pub fault_code: Option<Seq<char>>,
}

impl View for SoapReply {
    type V = SoapReplyView;

    open spec fn view(&self) -> SoapReplyView {
        SoapReplyView {
            session_id: opt_text(self.session_id),
            server_timestamp: opt_text(self.server_timestamp),
            server_url: opt_text(self.server_url),
            fault_string: opt_text(self.fault_string),
            fault_code: opt_text(self.fault_code),
        }
    }
}

/// What the client reads of a body: for each tag the text of the first node
/// with that name.
pub open spec fn soap_reply(body: Seq<char>) -> SoapReplyView {
    SoapReplyView {
        session_id: extracted("sessionId"@, body),
        server_timestamp: extracted("serverTimestamp"@, body),
        server_url: extracted("serverUrl"@, body),
        fault_string: extracted("faultstring"@, body),
        fault_code: extracted("faultcode"@, body),
    }
}

/// Whether a SOAP login failed. It did where the status code does not report
/// success, and also where the reply names a fault and no session.
pub open spec fn soap_login_failed(status: u16, reply: SoapReplyView) -> bool {
    ||| !is_success_status(status)
    ||| (reply.session_id is None && reply.fault_string is Some)
}

/// The fault that a failed SOAP login reports: the fault string and the
/// fault code of the reply, each empty where the reply has none.
pub open spec fn soap_fault(reply: SoapReplyView) -> ErrorView {
    ErrorView::LoginError(
        ErrorResponseView {
            message: or_empty(reply.fault_string),
            error_code: or_empty(reply.fault_code),
            fields: None,
        },
    )
}

/// The session after a SOAP login that did not fail: the session id becomes
/// a bearer token, issued when the server's timestamp says, and the server
/// URL becomes the instance URL. A reply without a session id leaves the
/// session without a token.
pub open spec fn soap_logged_in(before: ClientView, reply: SoapReplyView) -> ClientView {
    ClientView {
        access_token: match reply.session_id {
            Some(id) => Some(
                AccessTokenView {
                    token_type: "Bearer"@,
                    value: id,
                    issued_at: or_empty(reply.server_timestamp),
                },
            ),
            None => None,
        },
        instance_url: reply.server_url,
        ..before
    }
}

impl Client {
    /// The fields of a refresh grant.
    pub fn get_refresh_params(&self) -> (r: Vec<(String, String)>)
        ensures
            pairs(r@) == self@.refresh_params(),
    {
        let refresh_token = clone_or_empty(&self.refresh_token);
        let client_id = clone_or_empty(&self.client_id);
        let client_secret = clone_or_empty(&self.client_secret);
        let mut params: Vec<(String, String)> = Vec::new();
        params.push((String::from_str("grant_type"), String::from_str("refresh_token")));
        params.push((String::from_str("client_secret"), client_secret));
        params.push((String::from_str("refresh_token"), refresh_token));
        params.push((String::from_str("client_id"), client_id));
        if self.secret_required {
            params.push((String::from_str("client_secret"), clone_or_empty(&self.client_secret)));
        }
        assert(pairs(params@) =~= self@.refresh_params());
        params
    }

    /// The address of the token endpoint.
    fn token_url(&self) -> (r: String)
        ensures
            r@ == self@.token_url(),
    {
        let mut url = self.login_endpoint.clone();
        url.append("/services/oauth2/token");
        url
    }

    /// The request of a refresh grant. The reply goes to
    /// [`Client::receive_token`].
    pub fn refresh(&self) -> (r: Request)
        ensures
            r@ == self@.grant_request(self@.refresh_params()),
    {
        Request {
            method: Method::Post,
            url: self.token_url(),
            headers: new_header_map(),
            query: no_pairs(),
            payload: Payload::Form(self.get_refresh_params()),
        }
    }

    /// The request of a password grant. The reply goes to
    /// [`Client::receive_token`].
    pub fn login_with_credential(&self, username: String, password: String) -> (r: Request)
        requires
            self.client_id is Some,
            self.client_secret is Some,
        ensures
            r@ == self@.grant_request(self@.password_params(username@, password@)),
    {
        let mut params: Vec<(String, String)> = Vec::new();
        params.push((String::from_str("grant_type"), String::from_str("password")));
        params.push((String::from_str("client_id"), clone_or_empty(&self.client_id)));
        params.push((String::from_str("client_secret"), clone_or_empty(&self.client_secret)));
        params.push((String::from_str("username"), username));
        params.push((String::from_str("password"), password));
        assert(pairs(params@) =~= self@.password_params(username@, password@));
        Request {
            method: Method::Post,
            url: self.token_url(),
            headers: new_header_map(),
            query: no_pairs(),
            payload: Payload::Form(params),
        }
    }

    /// The request of a SOAP login. The reply goes to
    /// [`Client::receive_soap_login`].
    pub fn login_by_soap(&self, username: String, password: String) -> (r: Request)
        ensures
            r@ == self@.soap_request(username@, password@),
    {
        let mut url = self.login_endpoint.clone();
        url.append("/services/Soap/u/");
        url.append(self.version.as_str());
        let body = Xml::create_login_envelope(username.as_str(), password.as_str());
        proof {
            lemma_own_names_are_valid();
            lemma_own_values_are_valid();
        }
        let mut headers = new_header_map();
        set_header(&mut headers, "Content-Type", "text/xml");
        set_header(&mut headers, "SOAPAction", "\"\"");
        Request {
            method: Method::Post,
            url,
            headers,
            query: no_pairs(),
            payload: Payload::Text(body),
        }
    }

    /// The request with which a login starts, whichever way it goes. The
    /// reply of a SOAP login goes to [`Client::receive_soap_login`], that of
    /// a grant to [`Client::receive_token`].
    pub fn login_request(&self, strategy: LoginStrategy) -> (r: Request)
        requires
            strategy is Password ==> self.client_id is Some && self.client_secret is Some,
        ensures
            r@ == self@.login_request(strategy@),
    {
        match strategy {
            LoginStrategy::Password { username, password } => self.login_with_credential(
                username,
                password,
            ),
            LoginStrategy::Refresh => self.refresh(),
            LoginStrategy::Soap { username, password } => self.login_by_soap(username, password),
        }
    }

    /// Takes the answer of the token endpoint. A grant puts the token and
    /// the instance URL into the session, together. A refusal is reported as
    /// [`Error::TokenError`] and leaves the session as it was.
    pub fn receive_token(&mut self, reply: TokenReply) -> (r: Result<(), Error>)
        ensures
            reply matches TokenReply::Granted(t) ==> r is Ok && final(self)@ == old(self)@.granted(
                t@,
            ),
            reply matches TokenReply::Refused(e) ==> *final(self) == *old(self) && (r matches Err(
                err,
            ) && err@ == ErrorView::TokenError(e@)),
    {
        match reply {
            TokenReply::Refused(e) => Err(Error::TokenError(e)),
            TokenReply::Granted(t) => {
                let token_type = clone_or_empty(&t.token_type);
                self.access_token = Some(
                    AccessToken { token_type, value: t.access_token, issued_at: t.issued_at },
                );
                self.instance_url = Some(t.instance_url);
                Ok(())
            },
        }
    }

    /// Reads out of the body of a SOAP reply what the login looks at. A body
    /// that is not well-formed has none of the tags.
    pub fn read_soap_reply(body: &str) -> (r: SoapReply)
        ensures
            r@ == soap_reply(body@),
    {
        SoapReply {
            session_id: Xml::extract("sessionId", body),
            server_timestamp: Xml::extract("serverTimestamp", body),
            server_url: Xml::extract("serverUrl", body),
            fault_string: Xml::extract("faultstring", body),
            fault_code: Xml::extract("faultcode", body),
        }
    }

    /// Takes the answer of the SOAP login: the status code, and what the
    /// body held. A failure is reported as [`Error::LoginError`] and leaves
    /// the session as it was.
    pub fn apply_soap_reply(&mut self, status: u16, reply: SoapReply) -> (r: Result<(), Error>)
        ensures
            soap_login_failed(status, reply@) ==> *final(self) == *old(self) && (r matches Err(e)
                && e@ == soap_fault(reply@)),
            !soap_login_failed(status, reply@) ==> r is Ok && final(self)@ == soap_logged_in(
                old(self)@,
                reply@,
            ),
    {
        if !is_success(status) || (reply.session_id.is_none() && reply.fault_string.is_some()) {
            let message = clone_or_empty(&reply.fault_string);
            let error_code = clone_or_empty(&reply.fault_code);
            return Err(Error::LoginError(ErrorResponse { message, error_code, fields: None }));
        }
        self.access_token = match reply.session_id {
            Some(value) => {
                let issued_at = clone_or_empty(&reply.server_timestamp);
                Some(AccessToken { value, issued_at, token_type: String::from_str("Bearer") })
            },
            None => None,
        };
        self.instance_url = reply.server_url;
        Ok(())
    }

    /// Takes the answer of the SOAP login: the status code and the body. A
    /// failure is reported as [`Error::LoginError`] and leaves the session
    /// as it was.
    pub fn receive_soap_login(&mut self, status: u16, body: &str) -> (r: Result<(), Error>)
        ensures
            soap_login_failed(status, soap_reply(body@)) ==> *final(self) == *old(self) && (
            r matches Err(e) && e@ == soap_fault(soap_reply(body@))),
            !soap_login_failed(status, soap_reply(body@)) ==> r is Ok && final(self)@
                == soap_logged_in(old(self)@, soap_reply(body@)),
    {
        let reply = Client::read_soap_reply(body);
        self.apply_soap_reply(status, reply)
    }

    /// Says whether the token has to be renewed before the next call, at
    /// `now_ns` nanoseconds since the epoch. `Ok(None)`: nothing to do, the
    /// session holds no token or one that is not older than two hours.
    /// `Ok(Some(..))`: the refresh grant to send first; its reply goes to
    /// [`Client::receive_token`]. A token whose time of issue is no number
    /// is reported as [`Error::DeserializeError`].
    pub fn ensure_refresh(&self, now_ns: u128) -> (r: Result<Option<Request>, Error>)
        ensures
            r is Err == self@.issue_time_unreadable(),
            r matches Err(e) ==> e@ == ErrorView::DeserializeError("Invalid issued_at"@),
            r matches Ok(o) ==> o is Some == self@.refresh_due(now_ns),
            r matches Ok(Some(request)) ==> request@ == self@.grant_request(
                self@.refresh_params(),
            ),
            !self@.has_token() ==> r matches Ok(None),
    {
        if !self.has_token() {
            return Ok(None);
        }
        let issued = match &self.access_token {
            Some(token) => parse_u64(token.issued_at.as_str()),
            None => None,
        };
        match issued {
            None => Err(Error::DeserializeError(String::from_str("Invalid issued_at"))),
            Some(issued_ms) => {
                if past_validity(issued_ms, now_ns) {
                    Ok(Some(self.refresh()))
                } else {
                    Ok(None)
                }
            },
        }
    }
}

/// After a grant the session holds the token and the instance URL of the
/// reply, and makes calls with it.
pub proof fn lemma_grant_takes_effect(c: ClientView, reply: TokenResponseView)
    ensures
        c.granted(reply).token_value() == reply.access_token,
        c.granted(reply).instance_url == Some(reply.instance_url),
        reply.access_token.len() > 0 ==> c.granted(reply).has_token(),
{
}

/// A token is renewed when it is older than two hours, and not before: for
/// a session with a token issued at `issued_ms`, the renewal is due exactly
/// when `now_ns` lies more than two hours after the issue.
pub proof fn lemma_renewal_window(c: ClientView, issued_ms: u64, now_ns: u128)
    requires
        c.has_token(),
        parsed_u64(c.access_token->0.issued_at) == Some(issued_ms),
    ensures
        !c.issue_time_unreadable(),
        c.refresh_due(now_ns) == (now_ns > issued_ms * 1_000_000 + 7_200_000_000_000),
{
}

/// One renewal is enough: after a grant whose token is not stale, no
/// renewal is due.
pub proof fn lemma_renewed_once(
    c: ClientView,
    reply: TokenResponseView,
    issued_ms: u64,
    now_ns: u128,
)
    requires
        parsed_u64(reply.issued_at) == Some(issued_ms),
        !is_stale(issued_ms, now_ns),
    ensures
        !c.granted(reply).refresh_due(now_ns),
        !c.granted(reply).issue_time_unreadable(),
{
}

} // verus!
