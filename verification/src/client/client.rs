//! The session of one client: who it is, which token it holds, and where
//! its calls go.
use vstd::prelude::*;
use vstd::string::StringExecFns;
use crate::access_token::{AccessToken, AccessTokenView};
use crate::text::{clone_or_empty, opt_text, text_or_empty};

verus! {

/// The state of one client. It is made empty, filled by one login, and
/// renewed in place.
#[derive(Debug, Clone)]
pub struct Client {
    pub client_id: Option<String>,
    pub client_secret: Option<String>,
    pub login_endpoint: String,
    /// Where calls go; set together with the token by a login.
    pub instance_url: Option<String>,
    pub access_token: Option<AccessToken>,
    pub refresh_token: Option<String>,
    /// The version segment of resource paths, such as `v60.0`.
    pub version: String,
    /// Whether a refresh sends the client secret a second time.
    pub secret_required: bool,
}

/// What a [`Client`] stands for.
pub struct ClientView {
    pub client_id: Option<Seq<char>>,
    pub client_secret: Option<Seq<char>>,
    pub login_endpoint: Seq<char>,
    pub instance_url: Option<Seq<char>>,
    pub access_token: Option<AccessTokenView>,
    pub refresh_token: Option<Seq<char>>,
    pub version: Seq<char>,
    pub secret_required: bool,
}

/// What an optional token stands for.
pub open spec fn opt_token(t: Option<AccessToken>) -> Option<AccessTokenView> {
    match t {
        Some(t) => Some(t@),
        None => None,
    }
}

/// The characters of an optional text, empty where there is none.
pub open spec fn or_empty(s: Option<Seq<char>>) -> Seq<char> {
    match s {
        Some(s) => s,
        None => Seq::empty(),
    }
}

impl View for Client {
    type V = ClientView;

    open spec fn view(&self) -> ClientView {
        ClientView {
            client_id: opt_text(self.client_id),
            client_secret: opt_text(self.client_secret),
            login_endpoint: self.login_endpoint@,
            instance_url: opt_text(self.instance_url),
            access_token: opt_token(self.access_token),
            refresh_token: opt_text(self.refresh_token),
            version: self.version@,
            secret_required: self.secret_required,
        }
    }
}

impl ClientView {
    /// The client as it is made: no credentials, no token, the production
    /// login host, and the secret sent on refresh.
    pub open spec fn fresh() -> ClientView {
        ClientView {
            client_id: None,
            client_secret: None,
            login_endpoint: "https://login.salesforce.com"@,
            instance_url: None,
            access_token: None,
            refresh_token: None,
            version: "v60.0"@,
            secret_required: true,
        }
    }

    /// The client with every text empty and every option unset.
    pub open spec fn empty() -> ClientView {
        ClientView {
            client_id: None,
            client_secret: None,
            login_endpoint: Seq::empty(),
            instance_url: None,
            access_token: None,
            refresh_token: None,
            version: Seq::empty(),
            secret_required: false,
        }
    }

    /// Whether the session holds a token that can be sent: one with a value
    /// that is not empty.
    pub open spec fn has_token(self) -> bool {
        self.access_token matches Some(t) && t.value.len() > 0
    }

    /// The value of the token, empty where there is none.
    pub open spec fn token_value(self) -> Seq<char> {
        match self.access_token {
            Some(t) => t.value,
            None => Seq::empty(),
        }
    }
}

impl Default for Client {
    /// The client with every text empty and every option unset.
    fn default() -> (r: Client)
        ensures
            r@ == ClientView::empty(),
    {
        Client {
            client_id: None,
            client_secret: None,
            login_endpoint: String::new(),
            instance_url: None,
            access_token: None,
            refresh_token: None,
            version: String::new(),
            secret_required: false,
        }
    }
}

impl Client {
    /// The client as [`Client::new`] makes it.
    pub fn default() -> (r: Client)
        ensures
            r@ == ClientView::fresh(),
    {
        Client::new()
    }

    /// A client that has not logged in.
    pub fn new() -> (r: Client)
        ensures
            r@ == ClientView::fresh(),
    {
        Client {
            client_id: None,
            client_secret: None,
            login_endpoint: String::from_str("https://login.salesforce.com"),
            access_token: None,
            instance_url: None,
            refresh_token: None,
            secret_required: true,
            version: String::from_str("v60.0"),
        }
    }

    /// Sets the host of the token endpoint and of the SOAP login.
    pub fn set_login_endpoint(&mut self, endpoint: &str) -> (r: &mut Self)
        ensures
            (*r)@ == (ClientView { login_endpoint: endpoint@, ..old(self)@ }),
            *final(self) == *final(r),
    {
        self.login_endpoint = String::from_str(endpoint);
        self
    }

    /// Sets the version segment of resource paths.
    pub fn set_version(&mut self, version: &str) -> (r: &mut Self)
        ensures
            (*r)@ == (ClientView { version: version@, ..old(self)@ }),
            *final(self) == *final(r),
    {
        self.version = String::from_str(version);
        self
    }

    /// Sets the instance URL.
    pub fn set_instance_url(&mut self, instance_url: &str) -> (r: &mut Self)
        ensures
            (*r)@ == (ClientView { instance_url: Some(instance_url@), ..old(self)@ }),
            *final(self) == *final(r),
    {
        self.instance_url = Some(String::from_str(instance_url));
        self
    }

    /// The instance URL, empty where none is set.
    pub fn get_instance_url(&mut self) -> (r: String)
        ensures
            r@ == text_or_empty(old(self).instance_url),
            *final(self) == *old(self),
    {
        clone_or_empty(&self.instance_url)
    }

    /// Sets the refresh token.
    pub fn set_refresh_token(&mut self, refresh_token: &str) -> (r: &mut Self)
        ensures
            (*r)@ == (ClientView { refresh_token: Some(refresh_token@), ..old(self)@ }),
            *final(self) == *final(r),
    {
        self.refresh_token = Some(String::from_str(refresh_token));
        self
    }

    /// Says whether a refresh sends the client secret a second time.
    pub fn set_secret_required(&mut self, secret_required: bool) -> (r: &mut Self)
        ensures
            (*r)@ == (ClientView { secret_required: secret_required, ..old(self)@ }),
            *final(self) == *final(r),
    {
        self.secret_required = secret_required;
        self
    }

    /// Sets the client id.
    pub fn set_client_id(&mut self, client_id: &str) -> (r: &mut Self)
        ensures
            (*r)@ == (ClientView { client_id: Some(client_id@), ..old(self)@ }),
            *final(self) == *final(r),
    {
        self.client_id = Some(String::from_str(client_id));
        self
    }

    /// Sets the client secret.
    pub fn set_client_secret(&mut self, client_secret: &str) -> (r: &mut Self)
        ensures
            (*r)@ == (ClientView { client_secret: Some(client_secret@), ..old(self)@ }),
            *final(self) == *final(r),
    {
        self.client_secret = Some(String::from_str(client_secret));
        self
    }

    /// Seeds the session with a token that was obtained elsewhere.
    pub fn set_access_token(
        &mut self,
        access_token: String,
        issued_at: String,
        token_type: String,
    ) -> (r: &mut Self)
        ensures
            (*r)@ == (ClientView {
                access_token: Some(
                    AccessTokenView {
                        token_type: token_type@,
                        value: access_token@,
                        issued_at: issued_at@,
                    },
                ),
                ..old(self)@
            }),
            *final(self) == *final(r),
    {
        self.access_token = Some(AccessToken { token_type, value: access_token, issued_at });
        self
    }

    /// The value of the token, empty where there is none.
    pub fn get_access_token(&mut self) -> (r: String)
        ensures
            r@ == old(self)@.token_value(),
            *final(self) == *old(self),
    {
        match &self.access_token {
            Some(token) => token.value.clone(),
            None => String::new(),
        }
    }

    /// Whether the session holds a token that can be sent.
    pub fn has_token(&self) -> (r: bool)
        ensures
            r == self@.has_token(),
    {
        match &self.access_token {
            Some(token) => !token.value.as_str().is_empty(),
            None => false,
        }
    }
}

} // verus!
