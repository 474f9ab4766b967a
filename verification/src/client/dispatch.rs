//! The authenticated calls: each verb as a request, with the headers of
//! the session.
use vstd::prelude::*;
use vstd::string::StringExecFns;
use crate::client::client::{or_empty, Client, ClientView};
use crate::client::headers::lemma_own_names_are_valid;
use crate::client::headers::lemma_own_values_are_valid;
use crate::errors::{fails_with, Error, ErrorView};
use crate::http::{
    remove_header, set_header, Method, Payload, PayloadView, Request, RequestView,
    MAX_HEADER_NAMES,
};
use crate::text::{clone_or_empty, no_pairs, pairs};
use crate::url::{last_wins, split_url, unique_pairs, url_parts, UrlParts};

verus! {

impl ClientView {
    /// The start of the paths of the REST resources on the instance.
    pub open spec fn data_path(self) -> Seq<char> {
        or_empty(self.instance_url) + "/services/data/"@ + self.version
    }

    /// The address of a path on the instance.
    pub open spec fn instance_path(self, path: Seq<char>) -> Seq<char> {
        or_empty(self.instance_url) + path
    }

    /// The address of an Apex REST resource, which may carry a query.
    pub open spec fn apex_url(self, uri: Seq<char>) -> Seq<char> {
        or_empty(self.instance_url) + "/services/apexrest/"@ + uri
    }

    /// Whether the session can address the instance: it holds no token, so
    /// that every call fails before an address is made, or it knows the
    /// instance URL.
    pub open spec fn can_address(self) -> bool {
        self.has_token() ==> self.instance_url is Some
    }

    /// The GET of a path on the instance.
    pub open spec fn rest_get(
        self,
        path: Seq<char>,
        query: Seq<(Seq<char>, Seq<char>)>,
    ) -> RequestView {
        self.call(Method::Get, self.instance_path(path), Seq::empty(), query, PayloadView::Empty)
    }

    /// The GET of a parsed address: its path on the instance, with the
    /// pairs of its query, each key once.
    pub open spec fn rest_get_parts(
        self,
        parts: (Seq<char>, Seq<(Seq<char>, Seq<char>)>),
    ) -> RequestView {
        self.rest_get(parts.0, last_wins(parts.1))
    }
}

impl Client {
    /// An authenticated GET with a query.
    pub fn get(&self, url: String, params: Vec<(String, String)>) -> (r: Result<Request, Error>)
        ensures
            r is Ok == self@.call_fault() is None,
            r matches Ok(request) ==> request@ == self@.call(
                Method::Get,
                url@,
                Seq::empty(),
                pairs(params@),
                PayloadView::Empty,
            ),
            r matches Err(e) ==> Some(e@) == self@.call_fault(),
            !self@.has_token() ==> fails_with(r, ErrorView::NotLoggedIn),
    {
        let headers = self.plain_headers()?;
        Ok(Request { method: Method::Get, url, headers, query: params, payload: Payload::Empty })
    }

    /// The GET that asks the identity service who the session belongs to.
    pub fn get_identity(&self, identity_url: String) -> (r: Result<Request, Error>)
        ensures
            r is Ok == self@.call_fault() is None,
            r matches Ok(request) ==> request@ == self@.call(
                Method::Get,
                identity_url@,
                Seq::empty(),
                Seq::empty(),
                PayloadView::Empty,
            ),
            r matches Err(e) ==> Some(e@) == self@.call_fault(),
            !self@.has_token() ==> fails_with(r, ErrorView::NotLoggedIn),
    {
        self.get(identity_url, no_pairs())
    }

    /// An authenticated GET that negotiates its own content: the caller's
    /// headers are applied, then any `Accept` is taken out.
    pub fn get_raw(&self, url: &str, additional_headers: Vec<(String, String)>) -> (r: Result<
        Request,
        Error,
    >)
        requires
            additional_headers@.len() + 2 <= MAX_HEADER_NAMES,
        ensures
            r is Ok == self@.headers_fault(pairs(additional_headers@)) is None,
            r matches Ok(request) ==> request@ == (RequestView {
                method: Method::Get,
                url: url@,
                headers: self@.raw_headers(pairs(additional_headers@)),
                query: Seq::empty(),
                payload: PayloadView::Empty,
            }),
            r matches Err(e) ==> Some(e@) == self@.headers_fault(pairs(additional_headers@)),
            !self@.has_token() ==> fails_with(r, ErrorView::NotLoggedIn),
    {
        let mut headers = self.create_header(additional_headers)?;
        proof {
            lemma_own_names_are_valid();
        }
        remove_header(&mut headers, "Accept");
        Ok(
            Request {
                method: Method::Get,
                url: String::from_str(url),
                headers,
                query: no_pairs(),
                payload: Payload::Empty,
            },
        )
    }

    /// An authenticated POST of the caller's value as JSON.
    pub fn post(&self, url: String, headers: Vec<(String, String)>) -> (r: Result<Request, Error>)
        requires
            headers@.len() + 2 <= MAX_HEADER_NAMES,
        ensures
            r is Ok == self@.headers_fault(pairs(headers@)) is None,
            r matches Ok(request) ==> request@ == self@.call(
                Method::Post,
                url@,
                pairs(headers@),
                Seq::empty(),
                PayloadView::Json,
            ),
            r matches Err(e) ==> Some(e@) == self@.headers_fault(pairs(headers@)),
            !self@.has_token() ==> fails_with(r, ErrorView::NotLoggedIn),
    {
        let headers = self.create_header(headers)?;
        Ok(
            Request {
                method: Method::Post,
                url,
                headers,
                query: no_pairs(),
                payload: Payload::Json,
            },
        )
    }

    /// An authenticated POST of bytes.
    pub fn post_raw_buffer(&self, url: String, body: Vec<u8>, headers: Vec<(String, String)>) -> (r:
        Result<Request, Error>)
        requires
            headers@.len() + 2 <= MAX_HEADER_NAMES,
        ensures
            r is Ok == self@.headers_fault(pairs(headers@)) is None,
            r matches Ok(request) ==> request@ == self@.call(
                Method::Post,
                url@,
                pairs(headers@),
                Seq::empty(),
                PayloadView::Raw(body@),
            ),
            r matches Err(e) ==> Some(e@) == self@.headers_fault(pairs(headers@)),
            !self@.has_token() ==> fails_with(r, ErrorView::NotLoggedIn),
    {
        let headers = self.create_header(headers)?;
        Ok(
            Request {
                method: Method::Post,
                url,
                headers,
                query: no_pairs(),
                payload: Payload::Raw(body),
            },
        )
    }

    /// An authenticated PUT of CSV bytes, as the bulk upload wants it.
    pub fn put(&self, url: String, buffer: Vec<u8>) -> (r: Result<Request, Error>)
        ensures
            r is Ok == self@.call_fault() is None,
            r matches Ok(request) ==> request@ == (RequestView {
                method: Method::Put,
                url: url@,
                headers: self@.upload_headers(),
                query: Seq::empty(),
                payload: PayloadView::Raw(buffer@),
            }),
            r matches Err(e) ==> Some(e@) == self@.call_fault(),
            !self@.has_token() ==> fails_with(r, ErrorView::NotLoggedIn),
    {
        let mut headers = self.plain_headers()?;
        proof {
            lemma_own_names_are_valid();
            lemma_own_values_are_valid();
        }
        set_header(&mut headers, "Content-Type", "text/csv");
        set_header(&mut headers, "Accept", "application/json");
        Ok(
            Request {
                method: Method::Put,
                url,
                headers,
                query: no_pairs(),
                payload: Payload::Raw(buffer),
            },
        )
    }

    /// An authenticated PATCH of the caller's value as JSON.
    pub fn patch(&self, url: String) -> (r: Result<Request, Error>)
        ensures
            r is Ok == self@.call_fault() is None,
            r matches Ok(request) ==> request@ == self@.call(
                Method::Patch,
                url@,
                Seq::empty(),
                Seq::empty(),
                PayloadView::Json,
            ),
            r matches Err(e) ==> Some(e@) == self@.call_fault(),
            !self@.has_token() ==> fails_with(r, ErrorView::NotLoggedIn),
    {
        let headers = self.plain_headers()?;
        Ok(
            Request {
                method: Method::Patch,
                url,
                headers,
                query: no_pairs(),
                payload: Payload::Json,
            },
        )
    }

    /// An authenticated DELETE.
    pub fn delete(&self, url: String) -> (r: Result<Request, Error>)
        ensures
            r is Ok == self@.call_fault() is None,
            r matches Ok(request) ==> request@ == self@.call(
                Method::Delete,
                url@,
                Seq::empty(),
                Seq::empty(),
                PayloadView::Empty,
            ),
            r matches Err(e) ==> Some(e@) == self@.call_fault(),
            !self@.has_token() ==> fails_with(r, ErrorView::NotLoggedIn),
    {
        let headers = self.plain_headers()?;
        Ok(
            Request {
                method: Method::Delete,
                url,
                headers,
                query: no_pairs(),
                payload: Payload::Empty,
            },
        )
    }

    /// The address of a path on the instance.
    fn instance_address(&self, path: &str) -> (r: String)
        ensures
            r@ == self@.instance_path(path@),
    {
        let mut url = clone_or_empty(&self.instance_url);
        url.append(path);
        url
    }

    /// An authenticated GET of a path on the instance.
    pub fn rest_get(&self, path: String, params: Vec<(String, String)>) -> (r: Result<
        Request,
        Error,
    >)
        requires
            self@.can_address(),
        ensures
            r is Ok == self@.call_fault() is None,
            r matches Ok(request) ==> request@ == self@.rest_get(path@, pairs(params@)),
            r matches Err(e) ==> Some(e@) == self@.call_fault(),
            !self@.has_token() ==> fails_with(r, ErrorView::NotLoggedIn),
    {
        let headers = self.plain_headers()?;
        let url = self.instance_address(path.as_str());
        Ok(Request { method: Method::Get, url, headers, query: params, payload: Payload::Empty })
    }

    /// An authenticated POST of the caller's value as JSON to a path on the
    /// instance.
    pub fn rest_post(&self, path: String) -> (r: Result<Request, Error>)
        requires
            self@.can_address(),
        ensures
            r is Ok == self@.call_fault() is None,
            r matches Ok(request) ==> request@ == self@.call(
                Method::Post,
                self@.instance_path(path@),
                Seq::empty(),
                Seq::empty(),
                PayloadView::Json,
            ),
            r matches Err(e) ==> Some(e@) == self@.call_fault(),
            !self@.has_token() ==> fails_with(r, ErrorView::NotLoggedIn),
    {
        let headers = self.plain_headers()?;
        let url = self.instance_address(path.as_str());
        Ok(
            Request {
                method: Method::Post,
                url,
                headers,
                query: no_pairs(),
                payload: Payload::Json,
            },
        )
    }

    /// An authenticated PATCH of the caller's value as JSON to a path on the
    /// instance.
    pub fn rest_patch(&self, path: String) -> (r: Result<Request, Error>)
        requires
            self@.can_address(),
        ensures
            r is Ok == self@.call_fault() is None,
            r matches Ok(request) ==> request@ == self@.call(
                Method::Patch,
                self@.instance_path(path@),
                Seq::empty(),
                Seq::empty(),
                PayloadView::Json,
            ),
            r matches Err(e) ==> Some(e@) == self@.call_fault(),
            !self@.has_token() ==> fails_with(r, ErrorView::NotLoggedIn),
    {
        let headers = self.plain_headers()?;
        let url = self.instance_address(path.as_str());
        Ok(
            Request {
                method: Method::Patch,
                url,
                headers,
                query: no_pairs(),
                payload: Payload::Json,
            },
        )
    }

    /// An authenticated PUT of the caller's value as JSON to a path on the
    /// instance.
    pub fn rest_put(&self, path: String) -> (r: Result<Request, Error>)
        requires
            self@.can_address(),
        ensures
            r is Ok == self@.call_fault() is None,
            r matches Ok(request) ==> request@ == self@.call(
                Method::Put,
                self@.instance_path(path@),
                Seq::empty(),
                Seq::empty(),
                PayloadView::Json,
            ),
            r matches Err(e) ==> Some(e@) == self@.call_fault(),
            !self@.has_token() ==> fails_with(r, ErrorView::NotLoggedIn),
    {
        let headers = self.plain_headers()?;
        let url = self.instance_address(path.as_str());
        Ok(Request { method: Method::Put, url, headers, query: no_pairs(), payload: Payload::Json })
    }

    /// An authenticated DELETE of a path on the instance.
    pub fn rest_delete(&self, path: String) -> (r: Result<Request, Error>)
        requires
            self@.can_address(),
        ensures
            r is Ok == self@.call_fault() is None,
            r matches Ok(request) ==> request@ == self@.call(
                Method::Delete,
                self@.instance_path(path@),
                Seq::empty(),
                Seq::empty(),
                PayloadView::Empty,
            ),
            r matches Err(e) ==> Some(e@) == self@.call_fault(),
            !self@.has_token() ==> fails_with(r, ErrorView::NotLoggedIn),
    {
        let headers = self.plain_headers()?;
        let url = self.instance_address(path.as_str());
        Ok(
            Request {
                method: Method::Delete,
                url,
                headers,
                query: no_pairs(),
                payload: Payload::Empty,
            },
        )
    }

    /// An authenticated GET of a parsed address: of its path on the
    /// instance, with the pairs of its query. Where a key stands more than
    /// once in the query it is sent once, with the value that stands last.
    pub fn rest_get_parts(&self, parts: UrlParts) -> (r: Result<Request, Error>)
        requires
            self@.can_address(),
        ensures
            r is Ok == self@.call_fault() is None,
            r matches Ok(request) ==> request@ == self@.rest_get_parts(parts@),
            r matches Err(e) ==> Some(e@) == self@.call_fault(),
            !self@.has_token() ==> fails_with(r, ErrorView::NotLoggedIn),
    {
        let params = unique_pairs(&parts.query);
        self.rest_get(parts.path, params)
    }

    /// The address of an Apex REST resource.
    fn apex_url(&self, uri: &str) -> (r: String)
        ensures
            r@ == self@.apex_url(uri@),
    {
        let mut url = clone_or_empty(&self.instance_url);
        url.append("/services/apexrest/");
        url.append(uri);
        url
    }

    /// An authenticated GET of an Apex REST resource, given with its query.
    /// For a session with a token, the instance URL with the resource must
    /// make an absolute URL; [`Client::try_rest_get_fulluri`] finds out.
    pub fn rest_get_fulluri(&self, uri: &str) -> (r: Result<Request, Error>)
        requires
            self@.can_address(),
            self@.has_token() ==> url_parts(self@.apex_url(uri@)) is Some,
        ensures
            r is Ok == self@.call_fault() is None,
            r matches Ok(request) ==> request@ == self@.rest_get_parts(
                url_parts(self@.apex_url(uri@))->0,
            ),
            r matches Err(e) ==> Some(e@) == self@.call_fault(),
            !self@.has_token() ==> fails_with(r, ErrorView::NotLoggedIn),
    {
        if !self.has_token() {
            return Err(Error::NotLoggedIn);
        }
        let resource_url = self.apex_url(uri);
        match split_url(resource_url.as_str()) {
            Some(parts) => self.rest_get_parts(parts),
            None => vstd::pervasive::unreached(),
        }
    }

    /// As [`Client::rest_get_fulluri`], for any resource: `None` where the
    /// session holds a token and the instance URL with the resource makes no
    /// absolute URL.
    pub fn try_rest_get_fulluri(&self, uri: &str) -> (r: Option<Result<Request, Error>>)
        requires
            self@.can_address(),
        ensures
            r is None == (self@.has_token() && url_parts(self@.apex_url(uri@)) is None),
            r matches Some(Ok(request)) ==> request@ == self@.rest_get_parts(
                url_parts(self@.apex_url(uri@))->0,
            ),
            r matches Some(inner) ==> inner is Ok == self@.call_fault() is None,
            r matches Some(Err(e)) ==> Some(e@) == self@.call_fault(),
    {
        if self.has_token() {
            let resource_url = self.apex_url(uri);
            if split_url(resource_url.as_str()).is_none() {
                return None;
            }
        }
        Some(self.rest_get_fulluri(uri))
    }
}

/// A session without a token makes no call: no renewal is due, and the
/// headers of every authenticated call fail with `NotLoggedIn`, whatever the
/// caller adds.
pub proof fn lemma_no_token_no_call(c: ClientView, now_ns: u128, extra: Seq<(Seq<char>, Seq<char>)>)
    requires
        c.token_value().len() == 0,
    ensures
        !c.has_token(),
        !c.refresh_due(now_ns),
        !c.issue_time_unreadable(),
        c.headers_fault(extra) == Some(ErrorView::NotLoggedIn),
        c.call_fault() == Some(ErrorView::NotLoggedIn),
{
}

} // verus!
