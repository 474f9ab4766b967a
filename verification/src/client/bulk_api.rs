//! The requests of the first bulk API: jobs, their batches and results.
use vstd::prelude::*;
use vstd::string::{StrSliceExecFns, StringExecFns};
use crate::client::client::{or_empty, Client, ClientView};
use crate::errors::Error;
use crate::http::{Method, PayloadView, Request, RequestView, Payload};
use crate::text::{clone_or_empty, one_pair, pairs, push_pair};

verus! {

/// The first bulk API of one session.
pub struct BulkAPi {
    pub client: Client,
}

impl Default for BulkAPi {
    /// The bulk API of an empty session.
    fn default() -> (r: BulkAPi)
        ensures
            r.client@ == ClientView::empty(),
    {
        BulkAPi { client: <Client as Default>::default() }
    }
}

/// The start of the paths of the first bulk API: below the instance URL,
/// with the version written without the letter in front of it.
pub open spec fn async_path(c: ClientView) -> Seq<char> {
    or_empty(c.instance_url) + "/services/async/"@ + c.version.skip(1)
}

/// The header that carries the session to the first bulk API.
pub open spec fn session_header(c: ClientView) -> Seq<(Seq<char>, Seq<char>)> {
    seq![("X-SFDC-Session"@, c.token_value())]
}

/// The session header, followed by a content type.
pub open spec fn typed_headers(c: ClientView, content_type: Seq<char>) -> Seq<
    (Seq<char>, Seq<char>),
> {
    session_header(c).push(("Content-Type"@, content_type))
}

/// Whether the first bulk API can be addressed: the session knows the
/// instance URL and holds a token, and the version starts with a character
/// of one byte.
pub open spec fn bulk_ready(c: ClientView) -> bool {
    &&& c.instance_url is Some
    &&& c.access_token is Some
    &&& c.version.len() > 0
    &&& c.version[0] <= '\u{7f}'
}

impl BulkAPi {
    pub fn new(client: Client) -> (r: BulkAPi)
        ensures
            r.client == client,
    {
        BulkAPi { client }
    }

    /// The start of the paths of the first bulk API.
    pub fn base_path(&self) -> (r: String)
        requires
            self.client.instance_url is Some,
            self.client@.version.len() > 0,
            self.client@.version[0] <= '\u{7f}',
        ensures
            r@ == async_path(self.client@),
    {
        let mut path = clone_or_empty(&self.client.instance_url);
        path.append("/services/async/");
        let version = self.client.version.as_str();
        let n = version.unicode_len();
        path.append(version.substring_char(1, n));
        assert(self.client@.version.subrange(1, n as int) =~= self.client@.version.skip(1));
        path
    }

    /// The path of a resource below [`BulkAPi::base_path`].
    fn resource(&self, tail: &str) -> (r: String)
        requires
            bulk_ready(self.client@),
        ensures
            r@ == async_path(self.client@) + tail@,
    {
        let mut path = self.base_path();
        path.append(tail);
        path
    }

    /// The path of a job.
    fn job_path(&self, job_id: &str) -> (r: String)
        requires
            bulk_ready(self.client@),
        ensures
            r@ == async_path(self.client@) + "/job/"@ + job_id@,
    {
        let mut path = self.resource("/job/");
        path.append(job_id);
        path
    }

    /// The path of a batch of a job.
    fn batch_path(&self, job_id: &str, batch_id: &str) -> (r: String)
        requires
            bulk_ready(self.client@),
        ensures
            r@ == async_path(self.client@) + "/job/"@ + job_id@ + "/batch/"@ + batch_id@,
    {
        let mut path = self.job_path(job_id);
        path.append("/batch/");
        path.append(batch_id);
        path
    }

    /// The header that carries the session: the first bulk API takes the
    /// token under a name of its own.
    fn get_auth_headers(&self) -> (r: Vec<(String, String)>)
        ensures
            pairs(r@) == session_header(self.client@),
    {
        let value = match &self.client.access_token {
            Some(token) => token.value.clone(),
            None => String::new(),
        };
        one_pair("X-SFDC-Session", value.as_str())
    }

    /// Creates a job from the caller's value.
    pub fn create_job(&self) -> (r: Result<Request, Error>)
        requires
            bulk_ready(self.client@),
        ensures
            self.client@.yields(
                session_header(self.client@),
                self.client@.call(
                    Method::Post,
                    async_path(self.client@) + "/job"@,
                    session_header(self.client@),
                    Seq::empty(),
                    PayloadView::Json,
                ),
                r,
            ),
    {
        self.client.post(self.resource("/job"), self.get_auth_headers())
    }

    /// Adds a batch of CSV rows to a job.
    pub fn add_batch_job(&self, job_id: &str, csv: Vec<u8>) -> (r: Result<Request, Error>)
        requires
            bulk_ready(self.client@),
        ensures
            self.client@.yields(
                typed_headers(self.client@, "text/csv"@),
                self.client@.call(
                    Method::Post,
                    async_path(self.client@) + "/job/"@ + job_id@ + "/batch"@,
                    typed_headers(self.client@, "text/csv"@),
                    Seq::empty(),
                    PayloadView::Raw(csv@),
                ),
                r,
            ),
    {
        let mut url = self.job_path(job_id);
        url.append("/batch");
        let headers = push_pair(self.get_auth_headers(), "Content-Type", "text/csv");
        self.client.post_raw_buffer(url, csv, headers)
    }

    /// Reads the state of a batch.
    pub fn get_batch(&self, job_id: &str, batch_id: &str) -> (r: Result<Request, Error>)
        requires
            bulk_ready(self.client@),
        ensures
            self.client@.yields(
                session_header(self.client@),
                RequestView {
                    method: Method::Get,
                    url: async_path(self.client@) + "/job/"@ + job_id@ + "/batch/"@ + batch_id@
                        + "/"@,
                    headers: self.client@.raw_headers(session_header(self.client@)),
                    query: Seq::empty(),
                    payload: PayloadView::Empty,
                },
                r,
            ),
    {
        let mut url = self.batch_path(job_id, batch_id);
        url.append("/");
        self.client.get_raw(url.as_str(), self.get_auth_headers())
    }

    /// The request that sets the state of a job.
    fn set_state(&self, job_id: &str, headers: Vec<(String, String)>, state: &str) -> (r: Result<
        Request,
        Error,
    >)
        requires
            bulk_ready(self.client@),
            headers@.len() <= 2,
        ensures
            self.client@.yields(
                pairs(headers@),
                self.client@.call(
                    Method::Post,
                    async_path(self.client@) + "/job/"@ + job_id@,
                    pairs(headers@),
                    Seq::empty(),
                    PayloadView::JsonObject(seq![("state"@, state@)]),
                ),
                r,
            ),
    {
        let mut request = self.client.post(self.job_path(job_id), headers)?;
        request.payload = Payload::JsonObject(one_pair("state", state));
        Ok(request)
    }

    /// Closes a job.
    pub fn close_job(&self, job_id: &str) -> (r: Result<Request, Error>)
        requires
            bulk_ready(self.client@),
        ensures
            self.client@.yields(
                session_header(self.client@),
                self.client@.call(
                    Method::Post,
                    async_path(self.client@) + "/job/"@ + job_id@,
                    session_header(self.client@),
                    Seq::empty(),
                    PayloadView::JsonObject(seq![("state"@, "Closed"@)]),
                ),
                r,
            ),
    {
        self.set_state(job_id, self.get_auth_headers(), "Closed")
    }

    /// Reads the details of a job.
    pub fn get_job_details(&self, job_id: &str) -> (r: Result<Request, Error>)
        requires
            bulk_ready(self.client@),
        ensures
            self.client@.yields(
                session_header(self.client@),
                RequestView {
                    method: Method::Get,
                    url: async_path(self.client@) + "/job/"@ + job_id@,
                    headers: self.client@.raw_headers(session_header(self.client@)),
                    query: Seq::empty(),
                    payload: PayloadView::Empty,
                },
                r,
            ),
    {
        let url = self.job_path(job_id);
        self.client.get_raw(url.as_str(), self.get_auth_headers())
    }

    /// A GET that negotiates its own content, with the session header and a
    /// content type.
    fn get_typed(&self, url: String, content_type: &str) -> (r: Result<Request, Error>)
        ensures
            self.client@.yields(
                typed_headers(self.client@, content_type@),
                RequestView {
                    method: Method::Get,
                    url: url@,
                    headers: self.client@.raw_headers(typed_headers(self.client@, content_type@)),
                    query: Seq::empty(),
                    payload: PayloadView::Empty,
                },
                r,
            ),
    {
        let headers = push_pair(self.get_auth_headers(), "Content-Type", content_type);
        self.client.get_raw(url.as_str(), headers)
    }

    /// Lists the batches of a job.
    pub fn get_batches(&self, job_id: &str, content_type: &str) -> (r: Result<Request, Error>)
        requires
            bulk_ready(self.client@),
        ensures
            self.client@.yields(
                typed_headers(self.client@, content_type@),
                RequestView {
                    method: Method::Get,
                    url: async_path(self.client@) + "/job/"@ + job_id@ + "/batch"@,
                    headers: self.client@.raw_headers(typed_headers(self.client@, content_type@)),
                    query: Seq::empty(),
                    payload: PayloadView::Empty,
                },
                r,
            ),
    {
        let mut url = self.job_path(job_id);
        url.append("/batch");
        self.get_typed(url, content_type)
    }

    /// Lists the results of a batch.
    pub fn get_result_list(&self, job_id: &str, batch_id: &str, content_type: &str) -> (r: Result<
        Request,
        Error,
    >)
        requires
            bulk_ready(self.client@),
        ensures
            self.client@.yields(
                typed_headers(self.client@, content_type@),
                RequestView {
                    method: Method::Get,
                    url: async_path(self.client@) + "/job/"@ + job_id@ + "/batch/"@ + batch_id@
                        + "/result"@,
                    headers: self.client@.raw_headers(typed_headers(self.client@, content_type@)),
                    query: Seq::empty(),
                    payload: PayloadView::Empty,
                },
                r,
            ),
    {
        let mut url = self.batch_path(job_id, batch_id);
        url.append("/result");
        self.get_typed(url, content_type)
    }

    /// Reads one result of a batch, as XML.
    pub fn get_result(&self, job_id: &str, batch_id: &str, result_id: &str) -> (r: Result<
        Request,
        Error,
    >)
        requires
            bulk_ready(self.client@),
        ensures
            self.client@.yields(
                typed_headers(self.client@, "application/xml"@),
                RequestView {
                    method: Method::Get,
                    url: async_path(self.client@) + "/job/"@ + job_id@ + "/batch/"@ + batch_id@
                        + "/result/"@ + result_id@,
                    headers: self.client@.raw_headers(
                        typed_headers(self.client@, "application/xml"@),
                    ),
                    query: Seq::empty(),
                    payload: PayloadView::Empty,
                },
                r,
            ),
    {
        let mut url = self.batch_path(job_id, batch_id);
        url.append("/result/");
        url.append(result_id);
        self.get_typed(url, "application/xml")
    }

    /// Aborts a job.
    pub fn abort_job(&self, job_id: &str) -> (r: Result<Request, Error>)
        requires
            bulk_ready(self.client@),
        ensures
            self.client@.yields(
                typed_headers(self.client@, "application/json"@),
                self.client@.call(
                    Method::Post,
                    async_path(self.client@) + "/job/"@ + job_id@,
                    typed_headers(self.client@, "application/json"@),
                    Seq::empty(),
                    PayloadView::JsonObject(seq![("state"@, "Aborted"@)]),
                ),
                r,
            ),
    {
        let headers = push_pair(self.get_auth_headers(), "Content-Type", "application/json");
        self.set_state(job_id, headers, "Aborted")
    }
}

} // verus!
