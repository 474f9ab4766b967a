//! The requests of the second bulk API: ingest jobs and their data.
use vstd::prelude::*;
use vstd::string::StringExecFns;
use crate::client::client::{Client, ClientView};
use crate::errors::Error;
use crate::http::{Method, Payload, PayloadView, Request, RequestView};
use crate::text::{clone_or_empty, no_pairs, one_pair};

verus! {

/// The second bulk API of one session.
pub struct BulkApiV2 {
    pub client: Client,
}

impl Default for BulkApiV2 {
    /// The bulk API of an empty session.
    fn default() -> (r: BulkApiV2)
        ensures
            r.client@ == ClientView::empty(),
    {
        BulkApiV2 { client: <Client as Default>::default() }
    }
}

/// The path of the ingest jobs.
pub open spec fn ingest_path(c: ClientView) -> Seq<char> {
    c.data_path() + "/jobs/ingest"@
}

impl BulkApiV2 {
    pub fn new(client: Client) -> (r: BulkApiV2)
        ensures
            r.client == client,
    {
        BulkApiV2 { client }
    }

    /// The start of the resource paths on the instance.
    fn base_path(&self) -> (r: String)
        ensures
            r@ == self.client@.data_path(),
    {
        let mut path = clone_or_empty(&self.client.instance_url);
        path.append("/services/data/");
        path.append(self.client.version.as_str());
        path
    }

    /// The path of the ingest jobs, followed by `tail`.
    fn ingest(&self, tail: &str) -> (r: String)
        ensures
            r@ == ingest_path(self.client@) + tail@,
    {
        let mut path = self.base_path();
        path.append("/jobs/ingest");
        path.append(tail);
        path
    }

    /// The path of one ingest job.
    fn job_path(&self, job_id: &str) -> (r: String)
        ensures
            r@ == ingest_path(self.client@) + "/"@ + job_id@,
    {
        let mut path = self.ingest("/");
        path.append(job_id);
        path
    }

    /// Creates an ingest job from the caller's value.
    pub fn create_job(&self) -> (r: Result<Request, Error>)
        requires
            self.client.instance_url is Some,
        ensures
            self.client@.yields(
                Seq::empty(),
                self.client@.call(
                    Method::Post,
                    ingest_path(self.client@),
                    Seq::empty(),
                    Seq::empty(),
                    PayloadView::Json,
                ),
                r,
            ),
    {
        let url = self.ingest("");
        assert(url@ =~= ingest_path(self.client@)) by {
            reveal_strlit("");
        }
        self.client.post(url, no_pairs())
    }

    /// Uploads the CSV rows of a job. A reply with a success status means
    /// [`BulkApiV2::uploaded`]; any other carries one error.
    pub fn upload_job_data(&self, job_id: &str, csv: Vec<u8>) -> (r: Result<Request, Error>)
        requires
            self.client.instance_url is Some,
        ensures
            self.client@.yields(
                Seq::empty(),
                RequestView {
                    method: Method::Put,
                    url: ingest_path(self.client@) + "/"@ + job_id@ + "/batches"@,
                    headers: self.client@.upload_headers(),
                    query: Seq::empty(),
                    payload: PayloadView::Raw(csv@),
                },
                r,
            ),
    {
        let mut url = self.job_path(job_id);
        url.append("/batches");
        self.client.put(url, csv)
    }

    /// What a successful upload is answered with.
    pub fn uploaded() -> (r: String)
        ensures
            r@ == "Created"@,
    {
        String::from_str("Created")
    }

    /// Lists the ingest jobs.
    pub fn get_all_jobs(&self) -> (r: Result<Request, Error>)
        requires
            self.client.instance_url is Some,
        ensures
            self.client@.yields(
                Seq::empty(),
                self.client@.call(
                    Method::Get,
                    ingest_path(self.client@) + "/"@,
                    Seq::empty(),
                    Seq::empty(),
                    PayloadView::Empty,
                ),
                r,
            ),
    {
        self.client.get(self.ingest("/"), no_pairs())
    }

    /// Reads one ingest job.
    pub fn get_job_info(&self, job_id: &str) -> (r: Result<Request, Error>)
        requires
            self.client.instance_url is Some,
        ensures
            self.client@.yields(
                Seq::empty(),
                self.client@.call(
                    Method::Get,
                    ingest_path(self.client@) + "/"@ + job_id@,
                    Seq::empty(),
                    Seq::empty(),
                    PayloadView::Empty,
                ),
                r,
            ),
    {
        self.client.get(self.job_path(job_id), no_pairs())
    }

    /// Reads one set of the records of a job: the successful, the failed or
    /// the unprocessed ones.
    pub fn get_job_records(&self, job_id: &str, result_set: &str) -> (r: Result<Request, Error>)
        requires
            self.client.instance_url is Some,
        ensures
            self.client@.yields(
                Seq::empty(),
                RequestView {
                    method: Method::Get,
                    url: ingest_path(self.client@) + "/"@ + job_id@ + "/"@ + result_set@,
                    headers: self.client@.raw_headers(Seq::empty()),
                    query: Seq::empty(),
                    payload: PayloadView::Empty,
                },
                r,
            ),
    {
        let mut url = self.job_path(job_id);
        url.append("/");
        url.append(result_set);
        self.client.get_raw(url.as_str(), no_pairs())
    }

    /// Aborts an ingest job.
    pub fn abort_job(&self, job_id: &str) -> (r: Result<Request, Error>)
        requires
            self.client.instance_url is Some,
        ensures
            self.client@.yields(
                Seq::empty(),
                self.client@.call(
                    Method::Patch,
                    ingest_path(self.client@) + "/"@ + job_id@,
                    Seq::empty(),
                    Seq::empty(),
                    PayloadView::JsonObject(seq![("state"@, "Aborted"@)]),
                ),
                r,
            ),
    {
        let mut request = self.client.patch(self.job_path(job_id))?;
        request.payload = Payload::JsonObject(one_pair("state", "Aborted"));
        Ok(request)
    }

    /// Sets the state of an upload from the caller's value.
    pub fn set_upload_state(&self, job_id: &str) -> (r: Result<Request, Error>)
        requires
            self.client.instance_url is Some,
        ensures
            self.client@.yields(
                Seq::empty(),
                self.client@.call(
                    Method::Patch,
                    ingest_path(self.client@) + "/"@ + job_id@,
                    Seq::empty(),
                    Seq::empty(),
                    PayloadView::Json,
                ),
                r,
            ),
    {
        self.client.patch(self.job_path(job_id))
    }

    /// Reads the state of an ingest job.
    pub fn check_job_status(&self, job_id: &str) -> (r: Result<Request, Error>)
        requires
            self.client.instance_url is Some,
        ensures
            self.client@.yields(
                Seq::empty(),
                self.client@.call(
                    Method::Get,
                    ingest_path(self.client@) + "/"@ + job_id@ + "/"@,
                    Seq::empty(),
                    Seq::empty(),
                    PayloadView::Empty,
                ),
                r,
            ),
    {
        let mut url = self.job_path(job_id);
        url.append("/");
        self.client.get(url, no_pairs())
    }
}

} // verus!
