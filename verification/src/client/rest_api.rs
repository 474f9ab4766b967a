//! The requests of the REST resources: queries, searches, and the reading
//! and writing of records.
use vstd::prelude::*;
use vstd::string::StringExecFns;
use crate::client::client::{or_empty, Client, ClientView};
use crate::errors::{fails_with, Error, ErrorView};
use crate::http::{Method, PayloadView, Request};
use crate::text::{clone_or_empty, join, no_pairs, one_pair};

verus! {

/// The REST resources of one session.
pub struct RestApi {
    pub client: Client,
}

impl Default for RestApi {
    /// The resources of an empty session.
    fn default() -> (r: RestApi)
        ensures
            r.client@ == ClientView::empty(),
    {
        RestApi { client: <Client as Default>::default() }
    }
}

impl RestApi {
    pub fn new(client: Client) -> (r: RestApi)
        ensures
            r.client == client,
    {
        RestApi { client }
    }

    /// The start of the resource paths on the instance.
    fn base_path(&self) -> (r: String)
        ensures
            r@ == self.client@.data_path(),
    {
        let mut path = clone_or_empty(&self.client.instance_url);
        path.append("/services/data/");
        path.append(self.client.version.as_str());
        path
    }

    /// The path of a resource below [`RestApi::base_path`].
    fn resource(&self, tail: &str) -> (r: String)
        ensures
            r@ == self.client@.data_path() + tail@,
    {
        let mut path = self.base_path();
        path.append(tail);
        path
    }

    /// A GET with the query text as its `q`.
    fn query_at(&self, tail: &str, query: &str) -> (r: Result<Request, Error>)
        ensures
            self.client@.yields(
                Seq::empty(),
                self.client@.call(
                    Method::Get,
                    self.client@.data_path() + tail@,
                    Seq::empty(),
                    seq![("q"@, query@)],
                    PayloadView::Empty,
                ),
                r,
            ),
    {
        self.client.get(self.resource(tail), one_pair("q", query))
    }

    /// Runs a SOQL query.
    pub fn query(&self, query: &str) -> (r: Result<Request, Error>)
        requires
            self.client.instance_url is Some,
        ensures
            self.client@.yields(
                Seq::empty(),
                self.client@.call(
                    Method::Get,
                    self.client@.data_path() + "/query/"@,
                    Seq::empty(),
                    seq![("q"@, query@)],
                    PayloadView::Empty,
                ),
                r,
            ),
    {
        self.query_at("/query/", query)
    }

    /// Runs a SOQL query that also sees deleted and archived records.
    pub fn query_all(&self, query: &str) -> (r: Result<Request, Error>)
        requires
            self.client.instance_url is Some,
        ensures
            self.client@.yields(
                Seq::empty(),
                self.client@.call(
                    Method::Get,
                    self.client@.data_path() + "/queryAll/"@,
                    Seq::empty(),
                    seq![("q"@, query@)],
                    PayloadView::Empty,
                ),
                r,
            ),
    {
        self.query_at("/queryAll/", query)
    }

    /// Fetches the next page of a query.
    pub fn query_more(&self, next_records_url: &str) -> (r: Result<Request, Error>)
        requires
            self.client.instance_url is Some,
        ensures
            self.client@.yields(
                Seq::empty(),
                self.client@.call(
                    Method::Get,
                    or_empty(self.client@.instance_url) + "/"@ + next_records_url@,
                    Seq::empty(),
                    Seq::empty(),
                    PayloadView::Empty,
                ),
                r,
            ),
    {
        let mut url = clone_or_empty(&self.client.instance_url);
        url.append("/");
        url.append(next_records_url);
        self.client.get(url, no_pairs())
    }

    /// Runs a SOSL search.
    pub fn search_sosl(&self, query: &str) -> (r: Result<Request, Error>)
        requires
            self.client.instance_url is Some,
        ensures
            self.client@.yields(
                Seq::empty(),
                self.client@.call(
                    Method::Get,
                    self.client@.data_path() + "/search/"@,
                    Seq::empty(),
                    seq![("q"@, query@)],
                    PayloadView::Empty,
                ),
                r,
            ),
    {
        self.query_at("/search/", query)
    }

    /// Lists the API versions of the instance. A session that knows no
    /// instance URL is not logged in.
    pub fn versions(&self) -> (r: Result<Request, Error>)
        ensures
            self.client.instance_url is None ==> fails_with(r, ErrorView::NotLoggedIn),
            self.client.instance_url is Some ==> self.client@.yields(
                Seq::empty(),
                self.client@.call(
                    Method::Get,
                    or_empty(self.client@.instance_url) + "/services/data/"@,
                    Seq::empty(),
                    Seq::empty(),
                    PayloadView::Empty,
                ),
                r,
            ),
    {
        let instance_url = match &self.client.instance_url {
            Some(url) => url,
            None => {
                return Err(Error::NotLoggedIn);
            },
        };
        let versions_url = join(instance_url.as_str(), "/services/data/");
        self.client.get(versions_url, no_pairs())
    }

    /// The path of one record.
    fn record_path(&self, sobject_name: &str, id: &str) -> (r: String)
        ensures
            r@ == self.client@.data_path() + "/sobjects/"@ + sobject_name@ + "/"@ + id@,
    {
        let mut path = self.resource("/sobjects/");
        path.append(sobject_name);
        path.append("/");
        path.append(id);
        path
    }

    /// Reads one record.
    pub fn find_by_id(&self, sobject_name: &str, id: &str) -> (r: Result<Request, Error>)
        requires
            self.client.instance_url is Some,
        ensures
            self.client@.yields(
                Seq::empty(),
                self.client@.call(
                    Method::Get,
                    self.client@.data_path() + "/sobjects/"@ + sobject_name@ + "/"@ + id@,
                    Seq::empty(),
                    Seq::empty(),
                    PayloadView::Empty,
                ),
                r,
            ),
    {
        self.client.get(self.record_path(sobject_name, id), no_pairs())
    }

    /// Creates a record from the caller's value.
    pub fn create(&self, object_name: &str) -> (r: Result<Request, Error>)
        requires
            self.client.instance_url is Some,
        ensures
            self.client@.yields(
                Seq::empty(),
                self.client@.call(
                    Method::Post,
                    self.client@.data_path() + "/sobjects/"@ + object_name@,
                    Seq::empty(),
                    Seq::empty(),
                    PayloadView::Json,
                ),
                r,
            ),
    {
        let mut url = self.resource("/sobjects/");
        url.append(object_name);
        self.client.post(url, no_pairs())
    }

    /// Updates a record from the caller's value.
    pub fn update(&self, object_name: &str, id: &str) -> (r: Result<Request, Error>)
        requires
            self.client.instance_url is Some,
        ensures
            self.client@.yields(
                Seq::empty(),
                self.client@.call(
                    Method::Patch,
                    self.client@.data_path() + "/sobjects/"@ + object_name@ + "/"@ + id@,
                    Seq::empty(),
                    Seq::empty(),
                    PayloadView::Json,
                ),
                r,
            ),
    {
        self.client.patch(self.record_path(object_name, id))
    }

    /// Creates or updates the record that an external key names, from the
    /// caller's value.
    pub fn upsert(&self, sobject_name: &str, key_name: &str, key: &str) -> (r: Result<
        Request,
        Error,
    >)
        requires
            self.client.instance_url is Some,
        ensures
            self.client@.yields(
                Seq::empty(),
                self.client@.call(
                    Method::Patch,
                    self.client@.data_path() + "/sobjects/"@ + sobject_name@ + "/"@ + key_name@
                        + "/"@ + key@,
                    Seq::empty(),
                    Seq::empty(),
                    PayloadView::Json,
                ),
                r,
            ),
    {
        let mut url = self.record_path(sobject_name, key_name);
        url.append("/");
        url.append(key);
        self.client.patch(url)
    }

    /// Deletes a record.
    pub fn destroy(&self, sobject_name: &str, id: &str) -> (r: Result<Request, Error>)
        requires
            self.client.instance_url is Some,
        ensures
            self.client@.yields(
                Seq::empty(),
                self.client@.call(
                    Method::Delete,
                    self.client@.data_path() + "/sobjects/"@ + sobject_name@ + "/"@ + id@,
                    Seq::empty(),
                    Seq::empty(),
                    PayloadView::Empty,
                ),
                r,
            ),
    {
        self.client.delete(self.record_path(sobject_name, id))
    }

    /// Lists the objects of the instance.
    pub fn describe_global(&self) -> (r: Result<Request, Error>)
        requires
            self.client.instance_url is Some,
        ensures
            self.client@.yields(
                Seq::empty(),
                self.client@.call(
                    Method::Get,
                    self.client@.data_path() + "/sobjects"@,
                    Seq::empty(),
                    Seq::empty(),
                    PayloadView::Empty,
                ),
                r,
            ),
    {
        self.client.get(self.resource("/sobjects"), no_pairs())
    }

    /// Describes one object.
    pub fn describe(&self, object_name: &str) -> (r: Result<Request, Error>)
        requires
            self.client.instance_url is Some,
        ensures
            self.client@.yields(
                Seq::empty(),
                self.client@.call(
                    Method::Get,
                    self.client@.data_path() + "/sobjects/"@ + object_name@ + "/describe"@,
                    Seq::empty(),
                    Seq::empty(),
                    PayloadView::Empty,
                ),
                r,
            ),
    {
        let mut url = self.resource("/sobjects/");
        url.append(object_name);
        url.append("/describe");
        self.client.get(url, no_pairs())
    }
}

} // verus!
