//! The headers of the authenticated calls: the bearer token, the accepted
//! reply, and what the caller adds.
use vstd::prelude::*;
use vstd::string::StringExecFns;
use vstd::utf8::encode_utf8;
use reqwest::header::HeaderMap;
use crate::client::client::{Client, ClientView};
use crate::errors::{Error, ErrorView};
use crate::http::{
    header_entries, headers_fault, lemma_last_header_wins, lemma_plain_text_is_header_value,
    new_header_map, no_headers, normalized_header_name, override_header, set_header,
    valid_header_name, valid_header_value, with_header, with_headers, Headers, Method,
    PayloadView, Request, RequestView, MAX_HEADER_NAMES,
};
use crate::text::{no_pairs, pairs};

verus! {

impl ClientView {
    /// The value of the `Authorization` header.
    pub open spec fn bearer(self) -> Seq<char> {
        "Bearer "@ + self.token_value()
    }

    /// The headers of every authenticated call: the bearer token, and JSON
    /// as the accepted reply.
    pub open spec fn default_headers(self) -> Headers {
        with_header(
            with_header(no_headers(), "authorization"@, self.bearer()),
            "Accept"@,
            "application/json"@,
        )
    }

    /// The headers of an authenticated call to which the caller adds `extra`:
    /// the defaults, then each header of `extra` in order, each replacing
    /// what was there under its name.
    pub open spec fn headers(self, extra: Seq<(Seq<char>, Seq<char>)>) -> Headers {
        with_headers(self.default_headers(), extra)
    }

    /// Why the headers of an authenticated call cannot be built, if they
    /// cannot: no token; a token that cannot stand in a header; or the first
    /// header of `extra` whose name or value is not accepted.
    pub open spec fn headers_fault(self, extra: Seq<(Seq<char>, Seq<char>)>) -> Option<
        ErrorView,
    > {
        if !self.has_token() {
            Some(ErrorView::NotLoggedIn)
        } else if !valid_header_value(self.bearer()) {
            Some(ErrorView::TransportError("Invalid Header Value"@))
        } else {
            headers_fault(extra)
        }
    }

    /// Why an authenticated call cannot be made, if it cannot; see
    /// [`ClientView::headers_fault`].
    pub open spec fn call_fault(self) -> Option<ErrorView> {
        self.headers_fault(Seq::empty())
    }

    /// The headers of a call that negotiates its own content: those of
    /// [`ClientView::headers`] without any `Accept`.
    pub open spec fn raw_headers(self, extra: Seq<(Seq<char>, Seq<char>)>) -> Headers {
        self.headers(extra).remove(normalized_header_name("Accept"@))
    }

    /// The headers of a CSV upload: the defaults, with the content type of
    /// CSV and JSON as the accepted reply.
    pub open spec fn upload_headers(self) -> Headers {
        with_header(
            with_header(self.headers(Seq::empty()), "Content-Type"@, "text/csv"@),
            "Accept"@,
            "application/json"@,
        )
    }

    /// An authenticated call: the verb, the address, the headers with the
    /// caller's `extra`, the query and the payload.
    pub open spec fn call(
        self,
        method: Method,
        url: Seq<char>,
        extra: Seq<(Seq<char>, Seq<char>)>,
        query: Seq<(Seq<char>, Seq<char>)>,
        payload: PayloadView,
    ) -> RequestView {
        RequestView { method, url, headers: self.headers(extra), query, payload }
    }

    /// Whether `r` is what an authenticated call with the caller's `extra`
    /// headers comes to: the request `expected` where the headers can be
    /// built, and the fault of [`ClientView::headers_fault`] where not.
    pub open spec fn yields(
        self,
        extra: Seq<(Seq<char>, Seq<char>)>,
        expected: RequestView,
        r: Result<Request, Error>,
    ) -> bool {
        match r {
            Ok(request) => self.headers_fault(extra) is None && request@ == expected,
            Err(e) => Some(e@) == self.headers_fault(extra),
        }
    }
}

/// The header names that the client itself writes are accepted.
pub proof fn lemma_own_names_are_valid()
    ensures
        valid_header_name("authorization"@),
        valid_header_name("Accept"@),
        valid_header_name("Content-Type"@),
        valid_header_name("SOAPAction"@),
{
    reveal_strlit("authorization");
    reveal_strlit("Accept");
    reveal_strlit("Content-Type");
    reveal_strlit("SOAPAction");
}

/// The header values that the client itself writes are accepted.
pub proof fn lemma_own_values_are_valid()
    ensures
        valid_header_value("application/json"@),
        valid_header_value("text/csv"@),
        valid_header_value("text/xml"@),
        valid_header_value("\"\""@),
{
    reveal_strlit("application/json");
    reveal_strlit("text/csv");
    reveal_strlit("text/xml");
    reveal_strlit("\"\"");
    lemma_plain_text_is_header_value("application/json"@);
    lemma_plain_text_is_header_value("text/csv"@);
    lemma_plain_text_is_header_value("text/xml"@);
    lemma_plain_text_is_header_value("\"\""@);
}

/// The names under which the client's own headers are kept.
pub proof fn lemma_own_names_in_lower_case()
    ensures
        normalized_header_name("authorization"@) == "authorization"@,
        normalized_header_name("Accept"@) == "accept"@,
        normalized_header_name("Content-Type"@) == "content-type"@,
        normalized_header_name("SOAPAction"@) == "soapaction"@,
{
    reveal_strlit("authorization");
    reveal_strlit("Accept");
    reveal_strlit("accept");
    reveal_strlit("Content-Type");
    reveal_strlit("content-type");
    reveal_strlit("SOAPAction");
    reveal_strlit("soapaction");
    assert(normalized_header_name("authorization"@) =~= "authorization"@);
    assert(normalized_header_name("Accept"@) =~= "accept"@);
    assert(normalized_header_name("Content-Type"@) =~= "content-type"@);
    assert(normalized_header_name("SOAPAction"@) =~= "soapaction"@);
}

/// The headers of every authenticated call are two: `authorization` with
/// the bearer token, and `accept` with JSON, each with one value.
pub proof fn lemma_default_headers(c: ClientView)
    ensures
        c.default_headers().dom() == set!["authorization"@, "accept"@],
        c.default_headers()["authorization"@] == seq![encode_utf8(c.bearer())],
        c.default_headers()["accept"@] == seq![encode_utf8("application/json"@)],
{
    lemma_own_names_in_lower_case();
    reveal_strlit("authorization");
    reveal_strlit("accept");
    assert("authorization"@ != "accept"@) by {
        assert("authorization"@.len() != "accept"@.len());
    }
    assert(c.default_headers().dom() =~= set!["authorization"@, "accept"@]);
}

impl Client {
    /// The headers of an authenticated call: `Authorization` with the bearer
    /// token, `Accept: application/json`, then the caller's headers in
    /// order. A caller's header replaces any header of the same name.
    pub fn create_header(&self, additional_headers: Vec<(String, String)>) -> (r: Result<
        HeaderMap,
        Error,
    >)
        requires
            additional_headers@.len() + 2 <= MAX_HEADER_NAMES,
        ensures
            r is Ok == self@.headers_fault(pairs(additional_headers@)) is None,
            r matches Ok(m) ==> header_entries(m) == self@.headers(pairs(additional_headers@)),
            r matches Err(e) ==> Some(e@) == self@.headers_fault(pairs(additional_headers@)),
    {
        let token = match &self.access_token {
            Some(token) => token,
            None => {
                return Err(Error::NotLoggedIn);
            },
        };
        if token.value.as_str().is_empty() {
            return Err(Error::NotLoggedIn);
        }
        let mut auth_value = String::from_str("Bearer ");
        auth_value.append(token.value.as_str());
        let ghost extra = pairs(additional_headers@);
        proof {
            lemma_own_names_are_valid();
            lemma_own_values_are_valid();
        }
        let mut headers = new_header_map();
        match override_header(&mut headers, "authorization", auth_value.as_str()) {
            Ok(_) => {},
            Err(e) => {
                return Err(e);
            },
        }
        set_header(&mut headers, "Accept", "application/json");
        let n = additional_headers.len();
        let mut i: usize = 0;
        assert(extra.take(0) =~= Seq::empty());
        assert(extra.skip(0) =~= extra);
        while i < n
            invariant
                i <= n,
                n == additional_headers@.len(),
                n + 2 <= MAX_HEADER_NAMES,
                extra == pairs(additional_headers@),
                self@.has_token(),
                valid_header_value(self@.bearer()),
                header_entries(headers) == self@.headers(extra.take(i as int)),
                headers_fault(extra) == headers_fault(extra.skip(i as int)),
                header_entries(headers).dom().finite(),
                header_entries(headers).dom().len() <= i + 2,
            decreases n - i,
        {
            let ghost rest = extra.skip(i as int);
            assert(rest[0] == extra[i as int]);
            assert(rest.drop_first() =~= extra.skip(i + 1));
            let ghost done = extra.take(i + 1);
            assert(done.drop_last() =~= extra.take(i as int));
            assert(done.last() == extra[i as int]);
            match override_header(
                &mut headers,
                additional_headers[i].0.as_str(),
                additional_headers[i].1.as_str(),
            ) {
                Ok(_) => {},
                Err(e) => {
                    return Err(e);
                },
            }
            i += 1;
        }
        assert(extra.take(n as int) =~= extra);
        Ok(headers)
    }

    /// The headers of a call to which the caller adds none.
    pub(crate) fn plain_headers(&self) -> (r: Result<HeaderMap, Error>)
        ensures
            r is Ok == self@.call_fault() is None,
            r matches Ok(m) ==> header_entries(m) == self@.headers(Seq::empty())
                && header_entries(m).dom().finite() && header_entries(m).dom().len() <= 2,
            r matches Err(e) ==> Some(e@) == self@.call_fault(),
    {
        self.create_header(no_pairs())
    }
}

/// Of the headers that a caller adds under one name, the last is the only
/// one that the call carries under that name, and it replaces a default of
/// the same name.
pub proof fn lemma_caller_header_replaces(c: ClientView, extra: Seq<(Seq<char>, Seq<char>)>, i: int)
    requires
        0 <= i < extra.len(),
        forall|j: int|
            i < j < extra.len() ==> normalized_header_name(#[trigger] extra[j].0)
                != normalized_header_name(extra[i].0),
    ensures
        c.headers(extra).dom().contains(normalized_header_name(extra[i].0)),
        c.headers(extra)[normalized_header_name(extra[i].0)] == seq![encode_utf8(extra[i].1)],
        c.headers(extra)[normalized_header_name(extra[i].0)].len() == 1,
{
    lemma_last_header_wins(c.default_headers(), extra, i);
}

/// A caller's `Accept`, however it is capitalised, replaces the default
/// one: the call carries exactly one `Accept`, with the caller's value.
pub proof fn lemma_accept_override(c: ClientView, name: Seq<char>, value: Seq<char>)
    requires
        normalized_header_name(name) == normalized_header_name("Accept"@),
    ensures
        c.default_headers()[normalized_header_name("Accept"@)] == seq![
            encode_utf8("application/json"@),
        ],
        c.headers(seq![(name, value)])[normalized_header_name("Accept"@)] == seq![
            encode_utf8(value),
        ],
{
    lemma_caller_header_replaces(c, seq![(name, value)], 0);
}

} // verus!
