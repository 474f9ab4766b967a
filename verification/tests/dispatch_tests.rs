use rustforce::client::client::Client;
use rustforce::errors::Error;
use rustforce::http::{
    classify, is_success, outcome, Decoded, Method, Payload, ReplyShape, Request,
    MAX_HEADER_NAMES,
};
use rustforce::responses::error_response::ErrorResponse;

fn session() -> Client {
    let mut client = Client::new();
    client.set_instance_url("https://dbz.salesforce.com");
    client.set_access_token("Token9000".to_string(), "1700000000000".to_string(), "Bearer".to_string());
    client
}

fn list(items: &[(&str, &str)]) -> Vec<(String, String)> {
    items.iter().map(|(k, v)| (k.to_string(), v.to_string())).collect()
}

fn header(request: &Request, name: &str) -> Option<String> {
    request.headers.get(name).map(|v| v.to_str().unwrap().to_string())
}

fn not_logged_in<T: std::fmt::Debug>(result: Result<T, Error>) -> bool {
    matches!(result, Err(Error::NotLoggedIn))
}

#[test]
fn every_call_fails_without_a_token() {
    let client = Client::new();
    assert!(not_logged_in(client.create_header(vec![])));
    assert!(not_logged_in(client.create_header(list(&[("bad name", "x")]))));
    assert!(not_logged_in(client.get("https://x".to_string(), vec![])));
    assert!(not_logged_in(client.get_identity("https://x".to_string())));
    assert!(not_logged_in(client.get_raw("https://x", vec![])));
    assert!(not_logged_in(client.post("https://x".to_string(), vec![])));
    assert!(not_logged_in(client.post_raw_buffer("https://x".to_string(), vec![1], vec![])));
    assert!(not_logged_in(client.put("https://x".to_string(), vec![1])));
    assert!(not_logged_in(client.patch("https://x".to_string())));
    assert!(not_logged_in(client.delete("https://x".to_string())));
    assert!(not_logged_in(client.rest_get("/p".to_string(), vec![])));
    assert!(not_logged_in(client.rest_post("/p".to_string())));
    assert!(not_logged_in(client.rest_patch("/p".to_string())));
    assert!(not_logged_in(client.rest_put("/p".to_string())));
    assert!(not_logged_in(client.rest_delete("/p".to_string())));
    assert!(not_logged_in(client.rest_get_fulluri("x?a=1")));
    assert!(matches!(client.try_rest_get_fulluri("x?a=1"), Some(Err(Error::NotLoggedIn))));
    assert!(matches!(client.ensure_refresh(u128::MAX), Ok(None)));
}

#[test]
fn every_call_fails_with_an_empty_token() {
    let mut client = Client::new();
    client.set_instance_url("https://dbz.salesforce.com");
    client.set_access_token("".to_string(), "0".to_string(), "Bearer".to_string());
    assert!(not_logged_in(client.create_header(vec![])));
    assert!(not_logged_in(client.get("https://x".to_string(), vec![])));
    assert!(not_logged_in(client.post("https://x".to_string(), list(&[("Accept", "a/b")]))));
    assert!(not_logged_in(client.rest_get("/p".to_string(), vec![])));
    assert!(matches!(client.ensure_refresh(u128::MAX), Ok(None)));
}

#[test]
fn default_headers_are_bearer_token_and_json() {
    let headers = session().create_header(vec![]).unwrap();
    assert_eq!(headers.len(), 2);
    assert_eq!(headers.get("authorization").unwrap(), "Bearer Token9000");
    assert_eq!(headers.get("accept").unwrap(), "application/json");
}

#[test]
fn an_override_replaces_the_default_of_its_name() {
    let headers = session().create_header(list(&[("Accept", "text/csv")])).unwrap();
    assert_eq!(headers.len(), 2);
    assert_eq!(headers.get_all("accept").iter().count(), 1);
    assert_eq!(headers.get("accept").unwrap(), "text/csv");
    assert_eq!(headers.get("authorization").unwrap(), "Bearer Token9000");
}

#[test]
fn an_override_replaces_whatever_its_case() {
    let headers = session().create_header(list(&[("ACCEPT", "a/b"), ("authorization", "Basic x")])).unwrap();
    assert_eq!(headers.len(), 2);
    assert_eq!(headers.get_all("accept").iter().count(), 1);
    assert_eq!(headers.get("accept").unwrap(), "a/b");
    assert_eq!(headers.get_all("authorization").iter().count(), 1);
    assert_eq!(headers.get("authorization").unwrap(), "Basic x");
}

#[test]
fn of_two_overrides_of_one_name_the_last_stays() {
    let headers = session()
        .create_header(list(&[("X-Trace", "1"), ("Content-Type", "a/b"), ("x-trace", "2")]))
        .unwrap();
    assert_eq!(headers.len(), 4);
    assert_eq!(headers.get_all("x-trace").iter().count(), 1);
    assert_eq!(headers.get("x-trace").unwrap(), "2");
    assert_eq!(headers.get("content-type").unwrap(), "a/b");
}

#[test]
fn header_names_are_kept_in_lower_case() {
    let headers = session().create_header(list(&[("X-SFDC-Session", "s")])).unwrap();
    let names: Vec<String> = headers.keys().map(|k| k.as_str().to_string()).collect();
    assert!(names.contains(&"x-sfdc-session".to_string()));
    assert!(names.contains(&"authorization".to_string()));
    assert!(names.contains(&"accept".to_string()));
    assert_eq!(names.len(), 3);
}

#[test]
fn an_invalid_header_name_is_reported() {
    for name in ["", "bad name", "naïve", "a:b", "x\n", "(x)"] {
        match session().create_header(list(&[(name, "v")])) {
            Err(Error::TransportError(reason)) => assert_eq!(reason, "Invalid Header Name"),
            other => panic!("unexpected for {:?}: {:?}", name, other),
        }
    }
}

#[test]
fn an_invalid_header_value_is_reported() {
    for value in ["a\nb", "\r", "\u{7f}", "\u{0}", "x\u{1b}"] {
        match session().create_header(list(&[("X-A", value)])) {
            Err(Error::TransportError(reason)) => assert_eq!(reason, "Invalid Header Value"),
            other => panic!("unexpected for {:?}: {:?}", value, other),
        }
    }
}

#[test]
fn the_name_is_looked_at_before_the_value_and_the_first_fault_counts() {
    match session().create_header(list(&[("ok", "fine"), ("bad name", "a\nb"), ("", "x")])) {
        Err(Error::TransportError(reason)) => assert_eq!(reason, "Invalid Header Name"),
        other => panic!("unexpected: {:?}", other),
    }
    match session().create_header(list(&[("ok", "a\nb"), ("bad name", "x")])) {
        Err(Error::TransportError(reason)) => assert_eq!(reason, "Invalid Header Value"),
        other => panic!("unexpected: {:?}", other),
    }
}

#[test]
fn header_values_may_hold_tabs_and_bytes_beyond_ascii() {
    let headers = session().create_header(list(&[("X-A", "a\tb"), ("X-B", "Jürgen"), ("X-C", "")])).unwrap();
    assert_eq!(headers.get("x-a").unwrap().as_bytes(), "a\tb".as_bytes());
    assert_eq!(headers.get("x-b").unwrap().as_bytes(), "Jürgen".as_bytes());
    assert_eq!(headers.get("x-c").unwrap().as_bytes(), "".as_bytes());
}

#[test]
fn a_token_that_cannot_stand_in_a_header_is_reported() {
    let mut client = session();
    client.set_access_token("line\nbreak".to_string(), "0".to_string(), "".to_string());
    match client.get("https://x".to_string(), vec![]) {
        Err(Error::TransportError(reason)) => assert_eq!(reason, "Invalid Header Value"),
        other => panic!("unexpected: {:?}", other),
    }
}

#[test]
fn header_names_of_every_accepted_shape() {
    let marks = "!#$%&'*+-.^_`|~0123456789abcdefghijklmnopqrstuvwxyzABCDEFGHIJKLMNOPQRSTUVWXYZ";
    let headers = session().create_header(list(&[(marks, "v")])).unwrap();
    assert_eq!(headers.get(marks.to_lowercase().as_str()).unwrap(), "v");
    for c in 0u8..128 {
        let name = (c as char).to_string();
        let accepted = session().create_header(list(&[(name.as_str(), "v")])).is_ok();
        assert_eq!(accepted, marks.contains(c as char), "character {}", c);
    }
}

#[test]
fn header_values_of_every_byte() {
    for c in 0u8..128 {
        let value = (c as char).to_string();
        let accepted = session().create_header(list(&[("x", value.as_str())])).is_ok();
        assert_eq!(accepted, (c >= 32 && c != 127) || c == 9, "character {}", c);
    }
}

#[test]
fn header_names_up_to_the_longest() {
    let longest = "a".repeat(65535);
    let too_long = "a".repeat(65536);
    assert!(session().create_header(list(&[(longest.as_str(), "v")])).is_ok());
    assert!(matches!(
        session().create_header(list(&[(too_long.as_str(), "v")])),
        Err(Error::TransportError(_))
    ));
}

#[test]
fn as_many_headers_as_the_limit_allows() {
    let extra: Vec<(String, String)> =
        (0..MAX_HEADER_NAMES - 2).map(|i| (format!("x-{}", i), i.to_string())).collect();
    let headers = session().create_header(extra).unwrap();
    assert_eq!(headers.len(), MAX_HEADER_NAMES);
    assert_eq!(headers.get("x-0").unwrap(), "0");
    assert_eq!(headers.get("x-1021").unwrap(), "1021");
}

#[test]
fn a_rejected_header_leaves_no_request() {
    let client = session();
    assert!(client.post("https://x".to_string(), list(&[("Content-Type", "text/csv"), ("bad name", "x")])).is_err());
    assert!(client.post_raw_buffer("https://x".to_string(), vec![], list(&[("content-type", "a\nb")])).is_err());
    let kept = client.post("https://x".to_string(), list(&[("Content-Type", "text/csv"), ("CONTENT-TYPE", "text/xml")])).unwrap();
    assert_eq!(kept.headers.len(), 3);
    assert_eq!(header(&kept, "content-type"), Some("text/xml".to_string()));
}

#[test]
fn get_carries_the_query() {
    let request = session().get("https://x/y".to_string(), list(&[("q", "SELECT Id"), ("q", "2")])).unwrap();
    assert_eq!(request.method, Method::Get);
    assert_eq!(request.url, "https://x/y");
    assert_eq!(request.query, list(&[("q", "SELECT Id"), ("q", "2")]));
    assert!(matches!(request.payload, Payload::Empty));
    assert_eq!(request.headers.len(), 2);
    assert_eq!(header(&request, "authorization"), Some("Bearer Token9000".to_string()));
    assert_eq!(header(&request, "accept"), Some("application/json".to_string()));
}

#[test]
fn get_identity_is_a_plain_get() {
    let request = session().get_identity("https://login/id/1".to_string()).unwrap();
    assert_eq!(request.method, Method::Get);
    assert_eq!(request.url, "https://login/id/1");
    assert!(request.query.is_empty());
    assert!(matches!(request.payload, Payload::Empty));
    assert_eq!(request.headers.len(), 2);
}

#[test]
fn get_raw_strips_accept() {
    let request = session().get_raw("https://x/y", vec![]).unwrap();
    assert_eq!(request.method, Method::Get);
    assert_eq!(request.url, "https://x/y");
    assert_eq!(request.headers.len(), 1);
    assert_eq!(header(&request, "accept"), None);
    assert_eq!(header(&request, "authorization"), Some("Bearer Token9000".to_string()));
    assert!(request.query.is_empty());
}

#[test]
fn get_raw_strips_the_callers_accept_too() {
    let request = session()
        .get_raw("https://x/y", list(&[("accept", "text/csv"), ("Content-Type", "text/csv")]))
        .unwrap();
    assert_eq!(request.headers.len(), 2);
    assert_eq!(header(&request, "accept"), None);
    assert_eq!(header(&request, "content-type"), Some("text/csv".to_string()));
}

#[test]
fn get_raw_reports_a_bad_header() {
    assert!(matches!(
        session().get_raw("https://x/y", list(&[("a b", "c")])),
        Err(Error::TransportError(_))
    ));
}

#[test]
fn post_sends_json_with_the_callers_headers() {
    let request = session().post("https://x/y".to_string(), list(&[("X-SFDC-Session", "s")])).unwrap();
    assert_eq!(request.method, Method::Post);
    assert_eq!(request.url, "https://x/y");
    assert!(matches!(request.payload, Payload::Json));
    assert_eq!(request.headers.len(), 3);
    assert_eq!(header(&request, "x-sfdc-session"), Some("s".to_string()));
    assert!(request.query.is_empty());
}

#[test]
fn post_raw_buffer_sends_the_bytes() {
    let request = session()
        .post_raw_buffer("https://x/y".to_string(), vec![1, 2, 3], list(&[("Content-Type", "text/csv")]))
        .unwrap();
    assert_eq!(request.method, Method::Post);
    match &request.payload {
        Payload::Raw(bytes) => assert_eq!(bytes, &vec![1, 2, 3]),
        other => panic!("unexpected: {:?}", other),
    }
    assert_eq!(header(&request, "content-type"), Some("text/csv".to_string()));
    assert_eq!(header(&request, "accept"), Some("application/json".to_string()));
}

#[test]
fn put_uploads_csv() {
    let request = session().put("https://x/y".to_string(), b"a,b\n1,2\n".to_vec()).unwrap();
    assert_eq!(request.method, Method::Put);
    assert_eq!(request.url, "https://x/y");
    assert_eq!(request.headers.len(), 3);
    assert_eq!(header(&request, "content-type"), Some("text/csv".to_string()));
    assert_eq!(header(&request, "accept"), Some("application/json".to_string()));
    assert_eq!(header(&request, "authorization"), Some("Bearer Token9000".to_string()));
    match &request.payload {
        Payload::Raw(bytes) => assert_eq!(bytes, &b"a,b\n1,2\n".to_vec()),
        other => panic!("unexpected: {:?}", other),
    }
}

#[test]
fn patch_and_delete() {
    let patch = session().patch("https://x/y".to_string()).unwrap();
    assert_eq!(patch.method, Method::Patch);
    assert!(matches!(patch.payload, Payload::Json));
    assert_eq!(patch.headers.len(), 2);
    let delete = session().delete("https://x/z".to_string()).unwrap();
    assert_eq!(delete.method, Method::Delete);
    assert_eq!(delete.url, "https://x/z");
    assert!(matches!(delete.payload, Payload::Empty));
    assert_eq!(delete.headers.len(), 2);
}

#[test]
fn rest_calls_prefix_the_instance_url() {
    let client = session();
    let get = client.rest_get("/services/apexrest/a".to_string(), list(&[("k", "v")])).unwrap();
    assert_eq!(get.method, Method::Get);
    assert_eq!(get.url, "https://dbz.salesforce.com/services/apexrest/a");
    assert_eq!(get.query, list(&[("k", "v")]));
    let post = client.rest_post("/p".to_string()).unwrap();
    assert_eq!((post.method, post.url.as_str()), (Method::Post, "https://dbz.salesforce.com/p"));
    assert!(matches!(post.payload, Payload::Json));
    let patch = client.rest_patch("/p".to_string()).unwrap();
    assert_eq!((patch.method, patch.url.as_str()), (Method::Patch, "https://dbz.salesforce.com/p"));
    assert!(matches!(patch.payload, Payload::Json));
    let put = client.rest_put("/p".to_string()).unwrap();
    assert_eq!((put.method, put.url.as_str()), (Method::Put, "https://dbz.salesforce.com/p"));
    assert!(matches!(put.payload, Payload::Json));
    assert_eq!(put.headers.len(), 2);
    let delete = client.rest_delete("/p".to_string()).unwrap();
    assert_eq!((delete.method, delete.url.as_str()), (Method::Delete, "https://dbz.salesforce.com/p"));
    assert!(matches!(delete.payload, Payload::Empty));
}

#[test]
fn rest_get_fulluri_splits_path_and_query() {
    let request = session().rest_get_fulluri("MyResource/1?b=2&a=1&b=3").unwrap();
    assert_eq!(request.method, Method::Get);
    assert_eq!(request.url, "https://dbz.salesforce.com/services/apexrest/MyResource/1");
    assert_eq!(request.query, list(&[("b", "3"), ("a", "1")]));
    assert_eq!(request.headers.len(), 2);
    let plain = session().rest_get_fulluri("MyResource").unwrap();
    assert_eq!(plain.url, "https://dbz.salesforce.com/services/apexrest/MyResource");
    assert!(plain.query.is_empty());
}

#[test]
fn try_rest_get_fulluri_tells_when_the_address_is_none() {
    let mut client = session();
    let found = client.try_rest_get_fulluri("r?x=1").unwrap().unwrap();
    assert_eq!(found.url, "https://dbz.salesforce.com/services/apexrest/r");
    assert_eq!(found.query, list(&[("x", "1")]));
    client.set_instance_url("no scheme");
    assert!(client.try_rest_get_fulluri("r?x=1").is_none());
}

#[test]
fn status_codes_are_classified() {
    for status in [200u16, 201, 204, 299] {
        assert!(is_success(status));
        assert_eq!(classify(status), ReplyShape::Success);
    }
    for status in [0u16, 100, 199, 300, 301, 400, 401, 404, 500, 503, 999, u16::MAX] {
        assert!(!is_success(status));
        assert_eq!(classify(status), ReplyShape::Failure);
    }
}

#[test]
fn outcome_of_a_decoded_reply() {
    assert_eq!(outcome(Decoded::Success(7u8)).unwrap(), 7);
    let one = ErrorResponse {
        message: "m".to_string(),
        error_code: "NOT_FOUND".to_string(),
        fields: Some(vec!["Id".to_string()]),
    };
    match outcome::<u8>(Decoded::Failure(one.clone())) {
        Err(Error::DescribeError(e)) => {
            assert_eq!(e.message, "m");
            assert_eq!(e.error_code, "NOT_FOUND");
            assert_eq!(e.fields, Some(vec!["Id".to_string()]));
        }
        other => panic!("unexpected: {:?}", other),
    }
    match outcome::<u8>(Decoded::Failures(vec![one.clone(), ErrorResponse::default()])) {
        Err(Error::ErrorResponses(list)) => {
            assert_eq!(list.len(), 2);
            assert_eq!(list[0].error_code, "NOT_FOUND");
            assert_eq!(list[1].message, "");
            assert_eq!(list[1].fields, None);
        }
        other => panic!("unexpected: {:?}", other),
    }
}
