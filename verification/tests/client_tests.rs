use rustforce::client::client::Client;
use rustforce::client::login::{LoginStrategy, SoapReply, TokenReply};
use rustforce::errors::Error;
use rustforce::http::{classify, Method, Payload, ReplyShape};
use rustforce::responses::token_error_response::TokenErrorResponse;
use rustforce::responses::token_response::TokenResponse;

const ISSUED_MS: u64 = 1_700_000_000_000;
const HOUR_NS: u128 = 3_600_000_000_000;

fn issued_ns() -> u128 {
    ISSUED_MS as u128 * 1_000_000
}

fn logged_in() -> Client {
    let mut client = Client::new();
    client.set_client_id("Bulma");
    client.set_client_secret("Capsule");
    client.set_refresh_token("Goku");
    client.set_instance_url("https://dbz.salesforce.com");
    client.set_access_token("OldToken".to_string(), ISSUED_MS.to_string(), "Bearer".to_string());
    client
}

fn grant() -> TokenResponse {
    TokenResponse {
        access_token: "T".to_string(),
        issued_at: "123".to_string(),
        token_type: Some("Bearer".to_string()),
        instance_url: "https://x".to_string(),
        id: "i".to_string(),
        signature: "s".to_string(),
    }
}

fn form_of(payload: &Payload) -> Vec<(String, String)> {
    match payload {
        Payload::Form(fields) => fields.clone(),
        other => panic!("not a form: {:?}", other),
    }
}

fn owned(list: &[(&str, &str)]) -> Vec<(String, String)> {
    list.iter().map(|(k, v)| (k.to_string(), v.to_string())).collect()
}

#[test]
fn test_a() {}

#[test]
fn test_set_instance_url() {
    let mut client = Client::new();
    let url = "https://example.com";
    client.set_instance_url(url);
    assert_eq!(Some(url.to_string()), client.instance_url);
}

#[test]
fn test_get_instance_url() {
    let mut client = Client::new();
    let url = "https://example.com";
    client.set_instance_url(url);
    assert_eq!(url, client.get_instance_url());
}

#[test]
fn test_set_access_token() {
    let mut client = Client::new();
    let token_value = "MySuperSecretToken";
    client.set_access_token(token_value.to_string(), "".to_string(), "".to_string());
    assert_eq!(token_value, client.get_access_token());
}

#[test]
fn a_new_client_is_empty_but_for_its_defaults() {
    let mut client = Client::new();
    assert_eq!(client.client_id, None);
    assert_eq!(client.client_secret, None);
    assert_eq!(client.login_endpoint, "https://login.salesforce.com");
    assert_eq!(client.instance_url, None);
    assert!(client.access_token.is_none());
    assert_eq!(client.refresh_token, None);
    assert_eq!(client.version, "v60.0");
    assert!(client.secret_required);
    assert_eq!(client.get_access_token(), "");
    assert_eq!(client.get_instance_url(), "");
    assert!(!client.has_token());
    let again = Client::default();
    assert_eq!(again.login_endpoint, "https://login.salesforce.com");
    assert_eq!(again.version, "v60.0");
    assert!(again.secret_required);
}

#[test]
fn the_default_of_the_trait_is_all_empty() {
    let client = <Client as Default>::default();
    assert_eq!(client.login_endpoint, "");
    assert_eq!(client.version, "");
    assert!(!client.secret_required);
    assert!(client.access_token.is_none());
    assert_eq!(client.instance_url, None);
}

#[test]
fn setters_change_one_field_and_chain() {
    let mut client = Client::new();
    client
        .set_login_endpoint("https://test.salesforce.com")
        .set_version("v44.0")
        .set_client_id("id")
        .set_client_secret("secret")
        .set_refresh_token("refresh")
        .set_secret_required(false);
    assert_eq!(client.login_endpoint, "https://test.salesforce.com");
    assert_eq!(client.version, "v44.0");
    assert_eq!(client.client_id, Some("id".to_string()));
    assert_eq!(client.client_secret, Some("secret".to_string()));
    assert_eq!(client.refresh_token, Some("refresh".to_string()));
    assert!(!client.secret_required);
    assert_eq!(client.instance_url, None);
    assert!(client.access_token.is_none());
}

#[test]
fn set_access_token_keeps_all_three_texts() {
    let mut client = Client::new();
    client.set_access_token("v".to_string(), "17".to_string(), "Bearer".to_string());
    let token = client.access_token.clone().unwrap();
    assert_eq!(token.value, "v");
    assert_eq!(token.issued_at, "17");
    assert_eq!(token.token_type, "Bearer");
    assert!(client.has_token());
}

#[test]
fn refresh_params_with_the_secret_required() {
    let mut client = Client::new();
    client.set_client_id("Bulma");
    client.set_refresh_token("Goku");
    client.set_client_secret("Capsule");
    assert_eq!(
        client.get_refresh_params(),
        owned(&[
            ("grant_type", "refresh_token"),
            ("client_secret", "Capsule"),
            ("refresh_token", "Goku"),
            ("client_id", "Bulma"),
            ("client_secret", "Capsule"),
        ])
    );
}

#[test]
fn refresh_params_without_the_secret_required() {
    let mut client = Client::new();
    client.set_secret_required(false);
    client.set_client_id("Bulma");
    client.set_refresh_token("Goku");
    assert_eq!(
        client.get_refresh_params(),
        owned(&[
            ("grant_type", "refresh_token"),
            ("client_secret", ""),
            ("refresh_token", "Goku"),
            ("client_id", "Bulma"),
        ])
    );
}

#[test]
fn refresh_params_of_an_empty_session() {
    let client = Client::new();
    assert_eq!(
        client.get_refresh_params(),
        owned(&[
            ("grant_type", "refresh_token"),
            ("client_secret", ""),
            ("refresh_token", ""),
            ("client_id", ""),
            ("client_secret", ""),
        ])
    );
}

#[test]
fn refresh_request_goes_to_the_token_endpoint() {
    let mut client = logged_in();
    client.set_login_endpoint("https://test.salesforce.com");
    let request = client.refresh();
    assert_eq!(request.method, Method::Post);
    assert_eq!(request.url, "https://test.salesforce.com/services/oauth2/token");
    assert!(request.headers.is_empty());
    assert!(request.query.is_empty());
    assert_eq!(form_of(&request.payload), client.get_refresh_params());
}

#[test]
fn password_grant_request() {
    let client = logged_in();
    let request = client.login_with_credential("u".to_string(), "p".to_string());
    assert_eq!(request.method, Method::Post);
    assert_eq!(request.url, "https://login.salesforce.com/services/oauth2/token");
    assert!(request.headers.is_empty());
    assert!(request.query.is_empty());
    assert_eq!(
        form_of(&request.payload),
        owned(&[
            ("grant_type", "password"),
            ("client_id", "Bulma"),
            ("client_secret", "Capsule"),
            ("username", "u"),
            ("password", "p"),
        ])
    );
}

#[test]
fn a_grant_sets_token_and_instance_url() {
    let mut client = Client::new();
    client.set_client_id("Bulma");
    let result = client.receive_token(TokenReply::Granted(grant()));
    assert!(result.is_ok());
    assert_eq!(client.get_access_token(), "T");
    assert_eq!(client.instance_url, Some("https://x".to_string()));
    let token = client.access_token.clone().unwrap();
    assert_eq!(token.value, "T");
    assert_eq!(token.issued_at, "123");
    assert_eq!(token.token_type, "Bearer");
    assert_eq!(client.client_id, Some("Bulma".to_string()));
    assert_eq!(client.login_endpoint, "https://login.salesforce.com");
}

#[test]
fn a_grant_without_token_type_gives_an_empty_one() {
    let mut client = Client::new();
    let mut reply = grant();
    reply.token_type = None;
    client.receive_token(TokenReply::Granted(reply)).unwrap();
    assert_eq!(client.access_token.clone().unwrap().token_type, "");
    assert_eq!(client.get_access_token(), "T");
}

#[test]
fn a_refusal_is_a_token_error_and_changes_nothing() {
    let mut client = logged_in();
    let refusal = TokenErrorResponse {
        error: "invalid_grant".to_string(),
        error_description: "authentication failure".to_string(),
    };
    let result = client.receive_token(TokenReply::Refused(refusal));
    match result {
        Err(Error::TokenError(e)) => {
            assert_eq!(e.error, "invalid_grant");
            assert_eq!(e.error_description, "authentication failure");
        }
        other => panic!("unexpected: {:?}", other),
    }
    assert_eq!(client.get_access_token(), "OldToken");
    assert_eq!(client.instance_url, Some("https://dbz.salesforce.com".to_string()));
    let token = client.access_token.clone().unwrap();
    assert_eq!(token.issued_at, ISSUED_MS.to_string());
    assert_eq!(token.token_type, "Bearer");
    assert_eq!(client.refresh_token, Some("Goku".to_string()));
}

#[test]
fn a_refusal_leaves_an_empty_session_empty() {
    let mut client = Client::new();
    let refusal = TokenErrorResponse { error: "e".to_string(), error_description: "d".to_string() };
    assert!(matches!(
        client.receive_token(TokenReply::Refused(refusal)),
        Err(Error::TokenError(_))
    ));
    assert!(client.access_token.is_none());
    assert_eq!(client.instance_url, None);
}

#[test]
fn no_refresh_without_a_token() {
    let client = Client::new();
    assert!(matches!(client.ensure_refresh(u128::MAX), Ok(None)));
    let mut empty_token = Client::new();
    empty_token.set_access_token("".to_string(), "not a number".to_string(), "".to_string());
    assert!(matches!(empty_token.ensure_refresh(u128::MAX), Ok(None)));
}

#[test]
fn no_refresh_one_hour_after_the_issue() {
    let client = logged_in();
    assert!(matches!(client.ensure_refresh(issued_ns() + HOUR_NS), Ok(None)));
    assert!(matches!(client.ensure_refresh(issued_ns() + 2 * HOUR_NS), Ok(None)));
    assert!(matches!(client.ensure_refresh(0), Ok(None)));
}

#[test]
fn one_refresh_three_hours_after_the_issue() {
    let mut client = logged_in();
    let request = client.ensure_refresh(issued_ns() + 3 * HOUR_NS).unwrap().unwrap();
    assert_eq!(request.method, Method::Post);
    assert_eq!(request.url, "https://login.salesforce.com/services/oauth2/token");
    assert_eq!(form_of(&request.payload), client.get_refresh_params());
    let mut reply = grant();
    reply.issued_at = (ISSUED_MS + 3 * 3_600_000).to_string();
    client.receive_token(TokenReply::Granted(reply)).unwrap();
    assert_eq!(client.get_access_token(), "T");
    assert_eq!(client.instance_url, Some("https://x".to_string()));
    assert!(matches!(client.ensure_refresh(issued_ns() + 3 * HOUR_NS), Ok(None)));
}

#[test]
fn refresh_is_due_from_the_first_nanosecond_after_two_hours() {
    let client = logged_in();
    assert!(matches!(client.ensure_refresh(issued_ns() + 2 * HOUR_NS + 1), Ok(Some(_))));
}

#[test]
fn an_issue_time_that_is_no_number_is_reported() {
    let mut client = logged_in();
    client.set_access_token("T".to_string(), "2019-10-01 00:00:00".to_string(), "".to_string());
    match client.ensure_refresh(issued_ns()) {
        Err(Error::DeserializeError(reason)) => assert_eq!(reason, "Invalid issued_at"),
        other => panic!("unexpected: {:?}", other),
    }
    client.set_access_token("T".to_string(), "".to_string(), "".to_string());
    assert!(matches!(client.ensure_refresh(0), Err(Error::DeserializeError(_))));
}

#[test]
fn soap_login_request() {
    let mut client = Client::new();
    client.set_login_endpoint("https://test.salesforce.com").set_version("v21.0");
    let request = client.login_by_soap("u".to_string(), "p".to_string());
    assert_eq!(request.method, Method::Post);
    assert_eq!(request.url, "https://test.salesforce.com/services/Soap/u/v21.0");
    assert_eq!(request.headers.len(), 2);
    assert_eq!(request.headers.get("content-type").unwrap(), "text/xml");
    assert_eq!(request.headers.get("soapaction").unwrap(), "\"\"");
    assert!(request.query.is_empty());
    match request.payload {
        Payload::Text(body) => assert_eq!(body, "<se:Envelope xmlns:se='http://schemas.xmlsoap.org/soap/envelope/'><se:Header/><se:Body><login xmlns='urn:partner.soap.sforce.com'><username>u</username><password>p</password></login></se:Body></se:Envelope>"),
        other => panic!("unexpected: {:?}", other),
    }
}

const SOAP_SUCCESS: &str = "<?xml version=\"1.0\" encoding=\"UTF-8\"?><soapenv:Envelope xmlns:soapenv=\"http://schemas.xmlsoap.org/soap/envelope/\" xmlns=\"urn:partner.soap.sforce.com\"><soapenv:Body><loginResponse><result><serverUrl>https://test.salesforce.com/services/Soap/u/21.0/00D</serverUrl><sessionId>Kamehameha</sessionId><userInfo><userName>goku</userName></userInfo></result></loginResponse></soapenv:Body></soapenv:Envelope>";

const SOAP_FAULT: &str = "<?xml version=\"1.0\" encoding=\"UTF-8\"?><soapenv:Envelope xmlns:soapenv=\"http://schemas.xmlsoap.org/soap/envelope/\" xmlns:sf=\"urn:fault.partner.soap.sforce.com\"><soapenv:Body><soapenv:Fault><faultstring>INVALID_LOGIN</faultstring><faultcode>sf:INVALID_LOGIN</faultcode></soapenv:Fault></soapenv:Body></soapenv:Envelope>";

#[test]
fn soap_login_success_sets_a_bearer_token() {
    let mut client = Client::new();
    assert!(client.receive_soap_login(200, SOAP_SUCCESS).is_ok());
    let token = client.access_token.clone().unwrap();
    assert_eq!(token.value, "Kamehameha");
    assert_eq!(token.token_type, "Bearer");
    assert_eq!(token.issued_at, "");
    assert_eq!(
        client.instance_url,
        Some("https://test.salesforce.com/services/Soap/u/21.0/00D".to_string())
    );
}

#[test]
fn soap_login_takes_the_server_timestamp() {
    let mut client = Client::new();
    let body = "<r><sessionId>S</sessionId><serverTimestamp>1700000000000</serverTimestamp><serverUrl>https://u</serverUrl></r>";
    client.receive_soap_login(201, body).unwrap();
    let token = client.access_token.clone().unwrap();
    assert_eq!(token.issued_at, "1700000000000");
    assert_eq!(token.value, "S");
    assert_eq!(client.instance_url, Some("https://u".to_string()));
}

#[test]
fn soap_fault_is_a_login_error() {
    let mut client = logged_in();
    match client.receive_soap_login(500, SOAP_FAULT) {
        Err(Error::LoginError(e)) => {
            assert_eq!(e.message, "INVALID_LOGIN");
            assert_eq!(e.error_code, "sf:INVALID_LOGIN");
            assert_eq!(e.fields, None);
        }
        other => panic!("unexpected: {:?}", other),
    }
    assert_eq!(client.get_access_token(), "OldToken");
    assert_eq!(client.instance_url, Some("https://dbz.salesforce.com".to_string()));
}

#[test]
fn soap_fault_under_a_success_status_is_a_login_error() {
    let mut client = logged_in();
    match client.receive_soap_login(200, SOAP_FAULT) {
        Err(Error::LoginError(e)) => {
            assert_eq!(e.message, "INVALID_LOGIN");
            assert_eq!(e.error_code, "sf:INVALID_LOGIN");
        }
        other => panic!("unexpected: {:?}", other),
    }
    assert_eq!(client.get_access_token(), "OldToken");
}

#[test]
fn soap_failure_without_fault_gives_empty_texts() {
    let mut client = Client::new();
    match client.receive_soap_login(503, "gateway timeout") {
        Err(Error::LoginError(e)) => {
            assert_eq!(e.message, "");
            assert_eq!(e.error_code, "");
            assert_eq!(e.fields, None);
        }
        other => panic!("unexpected: {:?}", other),
    }
    match client.receive_soap_login(400, "<f><faultcode>c</faultcode></f>") {
        Err(Error::LoginError(e)) => {
            assert_eq!(e.message, "");
            assert_eq!(e.error_code, "c");
        }
        other => panic!("unexpected: {:?}", other),
    }
    assert!(client.access_token.is_none());
}

#[test]
fn soap_failure_status_wins_over_a_session_id() {
    let mut client = Client::new();
    assert!(matches!(client.receive_soap_login(401, SOAP_SUCCESS), Err(Error::LoginError(_))));
    assert!(client.access_token.is_none());
    assert_eq!(client.instance_url, None);
}

#[test]
fn soap_success_without_session_leaves_no_token() {
    let mut client = logged_in();
    assert!(client.receive_soap_login(200, "<r><serverUrl>https://u</serverUrl></r>").is_ok());
    assert!(client.access_token.is_none());
    assert_eq!(client.instance_url, Some("https://u".to_string()));
    let mut other = logged_in();
    assert!(other.receive_soap_login(200, "not xml").is_ok());
    assert!(other.access_token.is_none());
    assert_eq!(other.instance_url, None);
}

fn reply_to(status: u16) -> TokenReply {
    match classify(status) {
        ReplyShape::Success => TokenReply::Granted(grant()),
        ReplyShape::Failure => TokenReply::Refused(TokenErrorResponse {
            error: "invalid_grant".to_string(),
            error_description: "expired".to_string(),
        }),
    }
}

#[test]
fn status_200_grants_and_status_400_refuses() {
    let mut client = logged_in();
    assert!(matches!(client.receive_token(reply_to(400)), Err(Error::TokenError(_))));
    assert_eq!(client.get_access_token(), "OldToken");
    assert_eq!(client.instance_url, Some("https://dbz.salesforce.com".to_string()));
    assert!(client.receive_token(reply_to(200)).is_ok());
    assert_eq!(client.get_access_token(), "T");
    assert_eq!(client.instance_url, Some("https://x".to_string()));
}

fn soap_reply(
    session_id: Option<&str>,
    server_timestamp: Option<&str>,
    server_url: Option<&str>,
    fault_string: Option<&str>,
    fault_code: Option<&str>,
) -> SoapReply {
    SoapReply {
        session_id: session_id.map(|s| s.to_string()),
        server_timestamp: server_timestamp.map(|s| s.to_string()),
        server_url: server_url.map(|s| s.to_string()),
        fault_string: fault_string.map(|s| s.to_string()),
        fault_code: fault_code.map(|s| s.to_string()),
    }
}

#[test]
fn read_soap_reply_takes_each_tag() {
    let reply = Client::read_soap_reply(SOAP_SUCCESS);
    assert_eq!(reply.session_id, Some("Kamehameha".to_string()));
    assert_eq!(reply.server_timestamp, None);
    assert_eq!(
        reply.server_url,
        Some("https://test.salesforce.com/services/Soap/u/21.0/00D".to_string())
    );
    assert_eq!(reply.fault_string, None);
    assert_eq!(reply.fault_code, None);
    let fault = Client::read_soap_reply(SOAP_FAULT);
    assert_eq!(fault.session_id, None);
    assert_eq!(fault.fault_string, Some("INVALID_LOGIN".to_string()));
    assert_eq!(fault.fault_code, Some("sf:INVALID_LOGIN".to_string()));
    let nothing = Client::read_soap_reply("<<<");
    assert_eq!(nothing.session_id, None);
    assert_eq!(nothing.fault_string, None);
}

#[test]
fn apply_soap_reply_on_hand_made_replies() {
    let mut client = logged_in();
    let fault = soap_reply(None, None, None, Some("INVALID_LOGIN"), Some("sf:INVALID_LOGIN"));
    match client.apply_soap_reply(200, fault) {
        Err(Error::LoginError(e)) => {
            assert_eq!(e.message, "INVALID_LOGIN");
            assert_eq!(e.error_code, "sf:INVALID_LOGIN");
            assert_eq!(e.fields, None);
        }
        other => panic!("unexpected: {:?}", other),
    }
    assert_eq!(client.get_access_token(), "OldToken");
    let both = soap_reply(Some("S"), Some("17"), Some("https://u"), Some("odd"), Some("c"));
    assert!(client.apply_soap_reply(200, both).is_ok());
    let token = client.access_token.clone().unwrap();
    assert_eq!((token.value.as_str(), token.issued_at.as_str(), token.token_type.as_str()), ("S", "17", "Bearer"));
    assert_eq!(client.instance_url, Some("https://u".to_string()));
    let refused = soap_reply(Some("S2"), None, Some("https://v"), None, Some("code"));
    match client.apply_soap_reply(500, refused) {
        Err(Error::LoginError(e)) => {
            assert_eq!(e.message, "");
            assert_eq!(e.error_code, "code");
        }
        other => panic!("unexpected: {:?}", other),
    }
    assert_eq!(client.get_access_token(), "S");
    assert_eq!(client.instance_url, Some("https://u".to_string()));
    let empty = soap_reply(None, Some("17"), None, None, Some("code"));
    assert!(client.apply_soap_reply(299, empty).is_ok());
    assert!(client.access_token.is_none());
    assert_eq!(client.instance_url, None);
}

#[test]
fn each_login_strategy_gives_its_request() {
    let client = logged_in();
    let password = client.login_request(LoginStrategy::Password {
        username: "u".to_string(),
        password: "p".to_string(),
    });
    assert_eq!(password.url, "https://login.salesforce.com/services/oauth2/token");
    assert_eq!(form_of(&password.payload)[0], ("grant_type".to_string(), "password".to_string()));
    assert_eq!(form_of(&password.payload)[3], ("username".to_string(), "u".to_string()));
    let refresh = client.login_request(LoginStrategy::Refresh);
    assert_eq!(refresh.url, "https://login.salesforce.com/services/oauth2/token");
    assert_eq!(form_of(&refresh.payload), client.get_refresh_params());
    let soap = client.login_request(LoginStrategy::Soap {
        username: "u".to_string(),
        password: "p".to_string(),
    });
    assert_eq!(soap.url, "https://login.salesforce.com/services/Soap/u/v60.0");
    assert!(matches!(soap.payload, Payload::Text(_)));
    assert_eq!(soap.headers.len(), 2);
}
