use slack_api::conversations::build_params;
use slack_api::conversations::complete;
use slack_api::conversations::process_response;
use slack_api::conversations::ErrorDescription;
use slack_api::conversations::ListError;
use slack_api::conversations::ListRequest;
use slack_api::conversations::ListResponse;
use slack_api::requests::get_slack_url_for_method;
use slack_api::requests::SlackWebRequestSender;
use slack_api::text::render_u32;
use slack_api::text::str_eq;

fn empty_request() -> ListRequest {
    ListRequest { exclude_archived: None, cursor: None, limit: None, types: None }
}

// ---------------------------------------------------------------------
// Parameter builder
// ---------------------------------------------------------------------

#[test]
fn token_only_request_yields_one_pair() {
    let params = build_params("test-token", &empty_request());
    assert_eq!(params.len(), 1);
    assert_eq!(params[0].0, "token");
    assert_eq!(params[0].1, "test-token");
}

#[test]
fn exclude_archived_true_renders_as_one() {
    let mut req = empty_request();
    req.exclude_archived = Some(true);
    let params = build_params("tok", &req);
    assert_eq!(params.len(), 2);
    assert_eq!(params[1], ("exclude_archived".to_string(), "1".to_string()));
}

#[test]
fn exclude_archived_false_renders_as_zero() {
    let mut req = empty_request();
    req.exclude_archived = Some(false);
    let params = build_params("tok", &req);
    assert_eq!(params[1], ("exclude_archived".to_string(), "0".to_string()));
}

#[test]
fn absent_exclude_archived_is_omitted() {
    let params = build_params("tok", &empty_request());
    assert!(params.iter().all(|p| p.0 != "exclude_archived"));
}

#[test]
fn all_fields_present_in_order() {
    let req = ListRequest {
        exclude_archived: Some(true),
        cursor: Some("dXNlcjpVMDYxTkZUVDI=".to_string()),
        limit: Some(20),
        types: Some("public_channel,private_channel".to_string()),
    };
    let params = build_params("tok", &req);
    let names: Vec<&str> = params.iter().map(|p| p.0.as_str()).collect();
    assert_eq!(names, vec!["token", "exclude_archived", "cursor", "limit", "types"]);
    assert_eq!(params[2].1, "dXNlcjpVMDYxTkZUVDI=");
    assert_eq!(params[3].1, "20");
    assert_eq!(params[4].1, "public_channel,private_channel");
}

#[test]
fn default_request_has_every_field_absent() {
    let req = ListRequest::default();
    assert!(req.exclude_archived.is_none());
    assert!(req.cursor.is_none());
    assert!(req.limit.is_none());
    assert!(req.types.is_none());
    assert_eq!(build_params("tok", &req).len(), 1);
}

#[test]
fn limit_zero_renders_as_a_single_digit() {
    let mut req = empty_request();
    req.limit = Some(0);
    let params = build_params("tok", &req);
    assert_eq!(params[1], ("limit".to_string(), "0".to_string()));
}

#[test]
fn limit_round_trips_through_decimal_parsing() {
    for limit in [0u32, 1, 7, 42, 999, 100000, u32::MAX] {
        let rendered = render_u32(limit);
        assert_eq!(rendered.parse::<u32>().unwrap(), limit);
    }
}

#[test]
fn url_for_method_is_fully_qualified() {
    let url = get_slack_url_for_method("conversations.list");
    assert_eq!(url, "https://slack.com/api/conversations.list");
}

#[test]
fn str_eq_agrees_with_equality() {
    assert!(str_eq("invalid_auth", "invalid_auth"));
    assert!(!str_eq("invalid_auth", "invalid_au"));
    assert!(!str_eq("", "a"));
    assert!(str_eq("", ""));
}

// ---------------------------------------------------------------------
// Envelope parsing and validation
// ---------------------------------------------------------------------

#[test]
fn ok_envelope_with_empty_channels_is_success() {
    let r = process_response::<MockFailure>("{\"ok\":true,\"channels\":[]}");
    let resp = r.expect("success payload");
    assert!(resp.ok);
    let channels = resp.channels.expect("channel list present");
    assert!(channels.is_empty());
}

#[test]
fn ok_envelope_with_records_keeps_them_all() {
    let r = process_response::<MockFailure>(
        "{\"ok\":true,\"channels\":[{\"id\":\"C1\"},{\"id\":\"C2\"}]}",
    );
    let resp = r.expect("success payload");
    assert_eq!(resp.channels.expect("channel list present").len(), 2);
}

#[test]
fn invalid_auth_code_yields_invalid_auth() {
    let r = process_response::<MockFailure>("{\"ok\":false,\"error\":\"invalid_auth\"}");
    assert!(matches!(r, Err(ListError::InvalidAuth)));
}

#[test]
fn unknown_code_is_preserved_verbatim() {
    let r = process_response::<MockFailure>("{\"ok\":false,\"error\":\"some_future_code\"}");
    match r {
        Err(ListError::Unknown(code)) => assert_eq!(code, "some_future_code"),
        _ => panic!("expected the unknown kind"),
    }
}

#[test]
fn missing_error_code_falls_back_to_empty_unknown() {
    let r = process_response::<MockFailure>("{\"ok\":false}");
    match r {
        Err(ListError::Unknown(code)) => assert_eq!(code, ""),
        _ => panic!("expected the unknown kind with an empty code"),
    }
}

#[test]
fn missing_ok_flag_defaults_to_failure() {
    let r = process_response::<MockFailure>("{}");
    assert!(matches!(r, Err(ListError::Unknown(_))));
}

#[test]
fn non_json_text_is_malformed_and_never_success() {
    let r = process_response::<MockFailure>("this is not json");
    assert!(!r.is_ok());
    assert!(matches!(r, Err(ListError::MalformedResponse(_))));
}

#[test]
fn json_array_is_not_an_envelope() {
    let r = process_response::<MockFailure>("[1,2,3]");
    assert!(matches!(r, Err(ListError::MalformedResponse(_))));
}

#[test]
fn wrong_typed_channels_field_is_malformed() {
    let r = process_response::<MockFailure>("{\"ok\":true,\"channels\":5}");
    assert!(!r.is_ok());
    assert!(matches!(r, Err(ListError::MalformedResponse(_))));
}

#[test]
fn wrong_typed_ok_flag_is_malformed() {
    let r = process_response::<MockFailure>("{\"ok\":\"yes\"}");
    assert!(matches!(r, Err(ListError::MalformedResponse(_))));
    let r = process_response::<MockFailure>("{\"ok\":null}");
    assert!(matches!(r, Err(ListError::MalformedResponse(_))));
}

#[test]
fn wrong_typed_error_field_is_malformed() {
    let r = process_response::<MockFailure>("{\"ok\":false,\"error\":5}");
    assert!(matches!(r, Err(ListError::MalformedResponse(_))));
}

#[test]
fn null_error_field_counts_as_absent() {
    let r = process_response::<MockFailure>("{\"ok\":false,\"error\":null}");
    match r {
        Err(ListError::Unknown(code)) => assert_eq!(code, ""),
        _ => panic!("expected the unknown kind with an empty code"),
    }
}

#[test]
fn null_channels_field_counts_as_absent() {
    let r = process_response::<MockFailure>("{\"ok\":true,\"channels\":null}");
    let resp = r.expect("success payload");
    assert!(resp.channels.is_none());
}

#[test]
fn every_known_code_maps_to_its_kind() {
    let table: Vec<(&str, fn(&ListError<MockFailure>) -> bool)> = vec![
        ("not_authed", |e| matches!(e, ListError::NotAuthed)),
        ("invalid_auth", |e| matches!(e, ListError::InvalidAuth)),
        ("account_inactive", |e| matches!(e, ListError::AccountInactive)),
        ("invalid_arg_name", |e| matches!(e, ListError::InvalidArgName)),
        ("invalid_array_arg", |e| matches!(e, ListError::InvalidArrayArg)),
        ("invalid_charset", |e| matches!(e, ListError::InvalidCharset)),
        ("invalid_form_data", |e| matches!(e, ListError::InvalidFormData)),
        ("invalid_post_type", |e| matches!(e, ListError::InvalidPostType)),
        ("missing_post_type", |e| matches!(e, ListError::MissingPostType)),
        ("team_added_to_org", |e| matches!(e, ListError::TeamAddedToOrg)),
        ("request_timeout", |e| matches!(e, ListError::RequestTimeout)),
    ];
    for (code, is_expected) in table {
        let e = ListError::<MockFailure>::from_code(code);
        assert!(is_expected(&e), "code {} mapped to the wrong kind", code);
    }
}

#[test]
fn validation_of_ok_envelope_returns_it_unchanged() {
    let resp = ListResponse { channels: Some(Vec::new()), error: None, ok: true };
    let r = resp.into_result::<MockFailure>();
    let back = r.expect("success payload");
    assert!(back.ok);
    assert!(back.channels.expect("channel list present").is_empty());
}

#[test]
fn descriptions_carry_the_wire_code() {
    let e = ListError::<MockFailure>::from_code("not_authed");
    assert_eq!(e.description(), "not_authed: No authentication token provided.");
    let u = ListError::<MockFailure>::from_code("weird_code");
    assert_eq!(u.description(), "weird_code");
    let c = ListError::Client(MockFailure { text: "socket closed".to_string() });
    assert_eq!(c.description(), "socket closed");
}

#[test]
fn cause_is_reported_only_for_wrapping_kinds() {
    assert!(!ListError::<MockFailure>::from_code("not_authed").has_cause());
    let c = ListError::Client(MockFailure { text: "down".to_string() });
    assert!(c.has_cause());
    let m = process_response::<MockFailure>("not json").unwrap_err();
    assert!(m.has_cause());
}

// ---------------------------------------------------------------------
// Orchestration over a stub transport
// ---------------------------------------------------------------------

#[derive(Debug, PartialEq)]
struct MockFailure {
    text: String,
}

impl ErrorDescription for MockFailure {
    fn message(&self) -> String {
        self.text.clone()
    }
}

struct FixedResponder {
    body: String,
}

impl SlackWebRequestSender for FixedResponder {
    type Error = MockFailure;

    fn send(&self, _url: &str, _params: &Vec<(String, String)>) -> Result<String, MockFailure> {
        Ok(self.body.clone())
    }
}

struct FailingTransport {
    text: String,
}

impl SlackWebRequestSender for FailingTransport {
    type Error = MockFailure;

    fn send(&self, _url: &str, _params: &Vec<(String, String)>) -> Result<String, MockFailure> {
        Err(MockFailure { text: self.text.clone() })
    }
}

#[test]
fn transport_failure_is_wrapped_untouched() {
    let transport = FailingTransport { text: "connection refused".to_string() };
    let r = slack_api::conversations::list(&transport, "tok", &empty_request());
    match r {
        Err(ListError::Client(inner)) => assert_eq!(inner.text, "connection refused"),
        _ => panic!("expected the transport error kind"),
    }
}

#[test]
fn blocking_call_classifies_like_the_pipeline() {
    let body = "{\"ok\":false,\"error\":\"account_inactive\"}";
    let transport = FixedResponder { body: body.to_string() };
    let r = slack_api::conversations::list(&transport, "tok", &empty_request());
    assert!(matches!(r, Err(ListError::AccountInactive)));
}

fn classification(r: &Result<ListResponse, ListError<MockFailure>>) -> String {
    match r {
        Ok(resp) => format!("ok channels={:?}", resp.channels.as_ref().map(|c| c.len())),
        Err(ListError::NotAuthed) => "not_authed".to_string(),
        Err(ListError::InvalidAuth) => "invalid_auth".to_string(),
        Err(ListError::AccountInactive) => "account_inactive".to_string(),
        Err(ListError::InvalidArgName) => "invalid_arg_name".to_string(),
        Err(ListError::InvalidArrayArg) => "invalid_array_arg".to_string(),
        Err(ListError::InvalidCharset) => "invalid_charset".to_string(),
        Err(ListError::InvalidFormData) => "invalid_form_data".to_string(),
        Err(ListError::InvalidPostType) => "invalid_post_type".to_string(),
        Err(ListError::MissingPostType) => "missing_post_type".to_string(),
        Err(ListError::TeamAddedToOrg) => "team_added_to_org".to_string(),
        Err(ListError::RequestTimeout) => "request_timeout".to_string(),
        Err(ListError::MalformedResponse(_)) => "malformed_response".to_string(),
        Err(ListError::Unknown(code)) => format!("unknown {}", code),
        Err(ListError::Client(e)) => format!("client {}", e.text),
    }
}

#[test]
fn sync_and_deferred_paths_classify_identically() {
    let bodies = [
        "{\"ok\":true,\"channels\":[]}",
        "{\"ok\":false,\"error\":\"invalid_auth\"}",
        "{\"ok\":false,\"error\":\"some_future_code\"}",
        "not json at all",
        "{}",
    ];
    for body in bodies {
        let transport = FixedResponder { body: body.to_string() };
        let via_blocking = slack_api::conversations::list(&transport, "tok", &empty_request());
        // The deferred path hands its awaited outcome to the same
        // decision function.
        let via_deferred = complete::<MockFailure>(Ok(body.to_string()));
        assert_eq!(classification(&via_blocking), classification(&via_deferred));
    }
    let failed = FailingTransport { text: "timeout".to_string() };
    let via_blocking = slack_api::conversations::list(&failed, "tok", &empty_request());
    let via_deferred =
        complete::<MockFailure>(Err(MockFailure { text: "timeout".to_string() }));
    assert_eq!(classification(&via_blocking), classification(&via_deferred));
}

#[test]
fn transport_error_passes_through_complete() {
    let r = complete::<MockFailure>(Err(MockFailure { text: "dns failure".to_string() }));
    match r {
        Err(ListError::Client(inner)) => assert_eq!(inner.text, "dns failure"),
        _ => panic!("expected the transport error kind"),
    }
}
