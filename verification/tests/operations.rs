use angel_requests::gateway::creator_response;
use angel_requests::gateway::get_app_version;
use angel_requests::gateway::greet;
use angel_requests::gateway::projects_response;
use angel_requests::gateway::register_response;
use angel_requests::gateway::tip_response;
use angel_requests::model::HttpOutcome;

fn response(status: u16, body: &str) -> HttpOutcome {
    HttpOutcome::Response { status, body: body.to_string() }
}

fn lost(detail: &str) -> HttpOutcome {
    HttpOutcome::TransportFailure { detail: detail.to_string() }
}

#[test]
fn creator_success_round_trips_the_body() {
    let body = "{\"basename\":\"alice\",\"display_name\":\"Alice\",\"bio\":\"builder\",\
                \"avatar_url\":\"https://pic/a.png\",\"total_tips_received\":\"12.5\",\
                \"tip_count\":3,\"is_active\":true,\"created_at\":1700000000}";
    let c = creator_response(&response(200, body)).expect("2xx with a good body succeeds");
    assert_eq!(c.basename, "alice");
    assert_eq!(c.display_name, "Alice");
    assert_eq!(c.bio, "builder");
    assert_eq!(c.avatar_url, "https://pic/a.png");
    assert_eq!(c.total_tips_received, "12.5");
    assert_eq!(c.tip_count, 3);
    assert!(c.is_active);
    assert_eq!(c.created_at, 1700000000);
}

#[test]
fn creator_bad_body_reports_a_decode_failure() {
    let e = creator_response(&response(200, "not json")).unwrap_err();
    assert_eq!(e, "Failed to parse response: invalid response body");
}

#[test]
fn non_success_status_is_an_error_with_the_code() {
    let e = creator_response(&response(404, "ignored")).unwrap_err();
    assert_eq!(e, "HTTP error: 404");
    assert!(e.contains("404"));
    let e = projects_response(&response(500, "")).unwrap_err();
    assert_eq!(e, "HTTP error: 500");
    let e = register_response(&response(400, "")).unwrap_err();
    assert_eq!(e, "Registration failed: 400");
    let e = tip_response(&response(503, "")).unwrap_err();
    assert_eq!(e, "Tip failed: 503");
}

#[test]
fn status_range_boundaries() {
    // both ends of the 2xx range succeed for a body-free operation
    assert!(register_response(&response(200, "")).is_ok());
    assert!(register_response(&response(299, "")).is_ok());
    assert!(register_response(&response(199, "")).is_err());
    assert!(register_response(&response(300, "")).is_err());
}

#[test]
fn transport_failure_is_an_error_never_a_fault() {
    let e = projects_response(&lost("connection refused")).unwrap_err();
    assert_eq!(e, "Request failed: connection refused");
    let e = creator_response(&lost("dns name not found")).unwrap_err();
    assert_eq!(e, "Request failed: dns name not found");
    let e = register_response(&lost("timed out")).unwrap_err();
    assert_eq!(e, "Request failed: timed out");
    let e = tip_response(&lost("tls handshake failed")).unwrap_err();
    assert_eq!(e, "Request failed: tls handshake failed");
}

#[test]
fn tip_success_is_the_fixed_confirmation_whatever_the_body() {
    assert_eq!(
        tip_response(&response(200, "")).unwrap(),
        "Tip sent successfully!"
    );
    assert_eq!(
        tip_response(&response(201, "{\"tx\":\"0xabc\"}")).unwrap(),
        "Tip sent successfully!"
    );
    assert_eq!(
        tip_response(&response(204, "anything at all")).unwrap(),
        "Tip sent successfully!"
    );
}

#[test]
fn register_success_carries_no_payload() {
    assert_eq!(register_response(&response(201, "{\"whatever\":1}")), Ok(()));
}

#[test]
fn projects_success_round_trips_the_body() {
    let body = "{\"data\":[{\"uid\":\"u1\",\"title\":\"t1\",\"description\":\"d1\",\
                \"recipient\":\"r1\",\"slug\":\"s1\",\"created_at\":\"c1\",\
                \"updated_at\":\"m1\"}],\
                \"page_info\":{\"total_items\":1,\"page\":2,\"page_limit\":5}}";
    let r = projects_response(&response(200, body)).expect("2xx with a good body succeeds");
    assert_eq!(r.data.len(), 1);
    assert_eq!(r.data[0].uid, "u1");
    assert_eq!(r.page_info.page, 2);
}

#[test]
fn greeting_is_exact_and_local() {
    assert_eq!(greet("Ada"), "Hello, Ada! Welcome to Angel Requests!");
    assert_eq!(greet(""), "Hello, ! Welcome to Angel Requests!");
}

#[test]
fn app_version_is_the_declared_one() {
    let v = get_app_version();
    assert!(!v.is_empty());
    assert_eq!(v, "0.1.0");
}
