use tiko::api::interpret_photos_response;
use tiko::api::interpret_result_response;
use tiko::api::interpret_submit_response;
use tiko::api::is_http_success;
use tiko::types::ResolutionError;

#[test]
fn submit_non_success_status_is_http_error() {
    let r = interpret_submit_response(404, "{\"code\":0,\"data\":{\"task_id\":\"t\"}}");
    assert!(matches!(r, Err(ResolutionError::Http(404))));
}

#[test]
fn submit_non_json_body_is_malformed() {
    let r = interpret_submit_response(200, "not json at all");
    assert!(matches!(r, Err(ResolutionError::MalformedResponse)));
}

#[test]
fn submit_remote_code_surfaces_code_and_message() {
    let r = interpret_submit_response(200, "{\"code\":5,\"msg\":\"rate limited\"}");
    match r {
        Err(ResolutionError::Remote { code, message }) => {
            assert_eq!(code, 5);
            assert_eq!(message, "rate limited");
        }
        other => panic!("unexpected outcome: {:?}", other),
    }
}

#[test]
fn submit_remote_code_without_msg_gets_placeholder() {
    let r = interpret_submit_response(200, "{\"code\":-1}");
    match r {
        Err(ResolutionError::Remote { code, message }) => {
            assert_eq!(code, -1);
            assert_eq!(message, "No 'msg' field provided.");
        }
        other => panic!("unexpected outcome: {:?}", other),
    }
}

#[test]
fn submit_success_without_task_id_is_missing_field() {
    let r = interpret_submit_response(200, "{\"code\":0,\"data\":{}}");
    match r {
        Err(ResolutionError::MissingField(f)) => assert_eq!(f, "task_id"),
        other => panic!("unexpected outcome: {:?}", other),
    }
}

#[test]
fn submit_success_returns_task_id() {
    let r = interpret_submit_response(200, "{\"code\":0,\"data\":{\"task_id\":\"abc123\"}}");
    assert_eq!(r.unwrap(), "abc123");
}

#[test]
fn submit_without_code_member_still_succeeds() {
    let r = interpret_submit_response(200, "{\"data\":{\"task_id\":\"abc123\"}}");
    assert_eq!(r.unwrap(), "abc123");
}

#[test]
fn result_success_returns_play_url() {
    let body = "{\"code\":0,\"data\":{\"detail\":{\"play_url\":\"https://cdn/v.mp4\"}}}";
    let r = interpret_result_response(200, body);
    assert_eq!(r.unwrap(), "https://cdn/v.mp4");
}

#[test]
fn result_missing_play_url_is_missing_field() {
    let r = interpret_result_response(200, "{\"code\":0,\"data\":{\"detail\":{}}}");
    match r {
        Err(ResolutionError::MissingField(f)) => assert_eq!(f, "play_url"),
        other => panic!("unexpected outcome: {:?}", other),
    }
}

#[test]
fn result_remote_code_wins_over_payload() {
    let body = "{\"code\":2,\"msg\":\"pending\",\"data\":{\"detail\":{\"play_url\":\"u\"}}}";
    let r = interpret_result_response(200, body);
    assert!(matches!(r, Err(ResolutionError::Remote { code: 2, .. })));
}

#[test]
fn photos_success_keeps_listing_order() {
    let body = "{\"code\":0,\"data\":{\"images\":[\"u1\",\"u2\",\"u3\"]}}";
    let r = interpret_photos_response(200, body).unwrap();
    assert_eq!(r, vec!["u1".to_string(), "u2".to_string(), "u3".to_string()]);
}

#[test]
fn photos_empty_listing_is_a_valid_degenerate_result() {
    let body = "{\"code\":0,\"data\":{\"images\":[]}}";
    let r = interpret_photos_response(200, body).unwrap();
    assert!(r.is_empty());
}

#[test]
fn photos_non_string_entry_is_missing_field() {
    let body = "{\"code\":0,\"data\":{\"images\":[\"u1\",7]}}";
    let r = interpret_photos_response(200, body);
    match r {
        Err(ResolutionError::MissingField(f)) => assert_eq!(f, "images"),
        other => panic!("unexpected outcome: {:?}", other),
    }
}

#[test]
fn photos_absent_listing_is_missing_field() {
    let body = "{\"code\":0,\"data\":{}}";
    let r = interpret_photos_response(200, body);
    assert!(matches!(r, Err(ResolutionError::MissingField(_))));
}

#[test]
fn http_success_is_the_2xx_range() {
    assert!(is_http_success(200));
    assert!(is_http_success(204));
    assert!(is_http_success(299));
    assert!(!is_http_success(199));
    assert!(!is_http_success(300));
    assert!(!is_http_success(404));
    assert!(!is_http_success(500));
}
