use subquery_cli::error::SubqueryError;
use subquery_cli::response::classify_fields;
use subquery_cli::response::probe_body;
use subquery_cli::response::response_disposition;
use subquery_cli::response::BodyShape;
use subquery_cli::response::ResponseDisposition;

fn failed(d: ResponseDisposition) -> (String, u64, String) {
    match d {
        ResponseDisposition::Failed(SubqueryError::Api(ep, code, msg)) => (ep, code, msg),
        other => panic!("expected a reported failure, got {:?}", other),
    }
}

#[test]
fn status_code_object_fails_the_call() {
    let d = response_disposition("/user", "{\"statusCode\":404,\"message\":\"Not found\"}");
    let (ep, code, msg) = failed(d);
    assert_eq!(ep, "/user");
    assert_eq!(code, 404);
    assert_eq!(msg, "Not found");
}

#[test]
fn status_code_without_message_uses_the_fallback() {
    let d = response_disposition("/info/images", "{\"statusCode\":500}");
    let (ep, code, msg) = failed(d);
    assert_eq!(ep, "/info/images");
    assert_eq!(code, 500);
    assert_eq!(msg, "No message from server");
}

#[test]
fn non_numeric_status_code_becomes_the_largest() {
    let d = response_disposition("/user", "{\"statusCode\":\"oops\"}");
    let (_, code, msg) = failed(d);
    assert_eq!(code, u64::MAX);
    assert_eq!(msg, "No message from server");
}

#[test]
fn non_string_message_beside_status_code_reads_unknown() {
    let d = response_disposition("/user", "{\"statusCode\":400,\"message\":42}");
    let (_, code, msg) = failed(d);
    assert_eq!(code, 400);
    assert_eq!(msg, "Unknown error");
}

#[test]
fn bare_message_object_fails_with_code_zero() {
    let d = response_disposition("/subqueries/a/b", "{\"message\":\"denied\"}");
    let (ep, code, msg) = failed(d);
    assert_eq!(ep, "/subqueries/a/b");
    assert_eq!(code, 0);
    assert_eq!(msg, "denied");
}

#[test]
fn error_line_reads_as_documented() {
    let d = response_disposition("/user", "{\"statusCode\":404,\"message\":\"Not found\"}");
    match d {
        ResponseDisposition::Failed(e) => {
            assert_eq!(e.message(), "Failed to request: [/user] [404]: Not found");
        }
        other => panic!("expected a reported failure, got {:?}", other),
    }
}

#[test]
fn plain_object_decodes_as_success() {
    let d = response_disposition("/user", "{\"key\":\"org/name\"}");
    assert!(matches!(d, ResponseDisposition::DecodeBody));
}

#[test]
fn non_object_bodies_decode_as_success() {
    assert!(matches!(
        response_disposition("/user", "[1,2,3]"),
        ResponseDisposition::DecodeBody
    ));
    assert!(matches!(
        response_disposition("/user", ""),
        ResponseDisposition::DecodeBody
    ));
}

#[test]
fn object_looking_garbage_is_malformed() {
    assert!(matches!(
        response_disposition("/user", "{not json"),
        ResponseDisposition::Malformed
    ));
}

#[test]
fn probe_reports_the_fields_it_found() {
    match probe_body("{\"statusCode\":403,\"message\":\"no\"}") {
        BodyShape::ObjectFields { status_code, message } => {
            assert_eq!(status_code, Some(Some(403)));
            assert_eq!(message, Some(Some("no".to_string())));
        }
        other => panic!("expected object fields, got {:?}", other),
    }
    assert!(matches!(probe_body("plain text"), BodyShape::NotObject));
    assert!(matches!(probe_body("{"), BodyShape::Malformed));
}

#[test]
fn classification_without_fields_is_success() {
    assert!(classify_fields("/user", &None, &None).is_none());
}
