use todoist::client::close_result;
use todoist::client::fetch_result;
use todoist::client::CloseReply;
use todoist::client::FetchReply;
use todoist::error::ApiError;
use todoist::error::ProjectNotFound;
use todoist::error::RequestFailed;

#[test]
fn non_success_close_is_request_failed_with_status() {
    let reply = CloseReply::Delivered {
        success: false,
        status: String::from("403 Forbidden"),
    };
    match close_result(reply) {
        Err(ApiError::RequestFailed(e)) => {
            assert_eq!(e.code(), "403 Forbidden");
        }
        Err(ApiError::TransportError(_)) => {
            panic!("a delivered non-success status must not surface as a transport error")
        }
        other => panic!("expected a request failure, got {:?}", other),
    }
}

#[test]
fn successful_close_has_no_content() {
    let reply = CloseReply::Delivered { success: true, status: String::from("204 No Content") };
    assert!(close_result(reply).is_ok());
}

#[test]
fn undelivered_close_is_a_transport_error() {
    let reply = CloseReply::TransportFailed(String::from("connection refused"));
    match close_result(reply) {
        Err(ApiError::TransportError(m)) => assert_eq!(m, "connection refused"),
        other => panic!("expected a transport error, got {:?}", other),
    }
}

#[test]
fn decoded_fetch_is_the_value() {
    let reply: FetchReply<u64> = FetchReply::Decoded(7);
    assert_eq!(fetch_result(reply).unwrap(), 7);
}

#[test]
fn undecodable_fetch_is_a_decode_error() {
    let reply: FetchReply<u64> = FetchReply::Undecodable(String::from("missing field `id`"));
    match fetch_result(reply) {
        Err(ApiError::DecodeError(m)) => assert_eq!(m, "missing field `id`"),
        other => panic!("expected a decode error, got {:?}", other),
    }
}

#[test]
fn undelivered_fetch_is_a_transport_error() {
    let reply: FetchReply<u64> = FetchReply::TransportFailed(String::from("dns failure"));
    match fetch_result(reply) {
        Err(ApiError::TransportError(m)) => assert_eq!(m, "dns failure"),
        other => panic!("expected a transport error, got {:?}", other),
    }
}

#[test]
fn request_failed_message_names_the_status() {
    let e = RequestFailed::new(String::from("404 Not Found"));
    assert_eq!(e.message(), "the request failed with status code 404 Not Found");
}

#[test]
fn project_not_found_message() {
    assert_eq!(ProjectNotFound::new().message(), "the project was not found");
}

#[test]
fn api_error_messages_follow_the_variant() {
    let t = ApiError::TransportError(String::from("no route to host"));
    assert_eq!(t.message(), "no route to host");
    let f = ApiError::RequestFailed(RequestFailed::new(String::from("500")));
    assert_eq!(f.message(), "the request failed with status code 500");
    let d = ApiError::DecodeError(String::from("bad json"));
    assert_eq!(d.message(), "bad json");
    let n = ApiError::NotFound(ProjectNotFound::new());
    assert_eq!(n.message(), "the project was not found");
}
