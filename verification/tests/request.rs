use ashpd::handle_token::HandleToken;
use ashpd::request::{
    handle_object_path, request_path, sender_element_of, Response, ResponseDecodeError,
    ResponseError, ResponseType,
};

#[test]
fn response_type_codes() {
    assert_eq!(ResponseType::Success.code(), 0);
    assert_eq!(ResponseType::Cancelled.code(), 1);
    assert_eq!(ResponseType::Other.code(), 2);
    assert_eq!(ResponseType::from_code(1), Some(ResponseType::Cancelled));
    assert_eq!(ResponseType::from_code(3), None);
    assert_eq!(ResponseType::from_error(ResponseError::Other), ResponseType::Other);
}

#[test]
fn response_from_parts() {
    match Response::from_parts(ResponseType::Success, Some(5u32)) {
        Response::Success(v) => assert_eq!(v, 5),
        Response::Failure(_) => panic!("expected results"),
    }
    match Response::<u32>::from_parts(ResponseType::Cancelled, None) {
        Response::Failure(e) => assert_eq!(e, ResponseError::Cancelled),
        Response::Success(_) => panic!("expected a cancellation"),
    }
    assert_eq!(
        Response::<u32>::decode(ResponseType::Success, None).err(),
        Some(ResponseDecodeError::MissingResults)
    );
    assert_eq!(Response::ok(3u8).into_result().ok(), Some(3));
    assert_eq!(Response::<u8>::other().into_result().err(), Some(ResponseError::Other));
    assert_eq!(Response::<u8>::cancelled().response_type(), ResponseType::Cancelled);
    assert_eq!(ResponseError::Cancelled.message(), "Cancelled");
}

#[test]
fn request_path_uses_sender_and_token() {
    assert_eq!(sender_element_of(":1.42"), "1_42");
    let token = HandleToken::try_from("ashpd_abc").unwrap();
    assert_eq!(
        request_path(":1.42", &token),
        "/org/freedesktop/portal/desktop/request/1_42/ashpd_abc"
    );
    assert_eq!(
        handle_object_path("/org/freedesktop/portal/desktop/session", ":1.7", &token),
        "/org/freedesktop/portal/desktop/session/1_7/ashpd_abc"
    );
}
