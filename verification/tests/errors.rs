use blog_server::errors::{reply, reply_showing_internal, DbFailure, Error, ErrorKind, IoErrorKind, Reply};

#[test]
fn new_error_has_kind_and_empty_message() {
    let e = Error::new(ErrorKind::NotFound);
    assert_eq!(e.kind(), ErrorKind::NotFound);
    assert_eq!(e.message(), "");
}

#[test]
fn with_msg_keeps_displayed_text() {
    let e = Error::with_msg(ErrorKind::AlreadyExists, "post exists");
    assert_eq!(e.kind(), ErrorKind::AlreadyExists);
    assert_eq!(e.message(), "post exists");
    let n = Error::with_msg(ErrorKind::Internal, &42);
    assert_eq!(n.message(), "42");
}

#[test]
fn internal_error_has_internal_kind() {
    let e = Error::internal("pool broke");
    assert_eq!(e.kind(), ErrorKind::Internal);
    assert_eq!(e.message(), "pool broke");
}

#[test]
fn db_not_found_becomes_not_found() {
    let e = Error::from_db(DbFailure::NotFound);
    assert_eq!(e.kind(), ErrorKind::NotFound);
    assert_eq!(e.message(), "");
}

#[test]
fn db_unique_violation_becomes_already_exists() {
    let e = Error::from_db(DbFailure::UniqueViolation);
    assert_eq!(e.kind(), ErrorKind::AlreadyExists);
    assert_eq!(e.message(), "");
}

#[test]
fn other_db_failure_becomes_internal_with_text() {
    let e = Error::from_db(DbFailure::Other("disk I/O error".to_string()));
    assert_eq!(e.kind(), ErrorKind::Internal);
    assert_eq!(e.message(), "disk I/O error");
}

#[test]
fn io_kinds_are_sorted() {
    assert_eq!(ErrorKind::from_io_kind(IoErrorKind::NotFound), ErrorKind::NotFound);
    assert_eq!(ErrorKind::from_io_kind(IoErrorKind::AlreadyExists), ErrorKind::AlreadyExists);
    assert_eq!(ErrorKind::from_io_kind(IoErrorKind::PermissionDenied), ErrorKind::Internal);
    assert_eq!(ErrorKind::from_io_kind(IoErrorKind::AddrInUse), ErrorKind::Internal);
    assert_eq!(ErrorKind::from_io_kind(IoErrorKind::Other), ErrorKind::Internal);
    assert_eq!(ErrorKind::from_io_kind(IoErrorKind::Uncategorized), ErrorKind::Internal);
}

#[test]
fn io_failures_keep_their_text() {
    let e = Error::from_io_parts(IoErrorKind::NotFound, "no such file".to_string());
    assert_eq!(e.kind(), ErrorKind::NotFound);
    assert_eq!(e.message(), "no such file");

    let e = Error::from_io_parts(IoErrorKind::AlreadyExists, "address in use".to_string());
    assert_eq!(e.kind(), ErrorKind::AlreadyExists);

    let e = Error::from_io_parts(IoErrorKind::PermissionDenied, "denied".to_string());
    assert_eq!(e.kind(), ErrorKind::Internal);
    assert_eq!(e.message(), "denied");
}

#[test]
fn blocking_error_text() {
    let e = Error::blocking();
    assert_eq!(e.kind(), ErrorKind::Internal);
    assert_eq!(e.message(), "Blocking error");
}

#[test]
fn not_found_is_answered_404_with_message() {
    let resp = Error::with_msg(ErrorKind::NotFound, "no post").error_response();
    assert_eq!(resp.status, 404);
    assert_eq!(resp.body.code, ErrorKind::NotFound);
    assert_eq!(resp.body.message.as_deref(), Some("no post"));
}

#[test]
fn already_exists_is_answered_409() {
    let resp = Error::new(ErrorKind::AlreadyExists).error_response();
    assert_eq!(resp.status, 409);
    assert_eq!(resp.body.code, ErrorKind::AlreadyExists);
    assert_eq!(resp.body.message.as_deref(), Some(""));
}

#[test]
fn internal_message_is_hidden() {
    let resp = Error::internal("secret database path").error_response();
    assert_eq!(resp.status, 500);
    assert_eq!(resp.body.code, ErrorKind::Internal);
    assert_eq!(
        resp.body.message.as_deref(),
        Some("An unknown error occurred, please try again later")
    );
}

#[test]
fn reply_sends_value_with_200() {
    let r: Reply<u32> = reply(Ok(7));
    assert_eq!(r.status(), 200);
    assert!(matches!(r, Reply::Success(7)));
}

#[test]
fn reply_sends_error_answer() {
    let r: Reply<u32> = reply(Err(Error::new(ErrorKind::NotFound)));
    assert_eq!(r.status(), 404);
    match r {
        Reply::Failure(resp) => assert_eq!(resp.body.code, ErrorKind::NotFound),
        Reply::Success(_) => panic!("expected an error answer"),
    }
}

#[test]
fn testing_answer_shows_internal_message() {
    let resp = Error::internal("secret database path").error_response_showing_internal();
    assert_eq!(resp.status, 500);
    assert_eq!(resp.body.code, ErrorKind::Internal);
    assert_eq!(resp.body.message.as_deref(), Some("secret database path"));
    let resp = Error::with_msg(ErrorKind::AlreadyExists, "dup").error_response_showing_internal();
    assert_eq!(resp.status, 409);
    assert_eq!(resp.body.message.as_deref(), Some("dup"));
}

#[test]
fn testing_reply_shows_internal_message() {
    let r: Reply<u32> = reply_showing_internal(Err(Error::internal("boom")));
    assert_eq!(r.status(), 500);
    match r {
        Reply::Failure(resp) => assert_eq!(resp.body.message.as_deref(), Some("boom")),
        Reply::Success(_) => panic!("expected an error answer"),
    }
    assert!(matches!(reply_showing_internal(Ok::<u32, Error>(3)), Reply::Success(3)));
}

#[test]
fn status_by_kind() {
    assert_eq!(ErrorKind::NotFound.status(), 404);
    assert_eq!(ErrorKind::AlreadyExists.status(), 409);
    assert_eq!(ErrorKind::Internal.status(), 500);
}
