use tonic::{Code, Status};
use xline_error::{ExecuteError, ValidationError, WireStatus};

fn name(s: &str) -> String {
    String::from(s)
}

fn expect(err: ExecuteError, code: Code, message: &str) {
    let sent: WireStatus = err.translate();
    assert_eq!(sent.code(), code);
    assert_eq!(sent.message(), message);
    let status: Status = err.into_status();
    assert_eq!(status.code(), code);
    assert_eq!(status.message(), message);
}

/// One value of every variant but the refused request.
fn one_of_each() -> Vec<ExecuteError> {
    vec![
        ExecuteError::KeyNotFound,
        ExecuteError::RevisionTooLarge(10, 7),
        ExecuteError::RevisionCompacted(5, 3),
        ExecuteError::LeaseNotFound(42),
        ExecuteError::LeaseExpired(42),
        ExecuteError::LeaseTtlTooLarge(9000000000),
        ExecuteError::LeaseAlreadyExists(1),
        ExecuteError::AuthNotEnabled,
        ExecuteError::AuthFailed,
        ExecuteError::UserNotFound(name("alice")),
        ExecuteError::UserAlreadyExists(name("alice")),
        ExecuteError::UserAlreadyHasRole(name("alice"), name("admin")),
        ExecuteError::NoPasswordUser,
        ExecuteError::RoleNotFound(name("admin")),
        ExecuteError::RoleAlreadyExists(name("admin")),
        ExecuteError::RoleNotGranted(name("admin")),
        ExecuteError::RootRoleNotExist,
        ExecuteError::PermissionNotGranted,
        ExecuteError::PermissionNotGiven,
        ExecuteError::InvalidAuthManagement,
        ExecuteError::InvalidAuthToken,
        ExecuteError::TokenManagerNotInit,
        ExecuteError::TokenNotProvided,
        ExecuteError::TokenOldRevision(3, 8),
        ExecuteError::DbError(name("disk full")),
        ExecuteError::PermissionDenied,
    ]
}

#[test]
fn key_not_found_is_an_invalid_argument() {
    expect(
        ExecuteError::KeyNotFound,
        Code::InvalidArgument,
        "etcdserver: key not found",
    );
}

#[test]
fn revision_failures_are_out_of_range() {
    expect(
        ExecuteError::RevisionTooLarge(10, 7),
        Code::OutOfRange,
        "etcdserver: mvcc: required revision is a future revision",
    );
    expect(
        ExecuteError::RevisionCompacted(5, 3),
        Code::OutOfRange,
        "etcdserver: mvcc: required revision has been compacted",
    );
}

#[test]
fn lease_failures_with_fixed_messages() {
    expect(
        ExecuteError::LeaseNotFound(42),
        Code::NotFound,
        "etcdserver: requested lease not found",
    );
    expect(
        ExecuteError::LeaseTtlTooLarge(9000000000),
        Code::OutOfRange,
        "etcdserver: too large lease TTL",
    );
    expect(
        ExecuteError::LeaseAlreadyExists(1),
        Code::FailedPrecondition,
        "etcdserver: lease already exists",
    );
}

#[test]
fn an_expired_lease_is_sent_as_it_renders() {
    expect(
        ExecuteError::LeaseExpired(42),
        Code::DeadlineExceeded,
        "lease 42 is expired",
    );
}

#[test]
fn authentication_failures() {
    expect(
        ExecuteError::AuthNotEnabled,
        Code::FailedPrecondition,
        "etcdserver: authentication is not enabled",
    );
    expect(
        ExecuteError::AuthFailed,
        Code::InvalidArgument,
        "etcdserver: authentication failed, invalid user ID or password",
    );
}

#[test]
fn user_failures() {
    expect(
        ExecuteError::UserNotFound(name("alice")),
        Code::FailedPrecondition,
        "etcdserver: user name not found",
    );
    expect(
        ExecuteError::UserAlreadyExists(name("alice")),
        Code::FailedPrecondition,
        "etcdserver: user name already exists",
    );
    expect(
        ExecuteError::UserAlreadyHasRole(name("alice"), name("admin")),
        Code::FailedPrecondition,
        "user alice already has role admin",
    );
    expect(
        ExecuteError::NoPasswordUser,
        Code::FailedPrecondition,
        "password was given for no password user",
    );
}

#[test]
fn role_failures() {
    expect(
        ExecuteError::RoleNotFound(name("admin")),
        Code::FailedPrecondition,
        "etcdserver: role name not found",
    );
    expect(
        ExecuteError::RoleAlreadyExists(name("admin")),
        Code::FailedPrecondition,
        "etcdserver: role name already exists",
    );
    expect(
        ExecuteError::RoleNotGranted(name("admin")),
        Code::FailedPrecondition,
        "etcdserver: role is not granted to the user",
    );
    expect(
        ExecuteError::RootRoleNotExist,
        Code::FailedPrecondition,
        "etcdserver: root user does not have root role",
    );
}

#[test]
fn permission_failures() {
    expect(
        ExecuteError::PermissionNotGranted,
        Code::FailedPrecondition,
        "etcdserver: permission is not granted to the role",
    );
    expect(
        ExecuteError::PermissionNotGiven,
        Code::InvalidArgument,
        "etcdserver: permission not given",
    );
    expect(
        ExecuteError::PermissionDenied,
        Code::PermissionDenied,
        "etcdserver: permission denied",
    );
    expect(
        ExecuteError::InvalidAuthManagement,
        Code::InvalidArgument,
        "etcdserver: invalid auth management",
    );
}

#[test]
fn token_failures() {
    expect(
        ExecuteError::InvalidAuthToken,
        Code::Unauthenticated,
        "etcdserver: invalid auth token",
    );
    expect(
        ExecuteError::TokenOldRevision(3, 8),
        Code::Unauthenticated,
        "etcdserver: invalid auth token",
    );
    expect(
        ExecuteError::TokenManagerNotInit,
        Code::FailedPrecondition,
        "token manager is not initialized",
    );
    expect(
        ExecuteError::TokenNotProvided,
        Code::InvalidArgument,
        "token is not provided",
    );
}

#[test]
fn a_storage_failure_is_internal() {
    expect(
        ExecuteError::DbError(name("disk full")),
        Code::Internal,
        "db error: disk full",
    );
}

#[test]
fn a_refused_request_is_sent_as_the_refusal_says() {
    let refusal = ValidationError::new(
        Code::InvalidArgument,
        name("etcdserver: duplicate key given in txn request"),
    );
    let direct = refusal.translate();
    let wrapped = ExecuteError::InvalidRequest(refusal.clone()).translate();
    assert_eq!(wrapped, direct);
    assert_eq!(wrapped.code(), Code::InvalidArgument);
    assert_eq!(wrapped.message(), "etcdserver: duplicate key given in txn request");

    let direct_status = refusal.clone().into_status();
    let wrapped_status = ExecuteError::InvalidRequest(refusal).into_status();
    assert_eq!(wrapped_status.code(), direct_status.code());
    assert_eq!(wrapped_status.message(), direct_status.message());
    assert_eq!(wrapped_status.code(), Code::InvalidArgument);
    assert_eq!(wrapped_status.message(), "etcdserver: duplicate key given in txn request");
}

#[test]
fn a_refusal_keeps_any_code_and_message() {
    let codes = vec![
        Code::Ok,
        Code::Cancelled,
        Code::Unknown,
        Code::InvalidArgument,
        Code::DeadlineExceeded,
        Code::NotFound,
        Code::AlreadyExists,
        Code::PermissionDenied,
        Code::ResourceExhausted,
        Code::FailedPrecondition,
        Code::Aborted,
        Code::OutOfRange,
        Code::Unimplemented,
        Code::Internal,
        Code::Unavailable,
        Code::DataLoss,
        Code::Unauthenticated,
    ];
    for code in codes {
        let message = format!("refused with {:?}", code);
        let refusal = ValidationError::new(code, message.clone());
        let wrapped = ExecuteError::InvalidRequest(refusal.clone());
        assert_eq!(wrapped.translate(), refusal.translate());
        let status = wrapped.into_status();
        assert_eq!(status.code(), code);
        assert_eq!(status.message(), message);
    }
    let empty = ExecuteError::InvalidRequest(ValidationError::new(Code::Unknown, String::new()));
    let status = empty.into_status();
    assert_eq!(status.code(), Code::Unknown);
    assert_eq!(status.message(), "");
}

#[test]
fn token_revisions_do_not_reach_the_client() {
    let plain = ExecuteError::InvalidAuthToken.translate();
    let revisions: Vec<(i64, i64)> = vec![
        (0, 0),
        (1, 2),
        (-1, -2),
        (i64::MIN, i64::MAX),
        (i64::MAX, i64::MIN),
        (123456789, 987654321),
    ];
    for (token, current) in revisions {
        let outdated = ExecuteError::TokenOldRevision(token, current).translate();
        assert_eq!(outdated, plain);
        assert_eq!(outdated.message(), "etcdserver: invalid auth token");
    }
}

#[test]
fn fixed_messages_do_not_depend_on_payload() {
    assert_eq!(
        ExecuteError::LeaseNotFound(1).translate(),
        ExecuteError::LeaseNotFound(i64::MIN).translate()
    );
    assert_eq!(
        ExecuteError::RevisionTooLarge(1, 2).translate(),
        ExecuteError::RevisionTooLarge(-7, 0).translate()
    );
    assert_eq!(
        ExecuteError::UserNotFound(name("alice")).translate(),
        ExecuteError::UserNotFound(name("bob")).translate()
    );
    assert_eq!(
        ExecuteError::RoleNotGranted(name("admin")).translate(),
        ExecuteError::RoleNotGranted(String::new()).translate()
    );
}

#[test]
fn every_payload_translates() {
    expect(
        ExecuteError::LeaseTtlTooLarge(0),
        Code::OutOfRange,
        "etcdserver: too large lease TTL",
    );
    expect(
        ExecuteError::RevisionTooLarge(-1, -5),
        Code::OutOfRange,
        "etcdserver: mvcc: required revision is a future revision",
    );
    expect(
        ExecuteError::RevisionCompacted(i64::MIN, i64::MAX),
        Code::OutOfRange,
        "etcdserver: mvcc: required revision has been compacted",
    );
    expect(
        ExecuteError::LeaseExpired(i64::MIN),
        Code::DeadlineExceeded,
        "lease -9223372036854775808 is expired",
    );
    expect(
        ExecuteError::LeaseExpired(0),
        Code::DeadlineExceeded,
        "lease 0 is expired",
    );
    expect(
        ExecuteError::DbError(String::new()),
        Code::Internal,
        "db error: ",
    );
    expect(
        ExecuteError::UserAlreadyHasRole(String::new(), String::new()),
        Code::FailedPrecondition,
        "user  already has role ",
    );
}

#[test]
fn messages_sent_as_rendered_hold_the_payload() {
    let expired = ExecuteError::LeaseExpired(42).translate();
    assert!(expired.message().contains("42"));
    let has_role = ExecuteError::UserAlreadyHasRole(name("bob"), name("root")).translate();
    let user_at = has_role.message().find("bob").unwrap();
    let role_at = has_role.message().find("root").unwrap();
    assert!(user_at + 3 <= role_at);
    let storage = ExecuteError::DbError(name("checksum mismatch at page 9")).translate();
    assert!(storage.message().ends_with("checksum mismatch at page 9"));
}

#[test]
fn codes_and_openings_stay_as_they_are() {
    let marker = "etcdserver: ";
    let pinned: Vec<(Code, &str)> = vec![
        (Code::InvalidArgument, marker),
        (Code::OutOfRange, "etcdserver: mvcc: "),
        (Code::OutOfRange, "etcdserver: mvcc: "),
        (Code::NotFound, marker),
        (Code::DeadlineExceeded, "lease "),
        (Code::OutOfRange, marker),
        (Code::FailedPrecondition, marker),
        (Code::FailedPrecondition, marker),
        (Code::InvalidArgument, marker),
        (Code::FailedPrecondition, marker),
        (Code::FailedPrecondition, marker),
        (Code::FailedPrecondition, "user "),
        (Code::FailedPrecondition, "password "),
        (Code::FailedPrecondition, marker),
        (Code::FailedPrecondition, marker),
        (Code::FailedPrecondition, marker),
        (Code::FailedPrecondition, marker),
        (Code::FailedPrecondition, marker),
        (Code::InvalidArgument, marker),
        (Code::InvalidArgument, marker),
        (Code::Unauthenticated, marker),
        (Code::FailedPrecondition, "token manager "),
        (Code::InvalidArgument, "token is "),
        (Code::Unauthenticated, marker),
        (Code::Internal, "db error: "),
        (Code::PermissionDenied, marker),
    ];
    let all = one_of_each();
    assert_eq!(all.len(), pinned.len());
    assert_eq!(all.len(), 26);
    for (err, (code, opening)) in all.iter().zip(pinned.iter()) {
        let sent = err.translate();
        assert_eq!(sent.code(), *code, "code of {:?}", err);
        assert!(
            sent.message().starts_with(opening),
            "message of {:?} is {:?}",
            err,
            sent.message()
        );
    }
}

#[test]
fn every_variant_has_a_status_and_none_is_ok() {
    for err in one_of_each() {
        let sent = err.translate();
        assert_ne!(sent.code(), Code::Ok);
        assert!(!sent.message().is_empty());
        let status = err.clone().into_status();
        assert_eq!(status.code(), sent.code());
        assert_eq!(status.message(), sent.message());
        let converted = Status::from(err);
        assert_eq!(converted.code(), sent.code());
        assert_eq!(converted.message(), sent.message());
    }
}

#[test]
fn conversion_into_the_transport_status() {
    let status: Status = ExecuteError::PermissionDenied.into();
    assert_eq!(status.code(), Code::PermissionDenied);
    assert_eq!(status.message(), "etcdserver: permission denied");
    let status = Status::from(ExecuteError::DbError(name("io")));
    assert_eq!(status.code(), Code::Internal);
    assert_eq!(status.message(), "db error: io");
}

#[test]
fn a_wire_status_clones_to_an_equal_one() {
    let sent = ExecuteError::LeaseExpired(7).translate();
    let copy = sent.clone();
    assert_eq!(copy, sent);
    assert_eq!(copy.code(), Code::DeadlineExceeded);
    assert_eq!(copy.message(), "lease 7 is expired");
    let status = copy.into_status();
    assert_eq!(status.code(), Code::DeadlineExceeded);
    assert_eq!(status.message(), "lease 7 is expired");
}

#[test]
fn wire_statuses_compare_by_code_and_message() {
    let not_found = ValidationError::new(Code::NotFound, name("gone")).translate();
    let internal = ValidationError::new(Code::Internal, name("gone")).translate();
    let other_text = ValidationError::new(Code::NotFound, name("lost")).translate();
    assert_eq!(not_found, not_found.clone());
    assert_ne!(not_found, internal);
    assert_ne!(not_found, other_text);
    assert_ne!(
        ExecuteError::KeyNotFound.translate(),
        ExecuteError::PermissionNotGiven.translate()
    );
    assert_ne!(
        ExecuteError::UserNotFound(name("a")).translate(),
        ExecuteError::UserAlreadyExists(name("a")).translate()
    );
}
