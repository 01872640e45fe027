//! The failures that executing a command can end in, their rendering for
//! logs, and their translation into the status sent to the client.

use vstd::prelude::*;
use vstd::string::*;
use crate::decimal::{append_decimal, decimal};
use crate::status::{marked, namespace_marker, status_code, status_message, StatusView, WireStatus};
use crate::text::{embeds_in_order, lemma_embeds_none, lemma_embeds_one, lemma_embeds_two};
use crate::validation::ValidationError;

verus! {

/// Error met when executing commands.
#[derive(Debug, Eq)]
#[non_exhaustive]
pub enum ExecuteError {
    /// The request was refused by validation.
    InvalidRequest(ValidationError),
    /// Key not found.
    KeyNotFound,
    /// The required revision (first) is higher than the current one (second).
    RevisionTooLarge(i64, i64),
    /// The required revision (first) lies before the compacted one (second).
    RevisionCompacted(i64, i64),
    /// No lease with this id.
    LeaseNotFound(i64),
    /// The lease with this id is expired.
    LeaseExpired(i64),
    /// The requested time to live is too large.
    LeaseTtlTooLarge(i64),
    /// A lease with this id exists already.
    LeaseAlreadyExists(i64),
    /// Auth is not enabled.
    AuthNotEnabled,
    /// Wrong user name or password.
    AuthFailed,
    /// No user of this name.
    UserNotFound(String),
    /// A user of this name exists already.
    UserAlreadyExists(String),
    /// The user (first) has the role (second) already.
    UserAlreadyHasRole(String, String),
    /// A password was given for a user that has none.
    NoPasswordUser,
    /// No role of this name.
    RoleNotFound(String),
    /// A role of this name exists already.
    RoleAlreadyExists(String),
    /// The role is not granted to the user.
    RoleNotGranted(String),
    /// The root user lacks the root role.
    RootRoleNotExist,
    /// The permission is not granted to the role.
    PermissionNotGranted,
    /// No permission was given.
    PermissionNotGiven,
    /// Invalid auth management.
    InvalidAuthManagement,
    /// Invalid auth token.
    InvalidAuthToken,
    /// The token manager is not initialized.
    TokenManagerNotInit,
    /// No token was provided.
    TokenNotProvided,
    /// The token's revision (first) is older than the current one (second).
    TokenOldRevision(i64, i64),
    /// The storage engine failed; the text is its own account.
    DbError(String),
    /// Permission denied.
    PermissionDenied,
}

/// What an `ExecuteError` stands for: its variant and its payload, with
/// each name as the text it holds and a refusal as the status it asks for.
pub enum ErrorView {
    InvalidRequest(StatusView),
    KeyNotFound,
    RevisionTooLarge(i64, i64),
    RevisionCompacted(i64, i64),
    LeaseNotFound(i64),
    LeaseExpired(i64),
    LeaseTtlTooLarge(i64),
    LeaseAlreadyExists(i64),
    AuthNotEnabled,
    AuthFailed,
    UserNotFound(Seq<char>),
    UserAlreadyExists(Seq<char>),
    UserAlreadyHasRole(Seq<char>, Seq<char>),
    NoPasswordUser,
    RoleNotFound(Seq<char>),
    RoleAlreadyExists(Seq<char>),
    RoleNotGranted(Seq<char>),
    RootRoleNotExist,
    PermissionNotGranted,
    PermissionNotGiven,
    InvalidAuthManagement,
    InvalidAuthToken,
    TokenManagerNotInit,
    TokenNotProvided,
    TokenOldRevision(i64, i64),
    DbError(Seq<char>),
    PermissionDenied,
}

impl View for ExecuteError {
    type V = ErrorView;

    open spec fn view(&self) -> ErrorView {
        match *self {
            ExecuteError::InvalidRequest(refusal) => ErrorView::InvalidRequest(refusal@),
            ExecuteError::KeyNotFound => ErrorView::KeyNotFound,
            ExecuteError::RevisionTooLarge(required, current) => ErrorView::RevisionTooLarge(
                required,
                current,
            ),
            ExecuteError::RevisionCompacted(required, compacted) => ErrorView::RevisionCompacted(
                required,
                compacted,
            ),
            ExecuteError::LeaseNotFound(id) => ErrorView::LeaseNotFound(id),
            ExecuteError::LeaseExpired(id) => ErrorView::LeaseExpired(id),
            ExecuteError::LeaseTtlTooLarge(ttl) => ErrorView::LeaseTtlTooLarge(ttl),
            ExecuteError::LeaseAlreadyExists(id) => ErrorView::LeaseAlreadyExists(id),
            ExecuteError::AuthNotEnabled => ErrorView::AuthNotEnabled,
            ExecuteError::AuthFailed => ErrorView::AuthFailed,
            ExecuteError::UserNotFound(name) => ErrorView::UserNotFound(name@),
            ExecuteError::UserAlreadyExists(name) => ErrorView::UserAlreadyExists(name@),
            ExecuteError::UserAlreadyHasRole(user, role) => ErrorView::UserAlreadyHasRole(
                user@,
                role@,
            ),
            ExecuteError::NoPasswordUser => ErrorView::NoPasswordUser,
            ExecuteError::RoleNotFound(name) => ErrorView::RoleNotFound(name@),
            ExecuteError::RoleAlreadyExists(name) => ErrorView::RoleAlreadyExists(name@),
            ExecuteError::RoleNotGranted(name) => ErrorView::RoleNotGranted(name@),
            ExecuteError::RootRoleNotExist => ErrorView::RootRoleNotExist,
            ExecuteError::PermissionNotGranted => ErrorView::PermissionNotGranted,
            ExecuteError::PermissionNotGiven => ErrorView::PermissionNotGiven,
            ExecuteError::InvalidAuthManagement => ErrorView::InvalidAuthManagement,
            ExecuteError::InvalidAuthToken => ErrorView::InvalidAuthToken,
            ExecuteError::TokenManagerNotInit => ErrorView::TokenManagerNotInit,
            ExecuteError::TokenNotProvided => ErrorView::TokenNotProvided,
            ExecuteError::TokenOldRevision(token, current) => ErrorView::TokenOldRevision(
                token,
                current,
            ),
            ExecuteError::DbError(detail) => ErrorView::DbError(detail@),
            ExecuteError::PermissionDenied => ErrorView::PermissionDenied,
        }
    }
}

impl PartialEq for ExecuteError {
    fn eq(&self, other: &Self) -> (same: bool) {
        match (self, other) {
            (ExecuteError::InvalidRequest(a), ExecuteError::InvalidRequest(b)) => *a == *b,
            (ExecuteError::KeyNotFound, ExecuteError::KeyNotFound) => true,
            (ExecuteError::RevisionTooLarge(a, b), ExecuteError::RevisionTooLarge(c, d)) => {
                *a == *c && *b == *d
            },
            (ExecuteError::RevisionCompacted(a, b), ExecuteError::RevisionCompacted(c, d)) => {
                *a == *c && *b == *d
            },
            (ExecuteError::LeaseNotFound(a), ExecuteError::LeaseNotFound(b)) => *a == *b,
            (ExecuteError::LeaseExpired(a), ExecuteError::LeaseExpired(b)) => *a == *b,
            (ExecuteError::LeaseTtlTooLarge(a), ExecuteError::LeaseTtlTooLarge(b)) => *a == *b,
            (ExecuteError::LeaseAlreadyExists(a), ExecuteError::LeaseAlreadyExists(b)) => *a == *b,
            (ExecuteError::AuthNotEnabled, ExecuteError::AuthNotEnabled) => true,
            (ExecuteError::AuthFailed, ExecuteError::AuthFailed) => true,
            (ExecuteError::UserNotFound(a), ExecuteError::UserNotFound(b)) => *a == *b,
            (ExecuteError::UserAlreadyExists(a), ExecuteError::UserAlreadyExists(b)) => *a == *b,
            (ExecuteError::UserAlreadyHasRole(a, b), ExecuteError::UserAlreadyHasRole(c, d)) => {
                *a == *c && *b == *d
            },
            (ExecuteError::NoPasswordUser, ExecuteError::NoPasswordUser) => true,
            (ExecuteError::RoleNotFound(a), ExecuteError::RoleNotFound(b)) => *a == *b,
            (ExecuteError::RoleAlreadyExists(a), ExecuteError::RoleAlreadyExists(b)) => *a == *b,
            (ExecuteError::RoleNotGranted(a), ExecuteError::RoleNotGranted(b)) => *a == *b,
            (ExecuteError::RootRoleNotExist, ExecuteError::RootRoleNotExist) => true,
            (ExecuteError::PermissionNotGranted, ExecuteError::PermissionNotGranted) => true,
            (ExecuteError::PermissionNotGiven, ExecuteError::PermissionNotGiven) => true,
            (ExecuteError::InvalidAuthManagement, ExecuteError::InvalidAuthManagement) => true,
            (ExecuteError::InvalidAuthToken, ExecuteError::InvalidAuthToken) => true,
            (ExecuteError::TokenManagerNotInit, ExecuteError::TokenManagerNotInit) => true,
            (ExecuteError::TokenNotProvided, ExecuteError::TokenNotProvided) => true,
            (ExecuteError::TokenOldRevision(a, b), ExecuteError::TokenOldRevision(c, d)) => {
                *a == *c && *b == *d
            },
            (ExecuteError::DbError(a), ExecuteError::DbError(b)) => *a == *b,
            (ExecuteError::PermissionDenied, ExecuteError::PermissionDenied) => true,
            _ => false,
        }
    }
}

impl vstd::std_specs::cmp::PartialEqSpecImpl for ExecuteError {
    open spec fn obeys_eq_spec() -> bool {
        true
    }

    open spec fn eq_spec(&self, other: &Self) -> bool {
        self@ == other@
    }
}

impl Clone for ExecuteError {
    fn clone(&self) -> (copy: Self)
        ensures
            copy == *self,
    {
        match self {
            ExecuteError::InvalidRequest(refusal) => ExecuteError::InvalidRequest(refusal.clone()),
            ExecuteError::KeyNotFound => ExecuteError::KeyNotFound,
            ExecuteError::RevisionTooLarge(required, current) => ExecuteError::RevisionTooLarge(
                *required,
                *current,
            ),
            ExecuteError::RevisionCompacted(required, compacted) => ExecuteError::RevisionCompacted(
                *required,
                *compacted,
            ),
            ExecuteError::LeaseNotFound(id) => ExecuteError::LeaseNotFound(*id),
            ExecuteError::LeaseExpired(id) => ExecuteError::LeaseExpired(*id),
            ExecuteError::LeaseTtlTooLarge(ttl) => ExecuteError::LeaseTtlTooLarge(*ttl),
            ExecuteError::LeaseAlreadyExists(id) => ExecuteError::LeaseAlreadyExists(*id),
            ExecuteError::AuthNotEnabled => ExecuteError::AuthNotEnabled,
            ExecuteError::AuthFailed => ExecuteError::AuthFailed,
            ExecuteError::UserNotFound(name) => ExecuteError::UserNotFound(name.clone()),
            ExecuteError::UserAlreadyExists(name) => ExecuteError::UserAlreadyExists(name.clone()),
            ExecuteError::UserAlreadyHasRole(user, role) => ExecuteError::UserAlreadyHasRole(
                user.clone(),
                role.clone(),
            ),
            ExecuteError::NoPasswordUser => ExecuteError::NoPasswordUser,
            ExecuteError::RoleNotFound(name) => ExecuteError::RoleNotFound(name.clone()),
            ExecuteError::RoleAlreadyExists(name) => ExecuteError::RoleAlreadyExists(name.clone()),
            ExecuteError::RoleNotGranted(name) => ExecuteError::RoleNotGranted(name.clone()),
            ExecuteError::RootRoleNotExist => ExecuteError::RootRoleNotExist,
            ExecuteError::PermissionNotGranted => ExecuteError::PermissionNotGranted,
            ExecuteError::PermissionNotGiven => ExecuteError::PermissionNotGiven,
            ExecuteError::InvalidAuthManagement => ExecuteError::InvalidAuthManagement,
            ExecuteError::InvalidAuthToken => ExecuteError::InvalidAuthToken,
            ExecuteError::TokenManagerNotInit => ExecuteError::TokenManagerNotInit,
            ExecuteError::TokenNotProvided => ExecuteError::TokenNotProvided,
            ExecuteError::TokenOldRevision(token, current) => ExecuteError::TokenOldRevision(
                *token,
                *current,
            ),
            ExecuteError::DbError(detail) => ExecuteError::DbError(detail.clone()),
            ExecuteError::PermissionDenied => ExecuteError::PermissionDenied,
        }
    }
}

/// The status with `code` whose message is `phrase` behind the namespace
/// marker.
pub open spec fn fixed_status(code: tonic::Code, phrase: Seq<char>) -> StatusView {
    StatusView { code, message: marked(phrase) }
}

impl ErrorView {
    /// The rendering of a failure for logs: the template of its variant,
    /// filled with its payload. A refused request renders as the message of
    /// the refusal.
    pub open spec fn rendering(self) -> Seq<char> {
        match self {
            ErrorView::InvalidRequest(refusal) => refusal.message,
            ErrorView::KeyNotFound => "key not found"@,
            ErrorView::RevisionTooLarge(required, current) => "required revision "@
                + decimal(required as int)
                + " is higher than current revision "@
                + decimal(current as int),
            ErrorView::RevisionCompacted(required, compacted) => "required revision "@
                + decimal(required as int)
                + " has been compacted, compacted revision is "@
                + decimal(compacted as int),
            ErrorView::LeaseNotFound(id) => "lease "@ + decimal(id as int) + " not found"@,
            ErrorView::LeaseExpired(id) => "lease "@ + decimal(id as int) + " is expired"@,
            ErrorView::LeaseTtlTooLarge(ttl) => "lease ttl is too large: "@ + decimal(ttl as int),
            ErrorView::LeaseAlreadyExists(id) => "lease "@
                + decimal(id as int)
                + " already exists"@,
            ErrorView::AuthNotEnabled => "auth is not enabled"@,
            ErrorView::AuthFailed => "invalid username or password"@,
            ErrorView::UserNotFound(name) => "user "@ + name + " not found"@,
            ErrorView::UserAlreadyExists(name) => "user "@ + name + " already exists"@,
            ErrorView::UserAlreadyHasRole(user, role) => "user "@
                + user
                + " already has role "@
                + role,
            ErrorView::NoPasswordUser => "password was given for no password user"@,
            ErrorView::RoleNotFound(name) => "role "@ + name + " not found"@,
            ErrorView::RoleAlreadyExists(name) => "role "@ + name + " already exists"@,
            ErrorView::RoleNotGranted(name) => "role "@ + name + " is not granted to the user"@,
            ErrorView::RootRoleNotExist => "root user does not have root role"@,
            ErrorView::PermissionNotGranted => "permission not granted to the role"@,
            ErrorView::PermissionNotGiven => "permission not given"@,
            ErrorView::InvalidAuthManagement => "invalid auth management"@,
            ErrorView::InvalidAuthToken => "invalid auth token"@,
            ErrorView::TokenManagerNotInit => "token manager is not initialized"@,
            ErrorView::TokenNotProvided => "token is not provided"@,
            ErrorView::TokenOldRevision(token, current) => "token's revision "@
                + decimal(token as int)
                + " is older than current revision "@
                + decimal(current as int),
            ErrorView::DbError(detail) => "db error: "@ + detail,
            ErrorView::PermissionDenied => "permission denied"@,
        }
    }

    /// The status sent for a failure. Most variants have a fixed phrase
    /// behind the namespace marker, whatever their payload; a few are sent
    /// as they render; a refused request is sent as the refusal says.
    pub open spec fn status(self) -> StatusView {
        match self {
            ErrorView::InvalidRequest(refusal) => refusal,
            ErrorView::KeyNotFound => fixed_status(tonic::Code::InvalidArgument, "key not found"@),
            ErrorView::RevisionTooLarge(_, _) => fixed_status(
                tonic::Code::OutOfRange,
                "mvcc: required revision is a future revision"@,
            ),
            ErrorView::RevisionCompacted(_, _) => fixed_status(
                tonic::Code::OutOfRange,
                "mvcc: required revision has been compacted"@,
            ),
            ErrorView::LeaseNotFound(_) => fixed_status(
                tonic::Code::NotFound,
                "requested lease not found"@,
            ),
            ErrorView::LeaseTtlTooLarge(_) => fixed_status(
                tonic::Code::OutOfRange,
                "too large lease TTL"@,
            ),
            ErrorView::LeaseAlreadyExists(_) => fixed_status(
                tonic::Code::FailedPrecondition,
                "lease already exists"@,
            ),
            ErrorView::AuthNotEnabled => fixed_status(
                tonic::Code::FailedPrecondition,
                "authentication is not enabled"@,
            ),
            ErrorView::AuthFailed => fixed_status(
                tonic::Code::InvalidArgument,
                "authentication failed, invalid user ID or password"@,
            ),
            ErrorView::UserNotFound(_) => fixed_status(
                tonic::Code::FailedPrecondition,
                "user name not found"@,
            ),
            ErrorView::UserAlreadyExists(_) => fixed_status(
                tonic::Code::FailedPrecondition,
                "user name already exists"@,
            ),
            ErrorView::RoleNotFound(_) => fixed_status(
                tonic::Code::FailedPrecondition,
                "role name not found"@,
            ),
            ErrorView::RoleAlreadyExists(_) => fixed_status(
                tonic::Code::FailedPrecondition,
                "role name already exists"@,
            ),
            ErrorView::RoleNotGranted(_) => fixed_status(
                tonic::Code::FailedPrecondition,
                "role is not granted to the user"@,
            ),
            ErrorView::RootRoleNotExist => fixed_status(
                tonic::Code::FailedPrecondition,
                "root user does not have root role"@,
            ),
            ErrorView::PermissionNotGranted => fixed_status(
                tonic::Code::FailedPrecondition,
                "permission is not granted to the role"@,
            ),
            ErrorView::PermissionNotGiven => fixed_status(
                tonic::Code::InvalidArgument,
                "permission not given"@,
            ),
            ErrorView::InvalidAuthToken | ErrorView::TokenOldRevision(_, _) => fixed_status(
                tonic::Code::Unauthenticated,
                "invalid auth token"@,
            ),
            ErrorView::PermissionDenied => fixed_status(
                tonic::Code::PermissionDenied,
                "permission denied"@,
            ),
            ErrorView::InvalidAuthManagement => fixed_status(
                tonic::Code::InvalidArgument,
                "invalid auth management"@,
            ),
            ErrorView::LeaseExpired(_) => StatusView {
                code: tonic::Code::DeadlineExceeded,
                message: self.rendering(),
            },
            ErrorView::UserAlreadyHasRole(_, _)
            | ErrorView::NoPasswordUser
            | ErrorView::TokenManagerNotInit => StatusView {
                code: tonic::Code::FailedPrecondition,
                message: self.rendering(),
            },
            ErrorView::TokenNotProvided => StatusView {
                code: tonic::Code::InvalidArgument,
                message: self.rendering(),
            },
            ErrorView::DbError(_) => StatusView {
                code: tonic::Code::Internal,
                message: self.rendering(),
            },
        }
    }

    /// The texts of the payload as the rendering shows them, in the order
    /// of the fields: an integer by its decimal text, a name as it is. A
    /// refused request has none of its own.
    pub open spec fn payload(self) -> Seq<Seq<char>> {
        match self {
            ErrorView::RevisionTooLarge(first, second)
            | ErrorView::RevisionCompacted(first, second)
            | ErrorView::TokenOldRevision(first, second) => seq![
                decimal(first as int),
                decimal(second as int),
            ],
            ErrorView::LeaseNotFound(value)
            | ErrorView::LeaseExpired(value)
            | ErrorView::LeaseTtlTooLarge(value)
            | ErrorView::LeaseAlreadyExists(value) => seq![decimal(value as int)],
            ErrorView::UserNotFound(text)
            | ErrorView::UserAlreadyExists(text)
            | ErrorView::RoleNotFound(text)
            | ErrorView::RoleAlreadyExists(text)
            | ErrorView::RoleNotGranted(text)
            | ErrorView::DbError(text) => seq![text],
            ErrorView::UserAlreadyHasRole(user, role) => seq![user, role],
            _ => Seq::empty(),
        }
    }

    /// Whether the message sent for this failure is its rendering.
    pub open spec fn is_sent_as_rendered(self) -> bool {
        self is LeaseExpired || self is UserAlreadyHasRole || self is NoPasswordUser
            || self is TokenManagerNotInit || self is TokenNotProvided || self is DbError
    }
}

impl ExecuteError {
    /// The rendering of this failure for logs.
    pub fn to_string(&self) -> (s: String)
        ensures
            s@ == self@.rendering(),
    {
        match self {
            ExecuteError::InvalidRequest(refusal) => refusal.to_string(),
            ExecuteError::KeyNotFound => "key not found".to_owned(),
            ExecuteError::RevisionTooLarge(required, current) => {
                let mut s = "required revision ".to_owned();
                append_decimal(&mut s, *required);
                s.append(" is higher than current revision ");
                append_decimal(&mut s, *current);
                s
            },
            ExecuteError::RevisionCompacted(required, compacted) => {
                let mut s = "required revision ".to_owned();
                append_decimal(&mut s, *required);
                s.append(" has been compacted, compacted revision is ");
                append_decimal(&mut s, *compacted);
                s
            },
            ExecuteError::LeaseNotFound(id) => {
                let mut s = "lease ".to_owned();
                append_decimal(&mut s, *id);
                s.append(" not found");
                s
            },
            ExecuteError::LeaseExpired(id) => {
                let mut s = "lease ".to_owned();
                append_decimal(&mut s, *id);
                s.append(" is expired");
                s
            },
            ExecuteError::LeaseTtlTooLarge(ttl) => {
                let mut s = "lease ttl is too large: ".to_owned();
                append_decimal(&mut s, *ttl);
                s
            },
            ExecuteError::LeaseAlreadyExists(id) => {
                let mut s = "lease ".to_owned();
                append_decimal(&mut s, *id);
                s.append(" already exists");
                s
            },
            ExecuteError::AuthNotEnabled => "auth is not enabled".to_owned(),
            ExecuteError::AuthFailed => "invalid username or password".to_owned(),
            ExecuteError::UserNotFound(name) => {
                let mut s = "user ".to_owned();
                s.append(name.as_str());
                s.append(" not found");
                s
            },
            ExecuteError::UserAlreadyExists(name) => {
                let mut s = "user ".to_owned();
                s.append(name.as_str());
                s.append(" already exists");
                s
            },
            ExecuteError::UserAlreadyHasRole(user, role) => {
                let mut s = "user ".to_owned();
                s.append(user.as_str());
                s.append(" already has role ");
                s.append(role.as_str());
                s
            },
            ExecuteError::NoPasswordUser => "password was given for no password user".to_owned(),
            ExecuteError::RoleNotFound(name) => {
                let mut s = "role ".to_owned();
                s.append(name.as_str());
                s.append(" not found");
                s
            },
            ExecuteError::RoleAlreadyExists(name) => {
                let mut s = "role ".to_owned();
                s.append(name.as_str());
                s.append(" already exists");
                s
            },
            ExecuteError::RoleNotGranted(name) => {
                let mut s = "role ".to_owned();
                s.append(name.as_str());
                s.append(" is not granted to the user");
                s
            },
            ExecuteError::RootRoleNotExist => "root user does not have root role".to_owned(),
            ExecuteError::PermissionNotGranted => "permission not granted to the role".to_owned(),
            ExecuteError::PermissionNotGiven => "permission not given".to_owned(),
            ExecuteError::InvalidAuthManagement => "invalid auth management".to_owned(),
            ExecuteError::InvalidAuthToken => "invalid auth token".to_owned(),
            ExecuteError::TokenManagerNotInit => "token manager is not initialized".to_owned(),
            ExecuteError::TokenNotProvided => "token is not provided".to_owned(),
            ExecuteError::TokenOldRevision(token, current) => {
                let mut s = "token's revision ".to_owned();
                append_decimal(&mut s, *token);
                s.append(" is older than current revision ");
                append_decimal(&mut s, *current);
                s
            },
            ExecuteError::DbError(detail) => {
                let mut s = "db error: ".to_owned();
                s.append(detail.as_str());
                s
            },
            ExecuteError::PermissionDenied => "permission denied".to_owned(),
        }
    }

    /// The status sent to the client for this failure.
    pub fn translate(&self) -> (ws: WireStatus)
        ensures
            ws@ == self@.status(),
    {
        match self {
            ExecuteError::InvalidRequest(refusal) => refusal.translate(),
            ExecuteError::KeyNotFound => WireStatus::fixed(
                tonic::Code::InvalidArgument,
                "key not found",
            ),
            ExecuteError::RevisionTooLarge(_, _) => WireStatus::fixed(
                tonic::Code::OutOfRange,
                "mvcc: required revision is a future revision",
            ),
            ExecuteError::RevisionCompacted(_, _) => WireStatus::fixed(
                tonic::Code::OutOfRange,
                "mvcc: required revision has been compacted",
            ),
            ExecuteError::LeaseNotFound(_) => WireStatus::fixed(
                tonic::Code::NotFound,
                "requested lease not found",
            ),
            ExecuteError::LeaseTtlTooLarge(_) => WireStatus::fixed(
                tonic::Code::OutOfRange,
                "too large lease TTL",
            ),
            ExecuteError::LeaseAlreadyExists(_) => WireStatus::fixed(
                tonic::Code::FailedPrecondition,
                "lease already exists",
            ),
            ExecuteError::AuthNotEnabled => WireStatus::fixed(
                tonic::Code::FailedPrecondition,
                "authentication is not enabled",
            ),
            ExecuteError::AuthFailed => WireStatus::fixed(
                tonic::Code::InvalidArgument,
                "authentication failed, invalid user ID or password",
            ),
            ExecuteError::UserNotFound(_) => WireStatus::fixed(
                tonic::Code::FailedPrecondition,
                "user name not found",
            ),
            ExecuteError::UserAlreadyExists(_) => WireStatus::fixed(
                tonic::Code::FailedPrecondition,
                "user name already exists",
            ),
            ExecuteError::RoleNotFound(_) => WireStatus::fixed(
                tonic::Code::FailedPrecondition,
                "role name not found",
            ),
            ExecuteError::RoleAlreadyExists(_) => WireStatus::fixed(
                tonic::Code::FailedPrecondition,
                "role name already exists",
            ),
            ExecuteError::RoleNotGranted(_) => WireStatus::fixed(
                tonic::Code::FailedPrecondition,
                "role is not granted to the user",
            ),
            ExecuteError::RootRoleNotExist => WireStatus::fixed(
                tonic::Code::FailedPrecondition,
                "root user does not have root role",
            ),
            ExecuteError::PermissionNotGranted => WireStatus::fixed(
                tonic::Code::FailedPrecondition,
                "permission is not granted to the role",
            ),
            ExecuteError::PermissionNotGiven => WireStatus::fixed(
                tonic::Code::InvalidArgument,
                "permission not given",
            ),
            ExecuteError::InvalidAuthToken
            | ExecuteError::TokenOldRevision(_, _) => WireStatus::fixed(
                tonic::Code::Unauthenticated,
                "invalid auth token",
            ),
            ExecuteError::PermissionDenied => WireStatus::fixed(
                tonic::Code::PermissionDenied,
                "permission denied",
            ),
            ExecuteError::InvalidAuthManagement => WireStatus::fixed(
                tonic::Code::InvalidArgument,
                "invalid auth management",
            ),
            ExecuteError::LeaseExpired(_) => WireStatus::verbatim(
                tonic::Code::DeadlineExceeded,
                self.to_string(),
            ),
            ExecuteError::UserAlreadyHasRole(_, _)
            | ExecuteError::NoPasswordUser
            | ExecuteError::TokenManagerNotInit => WireStatus::verbatim(
                tonic::Code::FailedPrecondition,
                self.to_string(),
            ),
            ExecuteError::TokenNotProvided => WireStatus::verbatim(
                tonic::Code::InvalidArgument,
                self.to_string(),
            ),
            ExecuteError::DbError(_) => WireStatus::verbatim(
                tonic::Code::Internal,
                self.to_string(),
            ),
        }
    }

    /// The status for this failure in the transport's own representation.
    pub fn into_status(self) -> (status: tonic::Status)
        ensures
            status_code(status) == self@.status().code,
            status_message(status) == self@.status().message,
    {
        self.translate().into_status()
    }
}

impl From<ExecuteError> for tonic::Status {
    /// The status for `err` in the transport's own representation.
    fn from(err: ExecuteError) -> (status: tonic::Status)
        ensures
            status_code(status) == err@.status().code,
            status_message(status) == err@.status().message,
    {
        err.into_status()
    }
}

/// A transport status cannot be written down in a contract, only what
/// its code and message are: the conversion is stated by the clauses of
/// `from` above, not by `from_spec`.
impl vstd::std_specs::convert::FromSpecImpl<ExecuteError> for tonic::Status {
    open spec fn obeys_from_spec() -> bool {
        false
    }

    open spec fn from_spec(err: ExecuteError) -> tonic::Status {
        arbitrary()
    }
}

/// A refused request is sent exactly as the refusal says, and renders as
/// the message of the refusal.
pub proof fn lemma_refusal_is_forwarded(refusal: StatusView)
    ensures
        ErrorView::InvalidRequest(refusal).status() == refusal,
        ErrorView::InvalidRequest(refusal).rendering() == refusal.message,
{
}

/// An outdated token is sent exactly as an invalid one: its two revisions
/// do not reach the client, whatever they are.
pub proof fn lemma_token_revisions_are_dropped(token: i64, current: i64)
    ensures
        ErrorView::TokenOldRevision(token, current).status()
            == ErrorView::InvalidAuthToken.status(),
        ErrorView::InvalidAuthToken.status() == fixed_status(
            tonic::Code::Unauthenticated,
            "invalid auth token"@,
        ),
{
}

/// A failure that is neither a refused request nor sent as it renders has
/// a message that opens with the namespace marker.
pub proof fn lemma_fixed_message_opens_with_marker(err: ErrorView)
    requires
        !(err is InvalidRequest),
        !err.is_sent_as_rendered(),
    ensures
        namespace_marker().is_prefix_of(err.status().message),
{
    let message = err.status().message;
    let marker = namespace_marker();
    assert(message.len() >= marker.len());
    assert(message.subrange(0, marker.len() as int) =~= marker);
}

/// A failure that is sent as it renders has its rendering as its message.
pub proof fn lemma_rendered_message_is_rendering(err: ErrorView)
    requires
        err.is_sent_as_rendered(),
    ensures
        err.status().message == err.rendering(),
{
}

/// The rendering of a failure holds the text of each payload field
/// unchanged, in the order of the fields.
pub proof fn lemma_rendering_embeds_payload(err: ErrorView)
    ensures
        embeds_in_order(err.rendering(), err.payload()),
{
    let rendering = err.rendering();
    let none = Seq::<char>::empty();
    match err {
        ErrorView::RevisionTooLarge(required, current) => {
            lemma_embeds_two(
                "required revision "@,
                decimal(required as int),
                " is higher than current revision "@,
                decimal(current as int),
                none,
            );
            assert(rendering =~= "required revision "@
                + decimal(required as int)
                + " is higher than current revision "@
                + decimal(current as int)
                + none);
        },
        ErrorView::RevisionCompacted(required, compacted) => {
            lemma_embeds_two(
                "required revision "@,
                decimal(required as int),
                " has been compacted, compacted revision is "@,
                decimal(compacted as int),
                none,
            );
            assert(rendering =~= "required revision "@
                + decimal(required as int)
                + " has been compacted, compacted revision is "@
                + decimal(compacted as int)
                + none);
        },
        ErrorView::LeaseNotFound(id) => {
            lemma_embeds_one("lease "@, decimal(id as int), " not found"@);
        },
        ErrorView::LeaseExpired(id) => {
            lemma_embeds_one("lease "@, decimal(id as int), " is expired"@);
        },
        ErrorView::LeaseTtlTooLarge(ttl) => {
            lemma_embeds_one("lease ttl is too large: "@, decimal(ttl as int), none);
            assert(rendering =~= "lease ttl is too large: "@ + decimal(ttl as int) + none);
        },
        ErrorView::LeaseAlreadyExists(id) => {
            lemma_embeds_one("lease "@, decimal(id as int), " already exists"@);
        },
        ErrorView::UserNotFound(name) => {
            lemma_embeds_one("user "@, name, " not found"@);
        },
        ErrorView::UserAlreadyExists(name) => {
            lemma_embeds_one("user "@, name, " already exists"@);
        },
        ErrorView::UserAlreadyHasRole(user, role) => {
            lemma_embeds_two("user "@, user, " already has role "@, role, none);
            assert(rendering =~= "user "@ + user + " already has role "@ + role + none);
        },
        ErrorView::RoleNotFound(name) => {
            lemma_embeds_one("role "@, name, " not found"@);
        },
        ErrorView::RoleAlreadyExists(name) => {
            lemma_embeds_one("role "@, name, " already exists"@);
        },
        ErrorView::RoleNotGranted(name) => {
            lemma_embeds_one("role "@, name, " is not granted to the user"@);
        },
        ErrorView::TokenOldRevision(token, current) => {
            lemma_embeds_two(
                "token's revision "@,
                decimal(token as int),
                " is older than current revision "@,
                decimal(current as int),
                none,
            );
            assert(rendering =~= "token's revision "@
                + decimal(token as int)
                + " is older than current revision "@
                + decimal(current as int)
                + none);
        },
        ErrorView::DbError(detail) => {
            lemma_embeds_one("db error: "@, detail, none);
            assert(rendering =~= "db error: "@ + detail + none);
        },
        _ => {
            lemma_embeds_none(rendering);
        },
    }
}

} // verus!
