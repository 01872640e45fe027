//! The status that a client observes: a gRPC code and a message.

use vstd::prelude::*;
use vstd::string::*;

verus! {

/// `tonic::Code`, the closed set of gRPC status codes, with its variants.
#[verifier::external_type_specification]
pub struct ExCode(tonic::Code);

/// `tonic::Status`, the status as the transport sends it. Nothing inside
/// it is visible here.
#[verifier::external_type_specification]
#[verifier::external_body]
pub struct ExStatus(tonic::Status);

/// The `==` that `tonic::Code` derives: two codes are equal when they are
/// the same variant.
pub assume_specification[ <tonic::Code as PartialEq>::eq ](
    left: &tonic::Code,
    right: &tonic::Code,
) -> (same: bool)
    ensures
        same == (*left == *right),
;

/// The code that `tonic::Status::code` reports for `status`.
pub uninterp spec fn status_code(status: tonic::Status) -> tonic::Code;

/// The text that `tonic::Status::message` reports for `status`.
pub uninterp spec fn status_message(status: tonic::Status) -> Seq<char>;

/// Calls `tonic::Status::new`, which stores the code and the message it is
/// given; `code` and `message` of the result read them back unchanged.
#[verifier::external_body]
fn new_status(code: tonic::Code, message: String) -> (status: tonic::Status)
    ensures
        status_code(status) == code,
        status_message(status) == message@,
{
    tonic::Status::new(code, message)
}

/// The marker that opens every fixed message, so that clients which match
/// on message text keep working.
pub open spec fn namespace_marker() -> Seq<char> {
    "etcdserver: "@
}

/// A fixed phrase behind the namespace marker.
pub open spec fn marked(phrase: Seq<char>) -> Seq<char> {
    namespace_marker() + phrase
}

/// What a `WireStatus` stands for.
pub struct StatusView {
    pub code: tonic::Code,
    pub message: Seq<char>,
}

/// A status code together with the message sent beside it.
#[derive(Debug, Eq)]
pub struct WireStatus {
    code: tonic::Code,
    message: String,
}

impl View for WireStatus {
    type V = StatusView;

    closed spec fn view(&self) -> StatusView {
        StatusView { code: self.code, message: self.message@ }
    }
}

impl PartialEq for WireStatus {
    fn eq(&self, other: &Self) -> (same: bool) {
        self.code == other.code && self.message == other.message
    }
}

impl vstd::std_specs::cmp::PartialEqSpecImpl for WireStatus {
    open spec fn obeys_eq_spec() -> bool {
        true
    }

    open spec fn eq_spec(&self, other: &Self) -> bool {
        self@ == other@
    }
}

impl Clone for WireStatus {
    fn clone(&self) -> (copy: Self)
        ensures
            copy == *self,
    {
        WireStatus { code: self.code, message: self.message.clone() }
    }
}

impl WireStatus {
    /// A status with the given code whose message is `phrase` behind the
    /// namespace marker.
    pub(crate) fn fixed(code: tonic::Code, phrase: &str) -> (ws: WireStatus)
        ensures
            ws@ == (StatusView { code, message: marked(phrase@) }),
    {
        let mut message = "etcdserver: ".to_owned();
        message.append(phrase);
        WireStatus { code, message }
    }

    /// A status with the given code and exactly the given message.
    pub(crate) fn verbatim(code: tonic::Code, message: String) -> (ws: WireStatus)
        ensures
            ws@ == (StatusView { code, message: message@ }),
    {
        WireStatus { code, message }
    }

    /// The status code.
    pub fn code(&self) -> (code: tonic::Code)
        ensures
            code == self@.code,
    {
        self.code
    }

    /// The message.
    pub fn message(&self) -> (message: &str)
        ensures
            message@ == self@.message,
    {
        self.message.as_str()
    }

    /// The same status in the transport's own representation.
    pub fn into_status(self) -> (status: tonic::Status)
        ensures
            status_code(status) == self@.code,
            status_message(status) == self@.message,
    {
        new_status(self.code, self.message)
    }
}

} // verus!
