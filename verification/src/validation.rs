//! The failure of a request that was refused before it ran.

use vstd::prelude::*;
use vstd::string::*;
use crate::status::{status_code, status_message, StatusView, WireStatus};

verus! {

/// A refused request, already classified by the validation that refused
/// it: the code and the message that the client is to receive. In logs it
/// shows as its message.
#[derive(Debug, Eq)]
pub struct ValidationError {
    code: tonic::Code,
    message: String,
}

impl View for ValidationError {
    type V = StatusView;

    closed spec fn view(&self) -> StatusView {
        StatusView { code: self.code, message: self.message@ }
    }
}

impl PartialEq for ValidationError {
    fn eq(&self, other: &Self) -> (same: bool) {
        self.code == other.code && self.message == other.message
    }
}

impl vstd::std_specs::cmp::PartialEqSpecImpl for ValidationError {
    open spec fn obeys_eq_spec() -> bool {
        true
    }

    open spec fn eq_spec(&self, other: &Self) -> bool {
        self@ == other@
    }
}

impl Clone for ValidationError {
    fn clone(&self) -> (copy: Self)
        ensures
            copy == *self,
    {
        ValidationError { code: self.code, message: self.message.clone() }
    }
}

impl ValidationError {
    /// A refusal that is sent with `code` and `message`.
    pub fn new(code: tonic::Code, message: String) -> (e: ValidationError)
        ensures
            e@ == (StatusView { code, message: message@ }),
    {
        ValidationError { code, message }
    }

    /// The text of this failure in logs.
    pub fn to_string(&self) -> (s: String)
        ensures
            s@ == self@.message,
    {
        self.message.clone()
    }

    /// The status that this failure is sent as.
    pub fn translate(&self) -> (ws: WireStatus)
        ensures
            ws@ == self@,
    {
        WireStatus::verbatim(self.code, self.message.clone())
    }

    /// The status in the transport's own representation.
    pub fn into_status(self) -> (status: tonic::Status)
        ensures
            status_code(status) == self@.code,
            status_message(status) == self@.message,
    {
        WireStatus::verbatim(self.code, self.message).into_status()
    }
}

} // verus!
