//! The single error shape that crosses the service boundary.

use vstd::prelude::*;

verus! {

/// Transport status of every authentication failure.
pub const STATUS_UNAUTHORIZED: u16 = 401;

/// Transport status of every daemon failure.
pub const STATUS_INTERNAL_ERROR: u16 = 500;

/// Why a request was refused.
#[derive(Clone, Copy, Debug, PartialEq, Eq, Structural)]
pub enum ErrorClass {
    /// Missing, malformed, expired or forged credential, or a bad login pair.
    Unauthorized,
    /// Any failure reported by the daemon client.
    Daemon,
}

/// A transport status code plus a description.
#[derive(Clone, Debug)]
pub struct ApiError {
    pub class: ErrorClass,
    pub status: u16,
    pub message: String,
}

/// The status that a class of failure is rendered with.
pub open spec fn spec_status_of(class: ErrorClass) -> u16 {
    match class {
        ErrorClass::Unauthorized => STATUS_UNAUTHORIZED,
        ErrorClass::Daemon => STATUS_INTERNAL_ERROR,
    }
}

/// The status that a class of failure is rendered with.
pub fn status_of(class: ErrorClass) -> (status: u16)
    ensures
        status == spec_status_of(class),
{
    match class {
        ErrorClass::Unauthorized => STATUS_UNAUTHORIZED,
        ErrorClass::Daemon => STATUS_INTERNAL_ERROR,
    }
}

/// An error as plain values.
pub struct ApiErrorView {
    pub class: ErrorClass,
    pub status: u16,
    pub message: Seq<char>,
}

impl View for ApiError {
    type V = ApiErrorView;

    open spec fn view(&self) -> ApiErrorView {
        ApiErrorView { class: self.class, status: self.status, message: self.message@ }
    }
}

/// The authentication failure with the given description.
pub open spec fn spec_unauthorized(message: Seq<char>) -> ApiErrorView {
    ApiErrorView { class: ErrorClass::Unauthorized, status: STATUS_UNAUTHORIZED, message }
}

/// The daemon failure with the given description.
pub open spec fn spec_daemon_error(message: Seq<char>) -> ApiErrorView {
    ApiErrorView { class: ErrorClass::Daemon, status: STATUS_INTERNAL_ERROR, message }
}

/// A fault of the process's configuration. It is fatal: no request is served
/// with it.
#[derive(Clone, Copy, Debug, PartialEq, Eq, Structural)]
pub enum Misconfiguration {
    /// No signing secret was supplied.
    MissingSecret,
    /// The signing secret could not be used to sign a credential.
    UnusableSecret,
}

impl ApiError {
    /// The status agrees with the class.
    pub open spec fn wf(&self) -> bool {
        self.status == spec_status_of(self.class)
    }

    /// An authentication failure with the given description.
    pub fn unauthorized(message: &str) -> (e: ApiError)
        ensures
            e@ == spec_unauthorized(message@),
            e.wf(),
    {
        ApiError {
            class: ErrorClass::Unauthorized,
            status: STATUS_UNAUTHORIZED,
            message: message.to_owned(),
        }
    }
}

/// Wraps a daemon failure: the fixed internal-error status and the daemon's
/// own text, unchanged.
pub fn map_daemon_error(daemon_message: String) -> (e: ApiError)
    ensures
        e@ == spec_daemon_error(daemon_message@),
        e.wf(),
{
    ApiError { class: ErrorClass::Daemon, status: STATUS_INTERNAL_ERROR, message: daemon_message }
}

} // verus!
