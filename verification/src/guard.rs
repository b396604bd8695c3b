//! The guard in front of the operations: login is open, everything else needs
//! a valid credential, and a request that lacks one is refused before the
//! daemon is asked anything.
//!
//! No state is carried between requests: each one starts unauthenticated and
//! is authenticated, or refused, by the credential it presents.

use vstd::prelude::*;
use crate::auth::{spec_header, spec_validate, validate, Claims, ClaimsView, Refusal, SigningSecret};
use crate::auth::spec_refusal_message;
use crate::error::{spec_unauthorized, ApiError};
use crate::lifecycle::{lifecycle_call, listing_call, DaemonCall, DaemonCallView, LifecycleAction};

verus! {

/// What a request asks for.
#[derive(Clone, Copy, Debug, PartialEq, Eq, Structural)]
pub enum Operation {
    /// Exchange the operator's name and password for a credential.
    Login,
    /// The greeting.
    Hello,
    /// The host's description.
    HostInfo,
    /// The container list.
    ListContainers,
    /// A lifecycle command on one container.
    Lifecycle(LifecycleAction),
}

/// Whether an operation needs a credential. Login alone is exempt.
pub open spec fn spec_requires_credential(operation: Operation) -> bool {
    operation != Operation::Login
}

/// Whether an operation needs a credential.
pub fn requires_credential(operation: Operation) -> (needed: bool)
    ensures
        needed == spec_requires_credential(operation),
{
    match operation {
        Operation::Login => false,
        _ => true,
    }
}

/// Whether an operation asks anything of the daemon.
pub open spec fn spec_calls_daemon(operation: Operation) -> bool {
    match operation {
        Operation::Login => false,
        Operation::Hello => false,
        Operation::HostInfo => true,
        Operation::ListContainers => true,
        Operation::Lifecycle(_) => true,
    }
}

/// Whether an operation asks anything of the daemon.
pub fn calls_daemon(operation: Operation) -> (calls: bool)
    ensures
        calls == spec_calls_daemon(operation),
{
    match operation {
        Operation::Login => false,
        Operation::Hello => false,
        _ => true,
    }
}

/// The one call that an operation makes to the daemon, if it makes any. A
/// lifecycle command is made on the container with the given identifier; the
/// other operations do not look at the identifier.
pub open spec fn spec_daemon_call(operation: Operation, id: Seq<char>) -> Option<DaemonCallView> {
    match operation {
        Operation::Login => None,
        Operation::Hello => None,
        Operation::HostInfo => Some(DaemonCallView::HostInfo),
        Operation::ListContainers => Some(DaemonCallView::ListContainers { all: true }),
        Operation::Lifecycle(action) => Some(DaemonCallView::Lifecycle { action, id }),
    }
}

/// The one call that an operation makes to the daemon, if it makes any.
pub fn daemon_call(operation: Operation, id: &str) -> (call: Option<DaemonCall>)
    ensures
        match call {
            Some(c) => spec_daemon_call(operation, id@) == Some(c@),
            None => spec_daemon_call(operation, id@) is None,
        },
        call is Some <==> spec_calls_daemon(operation),
{
    match operation {
        Operation::Login => None,
        Operation::Hello => None,
        Operation::HostInfo => Some(DaemonCall::HostInfo),
        Operation::ListContainers => Some(listing_call()),
        Operation::Lifecycle(action) => Some(lifecycle_call(action, id)),
    }
}

/// On whose behalf an admitted request runs.
#[derive(Clone, Debug)]
pub enum Caller {
    /// Nobody: the request needed no credential.
    Unauthenticated,
    /// The subject of a valid credential.
    Authenticated(Claims),
}

/// The guard's decision, as plain values.
pub enum Admission {
    /// Admitted without a credential.
    Open,
    /// Admitted with these claims.
    Granted(ClaimsView),
    /// Refused for this reason.
    Refused(Refusal),
}

/// What the guard decides on a request.
pub open spec fn spec_authorize(
    operation: Operation,
    header: Option<Seq<char>>,
    secret: Seq<u8>,
    now: u64,
) -> Admission {
    if !spec_requires_credential(operation) {
        Admission::Open
    } else {
        match spec_validate(header, secret, now) {
            Ok(claims) => Admission::Granted(claims),
            Err(why) => Admission::Refused(why),
        }
    }
}

/// Decides whether a request may run. Login runs whatever the header holds.
/// Any other operation runs only with a credential that is valid at `now`,
/// and is refused as unauthorized without one.
pub fn authorize(operation: Operation, header: Option<&str>, secret: &SigningSecret, now: u64) -> (r:
    Result<Caller, ApiError>)
    ensures
        match r {
            Ok(Caller::Unauthenticated) => spec_authorize(
                operation,
                spec_header(header),
                secret@,
                now,
            ) == Admission::Open,
            Ok(Caller::Authenticated(claims)) => spec_authorize(
                operation,
                spec_header(header),
                secret@,
                now,
            ) == Admission::Granted(claims@),
            Err(e) => spec_authorize(operation, spec_header(header), secret@, now)
                matches Admission::Refused(why) && e@ == spec_unauthorized(
                spec_refusal_message(why),
            ) && e.wf(),
        },
{
    if !requires_credential(operation) {
        return Ok(Caller::Unauthenticated);
    }
    match validate(header, secret, now) {
        Ok(claims) => Ok(Caller::Authenticated(claims)),
        Err(e) => Err(e),
    }
}

/// No operation reaches the daemon without a valid credential: the only
/// operation that is admitted without one asks nothing of the daemon.
pub proof fn lemma_daemon_is_guarded(
    operation: Operation,
    header: Option<Seq<char>>,
    secret: Seq<u8>,
    now: u64,
)
    requires
        spec_calls_daemon(operation),
    ensures
        spec_authorize(operation, header, secret, now) is Granted <==> spec_validate(
            header,
            secret,
            now,
        ) is Ok,
        spec_authorize(operation, header, secret, now) !is Open,
{
}

} // verus!
