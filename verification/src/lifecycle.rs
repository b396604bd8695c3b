//! Lifecycle commands: what is asked of the daemon, and what the caller is
//! told of the outcome.
//!
//! Each command is one call to the daemon with the identifier as it came from
//! the route, in full. Nothing is retried. The new state of the container is
//! seen by listing again.

use vstd::prelude::*;
use vstd::string::StringExecFns;
use crate::error::{map_daemon_error, spec_daemon_error, ApiError, ApiErrorView};

verus! {

/// A change of a container's state.
#[derive(Clone, Copy, Debug, PartialEq, Eq, Structural)]
pub enum LifecycleAction {
    Start,
    Stop,
    Restart,
}

/// One call to the daemon.
#[derive(Clone, Debug)]
pub enum DaemonCall {
    /// Ask for the host's description.
    HostInfo,
    /// Ask for the containers; `all` includes the stopped ones.
    ListContainers { all: bool },
    /// Change the state of the container with this identifier.
    Lifecycle { action: LifecycleAction, id: String },
}

/// A call as plain values.
pub enum DaemonCallView {
    HostInfo,
    ListContainers { all: bool },
    Lifecycle { action: LifecycleAction, id: Seq<char> },
}

impl View for DaemonCall {
    type V = DaemonCallView;

    open spec fn view(&self) -> DaemonCallView {
        match *self {
            DaemonCall::HostInfo => DaemonCallView::HostInfo,
            DaemonCall::ListContainers { all } => DaemonCallView::ListContainers { all },
            DaemonCall::Lifecycle { action, id } => DaemonCallView::Lifecycle { action, id: id@ },
        }
    }
}

/// The call that lists the containers: always all of them, stopped ones
/// included.
pub fn listing_call() -> (call: DaemonCall)
    ensures
        call@ == (DaemonCallView::ListContainers { all: true }),
{
    DaemonCall::ListContainers { all: true }
}

/// The call that performs a lifecycle command: the identifier is handed on
/// unchanged.
pub fn lifecycle_call(action: LifecycleAction, id: &str) -> (call: DaemonCall)
    ensures
        call@ == (DaemonCallView::Lifecycle { action, id: id@ }),
{
    DaemonCall::Lifecycle { action, id: id.to_owned() }
}

/// The word that names a completed action.
pub open spec fn spec_done_word(action: LifecycleAction) -> Seq<char> {
    match action {
        LifecycleAction::Start => " started"@,
        LifecycleAction::Stop => " stopped"@,
        LifecycleAction::Restart => " restarted"@,
    }
}

/// The acknowledgement of a completed action on a container.
pub open spec fn spec_ack_message(action: LifecycleAction, id: Seq<char>) -> Seq<char> {
    "Container "@ + id + spec_done_word(action)
}

/// The acknowledgement of a completed action on a container: it names the
/// identifier in full.
pub fn ack_message(action: LifecycleAction, id: &str) -> (message: String)
    ensures
        message@ == spec_ack_message(action, id@),
{
    let word = match action {
        LifecycleAction::Start => " started",
        LifecycleAction::Stop => " stopped",
        LifecycleAction::Restart => " restarted",
    };
    String::from_str("Container ").concat(id).concat(word)
}

/// What the caller is told of a lifecycle command, given the daemon's
/// outcome.
pub open spec fn spec_lifecycle_outcome(
    action: LifecycleAction,
    id: Seq<char>,
    outcome: Result<(), String>,
) -> Result<Seq<char>, ApiErrorView> {
    match outcome {
        Ok(_) => Ok(spec_ack_message(action, id)),
        Err(daemon_message) => Err(spec_daemon_error(daemon_message@)),
    }
}

/// What the caller is told of a lifecycle command: the acknowledgement where
/// the daemon succeeded, else the daemon's failure as an internal error.
pub fn lifecycle_outcome(action: LifecycleAction, id: &str, outcome: Result<(), String>) -> (r:
    Result<String, ApiError>)
    ensures
        match r {
            Ok(message) => spec_lifecycle_outcome(action, id@, outcome) == Ok::<
                Seq<char>,
                ApiErrorView,
            >(message@),
            Err(e) => spec_lifecycle_outcome(action, id@, outcome) == Err::<
                Seq<char>,
                ApiErrorView,
            >(e@) && e.wf(),
        },
{
    match outcome {
        Ok(_) => Ok(ack_message(action, id)),
        Err(daemon_message) => Err(map_daemon_error(daemon_message)),
    }
}

} // verus!
