//! The uniform response: a message and at most one payload.
//!
//! The host's description is carried through as it came from the daemon; the
//! envelope is generic in its type and never looks inside.

use vstd::prelude::*;
use vstd::string::StringExecFns;
use crate::catalog::{
    catalogue, spec_catalogue, spec_raw_views, spec_record_views, ContainerRecord,
    ContainerRecordView, RawContainer,
};
use crate::error::{map_daemon_error, spec_daemon_error, ApiError, ApiErrorView};
use crate::lifecycle::{lifecycle_outcome, spec_lifecycle_outcome, LifecycleAction};

verus! {

/// The message of the greeting.
pub const HELLO_MESSAGE: &'static str = "Hello from backend!";

/// The message that goes with the host's description.
pub const HOST_INFO_MESSAGE: &'static str = "Docker Info";

/// The message that goes with the container list.
pub const CONTAINERS_MESSAGE: &'static str = "Containers List";

/// The response to a request that succeeded.
#[derive(Debug)]
pub struct ApiEnvelope<H> {
    pub message: String,
    pub docker_info: Option<H>,
    pub containers: Option<Vec<ContainerRecord>>,
}

/// A response as plain values.
pub struct ApiEnvelopeView<H> {
    pub message: Seq<char>,
    pub docker_info: Option<H>,
    pub containers: Option<Seq<ContainerRecordView>>,
}

impl<H> View for ApiEnvelope<H> {
    type V = ApiEnvelopeView<H>;

    open spec fn view(&self) -> ApiEnvelopeView<H> {
        ApiEnvelopeView {
            message: self.message@,
            docker_info: self.docker_info,
            containers: match self.containers {
                Some(records) => Some(spec_record_views(records@)),
                None => None,
            },
        }
    }
}

impl<H> ApiEnvelope<H> {
    /// At most one payload is there.
    pub open spec fn wf(&self) -> bool {
        self.docker_info is None || self.containers is None
    }
}

/// The response that carries a message and no payload.
pub open spec fn spec_plain<H>(message: Seq<char>) -> ApiEnvelopeView<H> {
    ApiEnvelopeView { message, docker_info: None, containers: None }
}

/// The response that carries a message and no payload.
pub fn plain<H>(message: String) -> (envelope: ApiEnvelope<H>)
    ensures
        envelope@ == spec_plain::<H>(message@),
        envelope.wf(),
{
    ApiEnvelope { message, docker_info: None, containers: None }
}

/// The greeting.
pub fn hello<H>() -> (envelope: ApiEnvelope<H>)
    ensures
        envelope@ == spec_plain::<H>(HELLO_MESSAGE@),
        envelope.wf(),
{
    plain(String::from_str(HELLO_MESSAGE))
}

/// The response to a lifecycle command, given the daemon's outcome.
pub open spec fn spec_lifecycle_response<H>(
    action: LifecycleAction,
    id: Seq<char>,
    outcome: Result<(), String>,
) -> Result<ApiEnvelopeView<H>, ApiErrorView> {
    match spec_lifecycle_outcome(action, id, outcome) {
        Ok(message) => Ok(spec_plain(message)),
        Err(e) => Err(e),
    }
}

/// The response to a lifecycle command: on success the acknowledgement that
/// names the container, with no payload; on failure the daemon's error
/// as an internal error.
pub fn lifecycle_response<H>(action: LifecycleAction, id: &str, outcome: Result<(), String>) -> (r:
    Result<ApiEnvelope<H>, ApiError>)
    ensures
        match r {
            Ok(envelope) => spec_lifecycle_response::<H>(action, id@, outcome) == Ok::<
                ApiEnvelopeView<H>,
                ApiErrorView,
            >(envelope@) && envelope.wf(),
            Err(e) => spec_lifecycle_response::<H>(action, id@, outcome) == Err::<
                ApiEnvelopeView<H>,
                ApiErrorView,
            >(e@) && e.wf(),
        },
{
    match lifecycle_outcome(action, id, outcome) {
        Ok(message) => Ok(plain(message)),
        Err(e) => Err(e),
    }
}

/// The response to a request for the host's description, given the daemon's
/// outcome.
pub open spec fn spec_host_info_response<H>(outcome: Result<H, String>) -> Result<
    ApiEnvelopeView<H>,
    ApiErrorView,
> {
    match outcome {
        Ok(info) => Ok(
            ApiEnvelopeView { message: HOST_INFO_MESSAGE@, docker_info: Some(info), containers: None },
        ),
        Err(daemon_message) => Err(spec_daemon_error(daemon_message@)),
    }
}

/// The response to a request for the host's description: on success the
/// description as the only payload; on failure the daemon's error
/// as an internal error.
pub fn host_info_response<H>(outcome: Result<H, String>) -> (r: Result<ApiEnvelope<H>, ApiError>)
    ensures
        match r {
            Ok(envelope) => spec_host_info_response(outcome) == Ok::<
                ApiEnvelopeView<H>,
                ApiErrorView,
            >(envelope@) && envelope.wf(),
            Err(e) => spec_host_info_response(outcome) == Err::<ApiEnvelopeView<H>, ApiErrorView>(
                e@,
            ) && e.wf(),
        },
{
    match outcome {
        Ok(info) => Ok(
            ApiEnvelope {
                message: String::from_str(HOST_INFO_MESSAGE),
                docker_info: Some(info),
                containers: None,
            },
        ),
        Err(daemon_message) => Err(map_daemon_error(daemon_message)),
    }
}

/// The response to a request for the container list, given the daemon's
/// outcome.
pub open spec fn spec_containers_response<H>(outcome: Result<Vec<RawContainer>, String>) -> Result<
    ApiEnvelopeView<H>,
    ApiErrorView,
> {
    match outcome {
        Ok(raws) => Ok(
            ApiEnvelopeView {
                message: CONTAINERS_MESSAGE@,
                docker_info: None,
                containers: Some(spec_catalogue(spec_raw_views(raws@))),
            },
        ),
        Err(daemon_message) => Err(spec_daemon_error(daemon_message@)),
    }
}

/// The response to a request for the container list: on success every
/// reported container, enriched, in the daemon's order, as the only payload;
/// on failure the daemon's error as an internal error.
pub fn containers_response<H>(outcome: Result<Vec<RawContainer>, String>) -> (r: Result<
    ApiEnvelope<H>,
    ApiError,
>)
    ensures
        match r {
            Ok(envelope) => spec_containers_response::<H>(outcome) == Ok::<
                ApiEnvelopeView<H>,
                ApiErrorView,
            >(envelope@) && envelope.wf(),
            Err(e) => spec_containers_response::<H>(outcome) == Err::<ApiEnvelopeView<H>, ApiErrorView>(
                e@,
            ) && e.wf(),
        },
{
    match outcome {
        Ok(raws) => Ok(
            ApiEnvelope {
                message: String::from_str(CONTAINERS_MESSAGE),
                docker_info: None,
                containers: Some(catalogue(&raws)),
            },
        ),
        Err(daemon_message) => Err(map_daemon_error(daemon_message)),
    }
}

} // verus!
