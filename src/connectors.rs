//! Where the services that an upload talks to are reached, and how their
//! failures are reported.

use vstd::prelude::*;

use crate::chunk::FileUploadChunk;
use crate::model::{AppError, AppErrorKind};
use crate::upload_service::PublishChannel;

verus! {

/// The content type that chunks are published with.
pub const DATA_CONTENT_TYPE: &'static str = "json";

/// The stage at which a call to the service sidecar failed, with the
/// failure's description.
pub enum SidecarFailure {
    /// No connection could be made.
    Connect { message: String },
    /// The call itself was refused or failed.
    Call { message: String },
    /// The call's answer could not be read.
    Unmarshal { message: String },
}

/// The description that a failure carries.
pub open spec fn failure_message(failure: SidecarFailure) -> Seq<char> {
    match failure {
        SidecarFailure::Connect { message } => message@,
        SidecarFailure::Call { message } => message@,
        SidecarFailure::Unmarshal { message } => message@,
    }
}

fn into_message(failure: SidecarFailure) -> (r: String)
    ensures
        r@ == failure_message(failure),
{
    match failure {
        SidecarFailure::Connect { message } => message,
        SidecarFailure::Call { message } => message,
        SidecarFailure::Unmarshal { message } => message,
    }
}

/// Publishes chunks through the pub/sub component of the service sidecar.
pub struct DaprPubSub {
    /// The address of the sidecar.
    pub dapr_grpc_server_address: String,
    /// The name of the pub/sub component.
    pub dapr_pubsub_name: String,
}

impl DaprPubSub {
    /// The topic that a chunk is published to on a channel: the destination
    /// that the chunk carries for that channel's file.
    pub fn topic_for(channel: PublishChannel, chunk: &FileUploadChunk) -> (r: String)
        ensures
            channel == PublishChannel::PrimaryFileQueue ==> r@ == chunk.primary_file_chunks_queue@,
            channel == PublishChannel::ComparisonFileQueue ==> r@
                == chunk.comparison_file_chunks_queue@,
    {
        match channel {
            PublishChannel::PrimaryFileQueue => chunk.primary_file_chunks_queue.topic_id.clone(),
            PublishChannel::ComparisonFileQueue => {
                chunk.comparison_file_chunks_queue.topic_id.clone()
            },
        }
    }

    /// How a failed publish is reported: a connection that could not be made
    /// as a connection error, anything else as an internal error.
    pub fn error_for(failure: SidecarFailure) -> (r: AppError)
        ensures
            r.message@ == failure_message(failure),
            failure is Connect ==> r.kind == AppErrorKind::ConnectionError,
            !(failure is Connect) ==> r.kind == AppErrorKind::InternalError,
    {
        let kind = match &failure {
            SidecarFailure::Connect { .. } => AppErrorKind::ConnectionError,
            _ => AppErrorKind::InternalError,
        };
        AppError::new(kind, into_message(failure))
    }
}

/// Fetches the details of reconciliation tasks by invoking the task service
/// through the service sidecar.
pub struct ReconTasksDetailsRetriever {
    /// The address of the sidecar.
    pub dapr_grpc_server_address: String,
    /// The application identifier of the task service.
    pub recon_tasks_service_name: String,
}

/// The method of the task service that answers with a task's details.
pub open spec fn recon_task_method(task_id: Seq<char>) -> Seq<char> {
    "/recon-task/"@ + task_id
}

impl ReconTasksDetailsRetriever {
    /// The method to invoke for the details of a task.
    pub fn recon_task_method_for(task_id: &String) -> (r: String)
        ensures
            r@ == recon_task_method(task_id@),
    {
        let mut method = String::from_str("/recon-task/");
        method.append(task_id.as_str());
        method
    }

    /// How a failed fetch is reported: a connection that could not be made as
    /// a connection error, a failed call as a task that was not found, and an
    /// answer that could not be read as an unmarshal error.
    pub fn error_for(failure: SidecarFailure) -> (r: AppError)
        ensures
            r.message@ == failure_message(failure),
            failure is Connect ==> r.kind == AppErrorKind::ConnectionError,
            failure is Call ==> r.kind == AppErrorKind::NotFound,
            failure is Unmarshal ==> r.kind == AppErrorKind::ResponseUnmarshalError,
    {
        let kind = match &failure {
            SidecarFailure::Connect { .. } => AppErrorKind::ConnectionError,
            SidecarFailure::Call { .. } => AppErrorKind::NotFound,
            SidecarFailure::Unmarshal { .. } => AppErrorKind::ResponseUnmarshalError,
        };
        AppError::new(kind, into_message(failure))
    }
}

/// Reaches the task service at a host, under its application identifier.
pub struct ReconTasksServiceConnector {
    /// Where the task service is reached.
    pub recon_tasks_service_host: String,
    /// The application identifier of the task service.
    pub recon_tasks_service_app_id: String,
}

impl ReconTasksServiceConnector {
    pub fn new(host: String, app_id: String) -> (r: ReconTasksServiceConnector)
        ensures
            r.recon_tasks_service_host == host,
            r.recon_tasks_service_app_id == app_id,
    {
        ReconTasksServiceConnector {
            recon_tasks_service_host: host,
            recon_tasks_service_app_id: app_id,
        }
    }
}

} // verus!
