//! The steps of an upload: validate the request, fetch its task's details,
//! transform it into a chunk, publish the chunk, answer the caller. The steps
//! that talk to other services are actions that the caller performs; each
//! decision in between is a function from what came back to the next action.

use vstd::prelude::*;

use crate::chunk::FileUploadChunk;
use crate::model::{
    AppError, AppErrorKind, AppErrorView, FileUploadChunkSource, ReconTaskResponseDetails,
    UploadFileChunkRequest, UploadFileChunkResponse,
};
use crate::transformer::{
    is_transform_of, transform_error, transform_succeeds, Transformer, TransformerInterface,
};

verus! {

/// The two delivery channels of chunks.
#[derive(PartialEq, Eq, Structural, Clone, Copy, Debug)]
pub enum PublishChannel {
    PrimaryFileQueue,
    ComparisonFileQueue,
}

/// What has to happen next in an upload.
pub enum UploadAction {
    /// Fetch the details of the task, then hand them to `on_recon_task_details`.
    FetchReconTaskDetails { task_id: String },
    /// Publish the chunk on the channel, then hand the outcome to `on_chunk_published`.
    PublishChunk { channel: PublishChannel, chunk: FileUploadChunk },
    /// Answer the caller with the result: the upload is over.
    Respond { result: Result<UploadFileChunkResponse, AppError> },
}

/// Whether a request passes the structural checks: it names a task, and its
/// sequence number is at least 1.
pub open spec fn request_is_valid(request: UploadFileChunkRequest) -> bool {
    request.upload_request_id@.len() > 0 && request.chunk_sequence_number >= 1
}

/// The violation reported for a request that names no task.
pub open spec fn missing_task_violation() -> Seq<char> {
    "upload_request_id: must not be empty"@
}

/// The violation reported for a sequence number below 1.
pub open spec fn sequence_number_violation() -> Seq<char> {
    "chunk_sequence_number: must be at least 1"@
}

/// Every violation of the request, joined by " , ".
pub open spec fn validation_message(request: UploadFileChunkRequest) -> Seq<char> {
    let missing_task = request.upload_request_id@.len() == 0;
    let bad_sequence = request.chunk_sequence_number < 1;
    if missing_task && bad_sequence {
        missing_task_violation() + " , "@ + sequence_number_violation()
    } else if missing_task {
        missing_task_violation()
    } else {
        sequence_number_violation()
    }
}

/// A publish outcome or an answer to the caller as a value.
pub open spec fn text_result_view(r: Result<String, AppError>) -> Result<Seq<char>, AppErrorView> {
    match r {
        Ok(s) => Ok(s@),
        Err(e) => Err(e@),
    }
}

/// An answer to the caller as a value: the identifier of the accepted chunk.
pub open spec fn response_view(r: Result<UploadFileChunkResponse, AppError>) -> Result<
    Seq<char>,
    AppErrorView,
> {
    match r {
        Ok(response) => Ok(response.file_chunk_id@),
        Err(e) => Err(e@),
    }
}

/// The answer after a chunk with identifier `chunk_id` was handed to
/// publishing: the chunk's own identifier when publishing succeeded, whatever
/// the publisher answered, and the publisher's failure unchanged otherwise.
pub open spec fn publish_response(
    chunk_id: Seq<char>,
    published: Result<Seq<char>, AppErrorView>,
) -> Result<Seq<char>, AppErrorView> {
    match published {
        Ok(_) => Ok(chunk_id),
        Err(e) => Err(e),
    }
}

/// The answer to an upload names the chunk that was published: whatever
/// identifier the publisher returns, a successful upload answers with the
/// identifier inside the published chunk.
pub proof fn lemma_response_names_published_chunk(
    action: UploadAction,
    publisher_answer: Seq<char>,
)
    requires
        action is PublishChunk,
    ensures
        publish_response(action->chunk@.id, Ok(publisher_answer)) == Ok::<
            Seq<char>,
            AppErrorView,
        >(action->chunk@.id),
{
}

/// The service that sequences the steps of an upload.
pub struct FileChunkUploadService {
    pub to_entity_transformer: Transformer,
}

impl FileChunkUploadService {
    /// Checks the structure of a request; a failure lists every violation and
    /// is the caller's fault.
    pub fn validate_upload_request(request: &UploadFileChunkRequest) -> (r: Result<(), AppError>)
        ensures
            r is Ok <==> request_is_valid(*request),
            r matches Err(e) ==> e@ == (AppErrorView {
                kind: AppErrorKind::BadClientRequest,
                message: validation_message(*request),
            }),
    {
        let missing_task = request.upload_request_id.as_str().is_empty();
        let bad_sequence = request.chunk_sequence_number < 1;
        if !missing_task && !bad_sequence {
            return Ok(());
        }
        let mut message = String::new();
        if missing_task {
            message.append("upload_request_id: must not be empty");
            if bad_sequence {
                message.append(" , ");
            }
        }
        if bad_sequence {
            message.append("chunk_sequence_number: must be at least 1");
        }
        proof {
            assert(message@ =~= validation_message(*request));
        }
        Err(AppError::new(AppErrorKind::BadClientRequest, message))
    }

    /// The first step of an upload: a request that fails validation is
    /// answered with that failure at once; any other leads to fetching the
    /// details of its task.
    pub fn start_upload(&self, request: &UploadFileChunkRequest) -> (r: UploadAction)
        ensures
            request_is_valid(*request) ==> (r matches UploadAction::FetchReconTaskDetails {
                task_id,
            } && task_id@ == request.upload_request_id@),
            !request_is_valid(*request) ==> (r matches UploadAction::Respond { result } && result
                matches Err(e) && e@ == (AppErrorView {
                kind: AppErrorKind::BadClientRequest,
                message: validation_message(*request),
            })),
    {
        match Self::validate_upload_request(request) {
            Ok(()) => UploadAction::FetchReconTaskDetails {
                task_id: request.upload_request_id.clone(),
            },
            Err(e) => UploadAction::Respond { result: Err(e) },
        }
    }

    /// The step after the task's details were fetched. A failed fetch is
    /// answered with its failure unchanged, and nothing is transformed or
    /// published. Otherwise the request is transformed; a failed transform is
    /// answered with its failure, and a chunk leads to publishing it on the
    /// channel of the file it comes from, and on no other.
    pub fn on_recon_task_details(
        &self,
        request: UploadFileChunkRequest,
        fetched: Result<ReconTaskResponseDetails, AppError>,
    ) -> (r: UploadAction)
        ensures
            fetched matches Err(e) ==> (r matches UploadAction::Respond { result } && result
                matches Err(e2) && e2 == e),
            fetched matches Ok(details) ==> {
                &&& r is PublishChunk <==> transform_succeeds(request, details)
                &&& r matches UploadAction::PublishChunk { channel, chunk } ==> {
                    &&& is_transform_of(request, details, Ok(chunk))
                    &&& (channel == PublishChannel::PrimaryFileQueue) <==> (request.chunk_source
                        == FileUploadChunkSource::PrimaryFileChunk)
                    &&& (channel == PublishChannel::ComparisonFileQueue) <==> (request.chunk_source
                        == FileUploadChunkSource::ComparisonFileChunk)
                }
                &&& !transform_succeeds(request, details) ==> (r matches UploadAction::Respond {
                    result,
                } && result matches Err(e) && e@ == transform_error(request, details))
            },
    {
        let details = match fetched {
            Err(e) => {
                return UploadAction::Respond { result: Err(e) };
            },
            Ok(details) => details,
        };
        let source = request.chunk_source;
        match self.to_entity_transformer.transform_into_file_upload_chunk(request, details) {
            Err(e) => UploadAction::Respond { result: Err(e) },
            Ok(chunk) => {
                let channel = match source {
                    FileUploadChunkSource::PrimaryFileChunk => PublishChannel::PrimaryFileQueue,
                    FileUploadChunkSource::ComparisonFileChunk => PublishChannel::ComparisonFileQueue,
                };
                UploadAction::PublishChunk { channel, chunk }
            },
        }
    }

    /// The last step: answers with the identifier of the published chunk, or
    /// with the publisher's failure unchanged.
    pub fn on_chunk_published(
        &self,
        chunk: &FileUploadChunk,
        published: Result<String, AppError>,
    ) -> (r: Result<UploadFileChunkResponse, AppError>)
        ensures
            response_view(r) == publish_response(chunk.id@, text_result_view(published)),
            published matches Err(e) ==> (r matches Err(e2) && e2 == e),
    {
        match published {
            Ok(_) => Ok(UploadFileChunkResponse { file_chunk_id: chunk.id.clone() }),
            Err(e) => Err(e),
        }
    }
}

} // verus!
