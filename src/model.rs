//! The inputs of a chunk upload: the request, the reconciliation task's
//! details, and the library's error type.

use vstd::prelude::*;

verus! {

/// Which file of a two-file reconciliation a chunk comes from.
#[derive(PartialEq, Eq, Structural, Clone, Copy, Debug)]
pub enum FileUploadChunkSource {
    ComparisonFileChunk,
    PrimaryFileChunk,
}

/// The reconciliation state of one row.
#[derive(PartialEq, Eq, Structural, Clone, Copy, Debug)]
pub enum ReconStatus {
    Failed,
    Successful,
    Pending,
}

/// The role of a file in a reconciliation task.
#[derive(PartialEq, Eq, Structural, Clone, Copy, Debug)]
pub enum ReconFileType {
    SourceReconFile,
    ComparisonReconFile,
}

/// A column of the primary file paired with a column of the comparison file.
#[derive(PartialEq, Eq, Structural, Clone, Copy, Debug)]
pub struct ComparisonPair {
    pub primary_file_column_index: usize,
    pub comparison_file_column_index: usize,
    pub is_row_identifier: bool,
}

/// Flags that steer the later reconciliation stages.
#[derive(PartialEq, Eq, Structural, Clone, Copy, Debug)]
pub struct ReconciliationConfigs {
    pub should_check_for_duplicate_records_in_comparison_file: bool,
    pub should_reconciliation_be_case_sensitive: bool,
    pub should_ignore_white_space: bool,
    pub should_do_reverse_reconciliation: bool,
}

/// A delivery destination: the topic a chunk is published to.
#[derive(Clone, Debug, PartialEq, Eq)]
pub struct QueueInfo {
    pub topic_id: String,
}

impl View for QueueInfo {
    type V = Seq<char>;

    open spec fn view(&self) -> Seq<char> {
        self.topic_id@
    }
}

/// How the rows of one file of a task are laid out.
#[derive(Clone, Debug, PartialEq, Eq)]
pub struct ReconFileMetaData {
    pub id: String,
    pub file_name: String,
    pub row_count: u64,
    pub column_delimiters: Vec<String>,
    pub recon_file_type: ReconFileType,
    pub column_headers: Vec<String>,
    pub file_hash: String,
}

/// The task-level configuration of a reconciliation.
#[derive(Clone, Debug, PartialEq, Eq)]
pub struct ReconTaskDetails {
    pub id: String,
    pub primary_file_id: String,
    pub comparison_file_id: String,
    pub is_done: bool,
    pub has_begun: bool,
    pub comparison_pairs: Vec<ComparisonPair>,
    pub recon_config: ReconciliationConfigs,
    pub primary_file_chunks_queue_info: Option<QueueInfo>,
    pub comparison_file_chunks_queue_info: Option<QueueInfo>,
    pub recon_results_queue_info: QueueInfo,
}

/// A reconciliation task as the task service describes it.
#[derive(Clone, Debug, PartialEq, Eq)]
pub struct ReconTaskResponseDetails {
    pub task_id: String,
    pub task_details: ReconTaskDetails,
    pub primary_file_metadata: Option<ReconFileMetaData>,
    pub comparison_file_metadata: Option<ReconFileMetaData>,
}

/// One raw row of an uploaded file.
#[derive(Clone, Debug, PartialEq, Eq)]
pub struct FileRow {
    pub raw_data: String,
    pub row_number: u64,
}

/// A chunk of raw rows submitted by a caller.
#[derive(Clone, Debug, PartialEq, Eq)]
pub struct UploadFileChunkRequest {
    pub upload_request_id: String,
    pub chunk_sequence_number: i64,
    pub chunk_source: FileUploadChunkSource,
    pub chunk_rows: Vec<FileRow>,
    pub is_last_chunk: bool,
}

/// What a caller gets back for an accepted chunk.
#[derive(Clone, Debug, PartialEq, Eq)]
pub struct UploadFileChunkResponse {
    pub file_chunk_id: String,
}

/// The kinds of failure of an upload.
#[derive(PartialEq, Eq, Structural, Clone, Copy, Debug)]
pub enum AppErrorKind {
    BadClientRequest,
    NotFound,
    ConnectionError,
    ResponseUnmarshalError,
    InternalError,
}

/// A failure of an upload, with a human-readable message.
#[derive(Clone, Debug, PartialEq, Eq)]
pub struct AppError {
    pub kind: AppErrorKind,
    pub message: String,
}

/// An `AppError` as a value: its kind and the characters of its message.
pub struct AppErrorView {
    pub kind: AppErrorKind,
    pub message: Seq<char>,
}

impl View for AppError {
    type V = AppErrorView;

    open spec fn view(&self) -> AppErrorView {
        AppErrorView { kind: self.kind, message: self.message@ }
    }
}

impl AppError {
    pub fn new(kind: AppErrorKind, message: String) -> (r: AppError)
        ensures
            r.kind == kind,
            r.message == message,
    {
        AppError { kind, message }
    }
}

impl AppErrorKind {
    /// Whether the failure was caused by the caller's input.
    pub open spec fn spec_is_client_fault(self) -> bool {
        self is BadClientRequest
    }

    /// The HTTP status class a failure of this kind is reported with:
    /// 400 for faults of the caller's input, 500 for all others.
    pub fn http_status_code(&self) -> (r: u16)
        ensures
            self.spec_is_client_fault() ==> r == 400,
            !self.spec_is_client_fault() ==> r == 500,
    {
        match self {
            AppErrorKind::BadClientRequest => 400,
            _ => 500,
        }
    }
}

} // verus!
