//! Turning an upload request and its task's details into a classified chunk.

use vstd::prelude::*;

use crate::chunk::{rows_view, FileUploadChunk, FileUploadChunkRow, FileUploadChunkRowView, FileUploadChunkView};
use crate::classifier::{classified_row, parse_colum_values_from_row};
use crate::model::{
    AppError, AppErrorKind, AppErrorView, ComparisonPair, FileRow, FileUploadChunkSource,
    QueueInfo, ReconFileMetaData, ReconTaskResponseDetails, UploadFileChunkRequest,
};
use crate::splitter::{break_up_file_row_using_delimiters, columns_of};

verus! {

/// What every chunk identifier starts with.
pub const FILE_CHUNK_PREFIX: &'static str = "FILE-CHUNK";

/// Whether `c` is a lower-case hexadecimal digit.
pub open spec fn is_lower_hex_digit(c: char) -> bool {
    ('0' <= c && c <= '9') || ('a' <= c && c <= 'f')
}

/// Whether `s` is a UUID in hyphenated form: 36 characters, hyphens at
/// positions 8, 13, 18 and 23, lower-case hexadecimal digits elsewhere.
pub open spec fn is_hyphenated_uuid(s: Seq<char>) -> bool {
    &&& s.len() == 36
    &&& forall|i: int|
        0 <= i < 36 ==> if i == 8 || i == 13 || i == 18 || i == 23 {
            s[i] == '-'
        } else {
            is_lower_hex_digit(#[trigger] s[i])
        }
}

/// Whether `id` is `prefix`, a hyphen, and a hyphenated UUID.
pub open spec fn is_prefixed_uuid(prefix: Seq<char>, id: Seq<char>) -> bool {
    &&& id.len() == prefix.len() + 37
    &&& id.subrange(0, prefix.len() as int) == prefix
    &&& id[prefix.len() as int] == '-'
    &&& is_hyphenated_uuid(id.subrange(prefix.len() + 1int, id.len() as int))
}

/// Relies on `uuid::Uuid::new_v4` for a random version-4 UUID, and on the
/// `Display` of `uuid::Uuid`, which writes its lower-case hyphenated form.
/// `new_v4` panics when the operating system yields no random bytes.
#[verifier::external_body]
fn new_v4_uuid_text() -> (r: String)
    ensures
        is_hyphenated_uuid(r@),
{
    uuid::Uuid::new_v4().to_string()
}

/// Relies on `chrono::Utc::now` and `chrono::DateTime::timestamp`: the current
/// time in whole seconds since the Unix epoch. Nothing is promised of the
/// value; `now` panics when the system clock stands before the epoch.
#[verifier::external_body]
fn now_timestamp() -> (r: i64) {
    chrono::Utc::now().timestamp()
}

/// The metadata of the file that a request's chunk comes from.
pub open spec fn file_metadata_for(
    request: UploadFileChunkRequest,
    details: ReconTaskResponseDetails,
) -> Option<ReconFileMetaData> {
    match request.chunk_source {
        FileUploadChunkSource::ComparisonFileChunk => details.comparison_file_metadata,
        FileUploadChunkSource::PrimaryFileChunk => details.primary_file_metadata,
    }
}

/// Whether the details hold what a chunk of the request needs: the metadata
/// of its file, and the delivery destinations of both files.
pub open spec fn transform_succeeds(
    request: UploadFileChunkRequest,
    details: ReconTaskResponseDetails,
) -> bool {
    &&& file_metadata_for(request, details) is Some
    &&& details.task_details.primary_file_chunks_queue_info is Some
    &&& details.task_details.comparison_file_chunks_queue_info is Some
}

/// The message of the failure for a task without metadata for the chunk's file.
pub open spec fn missing_metadata_message(task_id: Seq<char>) -> Seq<char> {
    "no file_metadata found for recon task ["@ + task_id + "]"@
}

/// The message of the failure for a task without a file's delivery destination.
pub open spec fn missing_queue_message(task_id: Seq<char>) -> Seq<char> {
    "no file chunks queue info found for recon task ["@ + task_id + "]"@
}

/// The failure of a transform whose details lack what the chunk needs.
pub open spec fn transform_error(
    request: UploadFileChunkRequest,
    details: ReconTaskResponseDetails,
) -> AppErrorView {
    if file_metadata_for(request, details) is None {
        AppErrorView {
            kind: AppErrorKind::InternalError,
            message: missing_metadata_message(request.upload_request_id@),
        }
    } else {
        AppErrorView {
            kind: AppErrorKind::InternalError,
            message: missing_queue_message(request.upload_request_id@),
        }
    }
}

/// The classification of one raw row of a file with the given delimiters.
pub open spec fn classify_file_row(
    source: FileUploadChunkSource,
    delimiters: Seq<Seq<char>>,
    pairs: Seq<ComparisonPair>,
    row: FileRow,
) -> FileUploadChunkRowView {
    classified_row(
        source,
        columns_of(row.raw_data@, delimiters),
        row.raw_data@,
        row.row_number,
        pairs,
    )
}

/// The classification of each raw row, in the order of the rows.
pub open spec fn classify_file_rows(
    source: FileUploadChunkSource,
    delimiters: Seq<Seq<char>>,
    pairs: Seq<ComparisonPair>,
    rows: Seq<FileRow>,
) -> Seq<FileUploadChunkRowView> {
    rows.map_values(|row: FileRow| classify_file_row(source, delimiters, pairs, row))
}

/// The chunk made of a request and its task's details, given its identifier
/// and the time it is made at.
pub open spec fn expected_chunk(
    request: UploadFileChunkRequest,
    details: ReconTaskResponseDetails,
    id: Seq<char>,
    now: i64,
) -> FileUploadChunkView {
    let metadata = file_metadata_for(request, details)->0;
    let task = details.task_details;
    FileUploadChunkView {
        id,
        upload_request_id: request.upload_request_id@,
        chunk_sequence_number: request.chunk_sequence_number,
        chunk_source: request.chunk_source,
        chunk_rows: classify_file_rows(
            request.chunk_source,
            metadata.column_delimiters.deep_view(),
            task.comparison_pairs@,
            request.chunk_rows@,
        ),
        date_created: now,
        date_modified: now,
        comparison_pairs: task.comparison_pairs@,
        recon_config: task.recon_config,
        column_headers: metadata.column_headers.deep_view(),
        primary_file_chunks_queue: task.primary_file_chunks_queue_info->0@,
        comparison_file_chunks_queue: task.comparison_file_chunks_queue_info->0@,
        result_chunks_queue: task.recon_results_queue_info@,
        is_last_chunk: request.is_last_chunk,
    }
}

/// What transforming a request with its task's details gives, for a given
/// identifier and time.
pub open spec fn transform_outcome(
    request: UploadFileChunkRequest,
    details: ReconTaskResponseDetails,
    id: Seq<char>,
    now: i64,
) -> Result<FileUploadChunkView, AppErrorView> {
    if transform_succeeds(request, details) {
        Ok(expected_chunk(request, details, id, now))
    } else {
        Err(transform_error(request, details))
    }
}

/// A request without rows gives a chunk without rows, and no failure, wherever
/// the task's details hold what its chunk needs.
pub proof fn lemma_empty_request_gives_empty_chunk(
    request: UploadFileChunkRequest,
    details: ReconTaskResponseDetails,
    id: Seq<char>,
    now: i64,
)
    requires
        request.chunk_rows@.len() == 0,
        transform_succeeds(request, details),
    ensures
        transform_outcome(request, details, id, now) matches Ok(chunk) && chunk.chunk_rows
            == Seq::<FileUploadChunkRowView>::empty(),
{
    let metadata = file_metadata_for(request, details)->0;
    assert(classify_file_rows(
        request.chunk_source,
        metadata.column_delimiters.deep_view(),
        details.task_details.comparison_pairs@,
        request.chunk_rows@,
    ) =~= Seq::<FileUploadChunkRowView>::empty());
}

/// A transform's result as a value.
pub open spec fn chunk_result_view(r: Result<FileUploadChunk, AppError>) -> Result<
    FileUploadChunkView,
    AppErrorView,
> {
    match r {
        Ok(chunk) => Ok(chunk@),
        Err(e) => Err(e@),
    }
}

/// Whether `r` is what transforming the request with its task's details
/// gives, with a fresh chunk identifier and the time of the call.
pub open spec fn is_transform_of(
    request: UploadFileChunkRequest,
    details: ReconTaskResponseDetails,
    r: Result<FileUploadChunk, AppError>,
) -> bool {
    match r {
        Ok(chunk) => {
            &&& is_prefixed_uuid(FILE_CHUNK_PREFIX@, chunk.id@)
            &&& chunk_result_view(r) == transform_outcome(
                request,
                details,
                chunk.id@,
                chunk.date_created,
            )
        },
        Err(e) => chunk_result_view(r) == transform_outcome(request, details, Seq::empty(), 0),
    }
}

/// Turns an upload request into the chunk that is delivered downstream.
pub trait TransformerInterface {
    /// Fails when the task's details lack the metadata of the chunk's file or
    /// a file's delivery destination; otherwise gives the classified chunk,
    /// with a fresh identifier and the current time.
    fn transform_into_file_upload_chunk(
        &self,
        upload_file_chunk_request: UploadFileChunkRequest,
        recon_task_details: ReconTaskResponseDetails,
    ) -> (r: Result<FileUploadChunk, AppError>)
        ensures
            is_transform_of(upload_file_chunk_request, recon_task_details, r),
    ;
}

/// The transformer of upload requests into chunks.
pub struct Transformer {}

impl TransformerInterface for Transformer {
    fn transform_into_file_upload_chunk(
        &self,
        upload_file_chunk_request: UploadFileChunkRequest,
        recon_task_details: ReconTaskResponseDetails,
    ) -> (r: Result<FileUploadChunk, AppError>) {
        let id = self.generate_uuid(FILE_CHUNK_PREFIX);
        let now = now_timestamp();
        self.build_file_upload_chunk(upload_file_chunk_request, recon_task_details, id, now)
    }
}

impl Transformer {
    /// Makes the chunk of a request with the given identifier and time:
    /// fails when the task's details lack the metadata of the chunk's file,
    /// before any row is looked at, or lack a file's delivery destination.
    pub fn build_file_upload_chunk(
        &self,
        upload_file_chunk_request: UploadFileChunkRequest,
        recon_task_details: ReconTaskResponseDetails,
        chunk_id: String,
        now: i64,
    ) -> (r: Result<FileUploadChunk, AppError>)
        ensures
            chunk_result_view(r) == transform_outcome(
                upload_file_chunk_request,
                recon_task_details,
                chunk_id@,
                now,
            ),
    {
        let request = upload_file_chunk_request;
        let details = recon_task_details;
        let optional_file_metadata = match request.chunk_source {
            FileUploadChunkSource::ComparisonFileChunk => &details.comparison_file_metadata,
            FileUploadChunkSource::PrimaryFileChunk => &details.primary_file_metadata,
        };
        let file_metadata = match optional_file_metadata {
            None => {
                let message = task_message(
                    "no file_metadata found for recon task [",
                    &request.upload_request_id,
                );
                return Err(AppError::new(AppErrorKind::InternalError, message));
            },
            Some(metadata) => metadata,
        };
        let primary_topic = match &details.task_details.primary_file_chunks_queue_info {
            None => {
                let message = task_message(
                    "no file chunks queue info found for recon task [",
                    &request.upload_request_id,
                );
                return Err(AppError::new(AppErrorKind::InternalError, message));
            },
            Some(queue) => queue.topic_id.clone(),
        };
        let comparison_topic = match &details.task_details.comparison_file_chunks_queue_info {
            None => {
                let message = task_message(
                    "no file chunks queue info found for recon task [",
                    &request.upload_request_id,
                );
                return Err(AppError::new(AppErrorKind::InternalError, message));
            },
            Some(queue) => queue.topic_id.clone(),
        };
        let chunk_rows = match self.transform_into_chunk_rows(
            &request,
            file_metadata,
            details.task_details.comparison_pairs.clone(),
        ) {
            Ok(rows) => rows,
            Err(e) => {
                return Err(e);
            },
        };
        let column_headers = Self::get_column_headers(&request, &details);
        let chunk = FileUploadChunk {
            id: chunk_id,
            upload_request_id: request.upload_request_id,
            chunk_sequence_number: request.chunk_sequence_number,
            chunk_source: request.chunk_source,
            chunk_rows,
            date_created: now,
            date_modified: now,
            comparison_pairs: details.task_details.comparison_pairs,
            recon_config: details.task_details.recon_config,
            column_headers,
            primary_file_chunks_queue: QueueInfo { topic_id: primary_topic },
            comparison_file_chunks_queue: QueueInfo { topic_id: comparison_topic },
            result_chunks_queue: details.task_details.recon_results_queue_info,
            is_last_chunk: request.is_last_chunk,
        };
        Ok(chunk)
    }

    /// Classifies each row of the request with the delimiters of its file, in
    /// the order of the rows.
    pub fn transform_into_chunk_rows(
        &self,
        upload_file_chunk_request: &UploadFileChunkRequest,
        recon_file_meta_data: &ReconFileMetaData,
        comparison_pairs: Vec<ComparisonPair>,
    ) -> (r: Result<Vec<FileUploadChunkRow>, AppError>)
        ensures
            r is Ok,
            r matches Ok(rows) && rows_view(rows@) == classify_file_rows(
                upload_file_chunk_request.chunk_source,
                recon_file_meta_data.column_delimiters.deep_view(),
                comparison_pairs@,
                upload_file_chunk_request.chunk_rows@,
            ),
    {
        let rows = &upload_file_chunk_request.chunk_rows;
        let source = upload_file_chunk_request.chunk_source;
        let ghost delimiters = recon_file_meta_data.column_delimiters.deep_view();
        let mut parsed_chunk_rows: Vec<FileUploadChunkRow> = Vec::new();
        let mut i: usize = 0;
        while i < rows.len()
            invariant
                i <= rows.len(),
                rows == upload_file_chunk_request.chunk_rows,
                source == upload_file_chunk_request.chunk_source,
                delimiters == recon_file_meta_data.column_delimiters.deep_view(),
                rows_view(parsed_chunk_rows@) == classify_file_rows(
                    source,
                    delimiters,
                    comparison_pairs@,
                    rows@.take(i as int),
                ),
            decreases rows.len() - i,
        {
            let row = &rows[i];
            let columns = break_up_file_row_using_delimiters(recon_file_meta_data, &row.raw_data);
            let pairs = comparison_pairs.clone();
            assert(pairs@ =~= comparison_pairs@);
            let parsed = parse_colum_values_from_row(
                source,
                columns,
                row.raw_data.clone(),
                row.row_number,
                pairs,
            );
            let parsed_chunk_row = match parsed {
                Ok(parsed_row) => parsed_row,
                Err(e) => {
                    return Err(e);
                },
            };
            assert(parsed_chunk_row@ == classify_file_row(source, delimiters, comparison_pairs@, rows@[i as int]));
            let ghost before = rows_view(parsed_chunk_rows@);
            parsed_chunk_rows.push(parsed_chunk_row);
            assert(rows_view(parsed_chunk_rows@) =~= before.push(parsed_chunk_row@));
            assert(rows@.take(i + 1) =~= rows@.take(i as int).push(rows@[i as int]));
            assert(rows_view(parsed_chunk_rows@) =~= classify_file_rows(
                source,
                delimiters,
                comparison_pairs@,
                rows@.take(i + 1),
            ));
            i = i + 1;
        }
        assert(rows@.take(i as int) =~= rows@);
        Ok(parsed_chunk_rows)
    }

    /// A fresh identifier: `prefix`, a hyphen, and a random UUID.
    pub fn generate_uuid(&self, prefix: &str) -> (r: String)
        ensures
            is_prefixed_uuid(prefix@, r@),
    {
        let id = new_v4_uuid_text();
        let mut full_id = String::from_str(prefix);
        full_id.append("-");
        full_id.append(id.as_str());
        proof {
            reveal_strlit("-");
            let p = prefix@.len() as int;
            assert(full_id@.subrange(0, p) =~= prefix@);
            assert(full_id@.subrange(p + 1, full_id@.len() as int) =~= id@);
        }
        full_id
    }

    /// The column headers of the file that the request's chunk comes from;
    /// none where the task has no metadata for that file.
    pub fn get_column_headers(
        upload_file_chunk_request: &UploadFileChunkRequest,
        recon_task_details: &ReconTaskResponseDetails,
    ) -> (r: Vec<String>)
        ensures
            file_metadata_for(*upload_file_chunk_request, *recon_task_details) matches Some(m)
                ==> r.deep_view() == m.column_headers.deep_view(),
            file_metadata_for(*upload_file_chunk_request, *recon_task_details) is None
                ==> r.deep_view() == Seq::<Seq<char>>::empty(),
    {
        match upload_file_chunk_request.chunk_source {
            FileUploadChunkSource::ComparisonFileChunk => {
                Self::get_column_headers_from_metadata(&recon_task_details.comparison_file_metadata)
            },
            FileUploadChunkSource::PrimaryFileChunk => {
                Self::get_column_headers_from_metadata(&recon_task_details.primary_file_metadata)
            },
        }
    }

    /// The column headers of a file's metadata; none where there is no metadata.
    pub fn get_column_headers_from_metadata(file_metadata: &Option<ReconFileMetaData>) -> (r: Vec<
        String,
    >)
        ensures
            file_metadata matches Some(m) ==> r.deep_view() == m.column_headers.deep_view(),
            file_metadata is None ==> r.deep_view() == Seq::<Seq<char>>::empty(),
    {
        match file_metadata {
            None => {
                let r: Vec<String> = Vec::new();
                assert(r.deep_view() =~= Seq::<Seq<char>>::empty());
                r
            },
            Some(metadata) => metadata.column_headers.clone(),
        }
    }
}

/// `text`, the task's identifier, and a closing bracket.
fn task_message(text: &str, task_id: &String) -> (r: String)
    ensures
        r@ == text@ + task_id@ + "]"@,
{
    let mut message = String::from_str(text);
    message.append(task_id.as_str());
    message.append("]");
    message
}

} // verus!
