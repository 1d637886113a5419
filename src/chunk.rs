//! The classified chunk that is handed to delivery, and its rows.

use vstd::prelude::*;

use crate::model::{
    ComparisonPair, FileUploadChunkSource, QueueInfo, ReconStatus, ReconciliationConfigs,
};

verus! {

/// A row of a chunk after column extraction.
#[derive(Clone, Debug, PartialEq, Eq)]
pub struct FileUploadChunkRow {
    pub raw_data: String,
    pub row_number: u64,
    pub parsed_columns_from_row: Vec<String>,
    pub recon_result: ReconStatus,
    pub recon_result_reasons: Vec<String>,
}

/// A `FileUploadChunkRow` as a value.
pub struct FileUploadChunkRowView {
    pub raw_data: Seq<char>,
    pub row_number: u64,
    pub parsed_columns_from_row: Seq<Seq<char>>,
    pub recon_result: ReconStatus,
    pub recon_result_reasons: Seq<Seq<char>>,
}

impl View for FileUploadChunkRow {
    type V = FileUploadChunkRowView;

    open spec fn view(&self) -> FileUploadChunkRowView {
        FileUploadChunkRowView {
            raw_data: self.raw_data@,
            row_number: self.row_number,
            parsed_columns_from_row: self.parsed_columns_from_row.deep_view(),
            recon_result: self.recon_result,
            recon_result_reasons: self.recon_result_reasons.deep_view(),
        }
    }
}

/// The rows of a chunk as values.
pub open spec fn rows_view(rows: Seq<FileUploadChunkRow>) -> Seq<FileUploadChunkRowView> {
    rows.map_values(|r: FileUploadChunkRow| r@)
}

/// A group of classified rows of one file, with what later stages need to
/// reconcile them.
#[derive(Clone, Debug, PartialEq, Eq)]
pub struct FileUploadChunk {
    pub id: String,
    pub upload_request_id: String,
    pub chunk_sequence_number: i64,
    pub chunk_source: FileUploadChunkSource,
    pub chunk_rows: Vec<FileUploadChunkRow>,
    pub date_created: i64,
    pub date_modified: i64,
    pub comparison_pairs: Vec<ComparisonPair>,
    pub recon_config: ReconciliationConfigs,
    pub column_headers: Vec<String>,
    pub primary_file_chunks_queue: QueueInfo,
    pub comparison_file_chunks_queue: QueueInfo,
    pub result_chunks_queue: QueueInfo,
    pub is_last_chunk: bool,
}

/// A `FileUploadChunk` as a value.
pub struct FileUploadChunkView {
    pub id: Seq<char>,
    pub upload_request_id: Seq<char>,
    pub chunk_sequence_number: i64,
    pub chunk_source: FileUploadChunkSource,
    pub chunk_rows: Seq<FileUploadChunkRowView>,
    pub date_created: i64,
    pub date_modified: i64,
    pub comparison_pairs: Seq<ComparisonPair>,
    pub recon_config: ReconciliationConfigs,
    pub column_headers: Seq<Seq<char>>,
    pub primary_file_chunks_queue: Seq<char>,
    pub comparison_file_chunks_queue: Seq<char>,
    pub result_chunks_queue: Seq<char>,
    pub is_last_chunk: bool,
}

impl View for FileUploadChunk {
    type V = FileUploadChunkView;

    open spec fn view(&self) -> FileUploadChunkView {
        FileUploadChunkView {
            id: self.id@,
            upload_request_id: self.upload_request_id@,
            chunk_sequence_number: self.chunk_sequence_number,
            chunk_source: self.chunk_source,
            chunk_rows: rows_view(self.chunk_rows@),
            date_created: self.date_created,
            date_modified: self.date_modified,
            comparison_pairs: self.comparison_pairs@,
            recon_config: self.recon_config,
            column_headers: self.column_headers.deep_view(),
            primary_file_chunks_queue: self.primary_file_chunks_queue@,
            comparison_file_chunks_queue: self.comparison_file_chunks_queue@,
            result_chunks_queue: self.result_chunks_queue@,
            is_last_chunk: self.is_last_chunk,
        }
    }
}

} // verus!
