use chunk_upload::classifier::parse_colum_values_from_row;
use chunk_upload::model::{
    AppErrorKind, ComparisonPair, FileRow, FileUploadChunkSource, QueueInfo, ReconFileMetaData,
    ReconFileType, ReconStatus, ReconTaskDetails, ReconTaskResponseDetails,
    ReconciliationConfigs, UploadFileChunkRequest,
};
use chunk_upload::transformer::{Transformer, TransformerInterface, FILE_CHUNK_PREFIX};

fn setup() -> Transformer {
    Transformer {}
}

fn recon_configs() -> ReconciliationConfigs {
    ReconciliationConfigs {
        should_check_for_duplicate_records_in_comparison_file: true,
        should_reconciliation_be_case_sensitive: true,
        should_ignore_white_space: true,
        should_do_reverse_reconciliation: true,
    }
}

fn queue(topic: &str) -> QueueInfo {
    QueueInfo { topic_id: String::from(topic) }
}

fn file_metadata(id: &str, delimiters: Vec<&str>, file_type: ReconFileType) -> ReconFileMetaData {
    ReconFileMetaData {
        id: String::from(id),
        file_name: String::from(id),
        row_count: 1000,
        column_delimiters: delimiters.into_iter().map(String::from).collect(),
        recon_file_type: file_type,
        column_headers: vec![String::from("header1"), String::from("header2")],
        file_hash: String::from(id),
    }
}

fn pair(primary: usize, comparison: usize) -> ComparisonPair {
    ComparisonPair {
        primary_file_column_index: primary,
        comparison_file_column_index: comparison,
        is_row_identifier: true,
    }
}

fn get_dummy_upload_file_chunk_request() -> UploadFileChunkRequest {
    UploadFileChunkRequest {
        upload_request_id: String::from("TEST-UPLOAD-1"),
        chunk_sequence_number: 1,
        chunk_source: FileUploadChunkSource::ComparisonFileChunk,
        chunk_rows: vec![],
        is_last_chunk: false,
    }
}

fn get_dummy_recon_task_details() -> ReconTaskResponseDetails {
    details_with(vec![], vec![], vec![])
}

fn details_with(
    pairs: Vec<ComparisonPair>,
    primary_delimiters: Vec<&str>,
    comparison_delimiters: Vec<&str>,
) -> ReconTaskResponseDetails {
    ReconTaskResponseDetails {
        task_id: String::from("TEST-UPLOAD-1"),
        task_details: ReconTaskDetails {
            id: String::from("task-1234"),
            primary_file_id: String::from("src-file-1234"),
            comparison_file_id: String::from("cmp-file-1234"),
            is_done: false,
            has_begun: true,
            comparison_pairs: pairs,
            recon_config: recon_configs(),
            primary_file_chunks_queue_info: Some(queue("primary-chunks")),
            comparison_file_chunks_queue_info: Some(queue("comparison-chunks")),
            recon_results_queue_info: queue("results"),
        },
        primary_file_metadata: Some(file_metadata(
            "src-file-1234",
            primary_delimiters,
            ReconFileType::SourceReconFile,
        )),
        comparison_file_metadata: Some(file_metadata(
            "cmp-file-1234",
            comparison_delimiters,
            ReconFileType::ComparisonReconFile,
        )),
    }
}

fn request_with(source: FileUploadChunkSource, rows: Vec<(&str, u64)>) -> UploadFileChunkRequest {
    UploadFileChunkRequest {
        upload_request_id: String::from("TEST-UPLOAD-1"),
        chunk_sequence_number: 3,
        chunk_source: source,
        chunk_rows: rows
            .into_iter()
            .map(|(raw, n)| FileRow { raw_data: String::from(raw), row_number: n })
            .collect(),
        is_last_chunk: true,
    }
}

#[test]
fn test_transform_into_file_upload_chunk_returns_correct_model() {
    let to_entity_transformer = setup();

    let upload_file_chunk_request = get_dummy_upload_file_chunk_request();
    let recon_task_details = get_dummy_recon_task_details();

    let actual = to_entity_transformer
        .transform_into_file_upload_chunk(
            upload_file_chunk_request.clone(),
            recon_task_details.clone(),
        )
        .unwrap();

    assert_eq!(actual.chunk_sequence_number, upload_file_chunk_request.chunk_sequence_number);
}

#[test]
fn comparison_row_with_resolved_pair_stays_pending() {
    let request = request_with(FileUploadChunkSource::ComparisonFileChunk, vec![("a,1", 1)]);
    let details = details_with(vec![pair(3, 0)], vec![";"], vec![","]);
    let chunk = setup()
        .build_file_upload_chunk(request, details, String::from("FILE-CHUNK-x"), 42)
        .unwrap();
    assert_eq!(chunk.chunk_rows.len(), 1);
    let row = &chunk.chunk_rows[0];
    assert_eq!(row.parsed_columns_from_row, vec![String::from("a")]);
    assert_eq!(row.recon_result, ReconStatus::Pending);
    assert!(row.recon_result_reasons.is_empty());
    assert_eq!(row.raw_data, "a,1");
    assert_eq!(row.row_number, 1);
}

#[test]
fn comparison_row_with_index_past_tokens_fails() {
    let request = request_with(FileUploadChunkSource::ComparisonFileChunk, vec![("a,1", 1)]);
    let details = details_with(vec![pair(0, 5)], vec![","], vec![","]);
    let chunk = setup()
        .build_file_upload_chunk(request, details, String::from("FILE-CHUNK-x"), 42)
        .unwrap();
    let row = &chunk.chunk_rows[0];
    assert_eq!(row.recon_result, ReconStatus::Failed);
    assert!(row.parsed_columns_from_row.is_empty());
    assert_eq!(
        row.recon_result_reasons,
        vec![String::from("cant find a value in column 5 of comparison file for this row 1")]
    );
}

#[test]
fn missing_comparison_metadata_fails_transform() {
    let request = request_with(FileUploadChunkSource::ComparisonFileChunk, vec![("a,1", 1)]);
    let mut details = details_with(vec![pair(0, 0)], vec![","], vec![","]);
    details.comparison_file_metadata = None;
    let err = setup()
        .build_file_upload_chunk(request, details, String::from("FILE-CHUNK-x"), 42)
        .unwrap_err();
    assert_eq!(err.kind, AppErrorKind::InternalError);
    assert_eq!(err.message, "no file_metadata found for recon task [TEST-UPLOAD-1]");
    assert_eq!(err.kind.http_status_code(), 500);
}

#[test]
fn missing_primary_metadata_fails_primary_transform_only() {
    let mut details = details_with(vec![pair(0, 0)], vec![","], vec![","]);
    details.primary_file_metadata = None;
    let primary = request_with(FileUploadChunkSource::PrimaryFileChunk, vec![("a,1", 1)]);
    assert!(setup().transform_into_file_upload_chunk(primary, details.clone()).is_err());
    let comparison = request_with(FileUploadChunkSource::ComparisonFileChunk, vec![("a,1", 1)]);
    assert!(setup().transform_into_file_upload_chunk(comparison, details).is_ok());
}

#[test]
fn missing_queue_info_fails_transform() {
    let request = request_with(FileUploadChunkSource::PrimaryFileChunk, vec![]);
    let mut details = details_with(vec![], vec![","], vec![","]);
    details.task_details.comparison_file_chunks_queue_info = None;
    let err = setup()
        .build_file_upload_chunk(request.clone(), details, String::from("id"), 1)
        .unwrap_err();
    assert_eq!(err.kind, AppErrorKind::InternalError);
    assert_eq!(err.message, "no file chunks queue info found for recon task [TEST-UPLOAD-1]");

    let mut details = details_with(vec![], vec![","], vec![","]);
    details.task_details.primary_file_chunks_queue_info = None;
    assert!(setup().build_file_upload_chunk(request, details, String::from("id"), 1).is_err());
}

#[test]
fn empty_request_gives_empty_chunk() {
    for source in [FileUploadChunkSource::PrimaryFileChunk, FileUploadChunkSource::ComparisonFileChunk] {
        let request = request_with(source, vec![]);
        let details = details_with(vec![pair(0, 1)], vec![","], vec!["|"]);
        let chunk = setup().transform_into_file_upload_chunk(request, details).unwrap();
        assert!(chunk.chunk_rows.is_empty());
        assert_eq!(chunk.chunk_source, source);
    }
}

#[test]
fn built_chunk_copies_request_and_task_fields() {
    let request = request_with(
        FileUploadChunkSource::PrimaryFileChunk,
        vec![("x;y;z", 7), ("p;q", 8)],
    );
    let details = details_with(vec![pair(2, 0), pair(0, 0)], vec![";"], vec![","]);
    let chunk = setup()
        .build_file_upload_chunk(request, details, String::from("FILE-CHUNK-abc"), 1700000000)
        .unwrap();
    assert_eq!(chunk.id, "FILE-CHUNK-abc");
    assert_eq!(chunk.upload_request_id, "TEST-UPLOAD-1");
    assert_eq!(chunk.chunk_sequence_number, 3);
    assert_eq!(chunk.chunk_source, FileUploadChunkSource::PrimaryFileChunk);
    assert_eq!(chunk.date_created, 1700000000);
    assert_eq!(chunk.date_modified, 1700000000);
    assert_eq!(chunk.comparison_pairs, vec![pair(2, 0), pair(0, 0)]);
    assert_eq!(chunk.recon_config, recon_configs());
    assert_eq!(chunk.column_headers, vec![String::from("header1"), String::from("header2")]);
    assert_eq!(chunk.primary_file_chunks_queue, queue("primary-chunks"));
    assert_eq!(chunk.comparison_file_chunks_queue, queue("comparison-chunks"));
    assert_eq!(chunk.result_chunks_queue, queue("results"));
    assert!(chunk.is_last_chunk);
    assert_eq!(chunk.chunk_rows.len(), 2);
    assert_eq!(chunk.chunk_rows[0].parsed_columns_from_row, vec![String::from("z"), String::from("x")]);
    assert_eq!(chunk.chunk_rows[0].recon_result, ReconStatus::Pending);
    assert_eq!(chunk.chunk_rows[1].row_number, 8);
    assert_eq!(chunk.chunk_rows[1].parsed_columns_from_row, vec![String::from("p")]);
    assert_eq!(chunk.chunk_rows[1].recon_result, ReconStatus::Failed);
    assert_eq!(
        chunk.chunk_rows[1].recon_result_reasons,
        vec![String::from("cant find a value in column 2 of source file for this row 8")]
    );
}

#[test]
fn transformed_chunk_gets_fresh_prefixed_id() {
    let details = details_with(vec![], vec![","], vec![","]);
    let first = setup()
        .transform_into_file_upload_chunk(get_dummy_upload_file_chunk_request(), details.clone())
        .unwrap();
    let second = setup()
        .transform_into_file_upload_chunk(get_dummy_upload_file_chunk_request(), details)
        .unwrap();
    assert_eq!(first.id.len(), FILE_CHUNK_PREFIX.len() + 37);
    assert!(first.id.starts_with("FILE-CHUNK-"));
    assert_ne!(first.id, second.id);
    assert_eq!(first.date_created, first.date_modified);
    assert!(first.date_created > 1_600_000_000);
}

#[test]
fn generated_id_is_prefix_and_hyphenated_uuid() {
    let id = setup().generate_uuid("PRE");
    assert!(id.starts_with("PRE-"));
    let uuid = &id[4..];
    assert_eq!(uuid.len(), 36);
    for (i, c) in uuid.chars().enumerate() {
        if i == 8 || i == 13 || i == 18 || i == 23 {
            assert_eq!(c, '-');
        } else {
            assert!(c.is_ascii_digit() || ('a'..='f').contains(&c));
        }
    }
}

#[test]
fn column_headers_come_from_the_chunk_files_metadata() {
    let mut details = details_with(vec![], vec![","], vec![","]);
    details.comparison_file_metadata.as_mut().unwrap().column_headers = vec![String::from("c1")];
    let comparison = request_with(FileUploadChunkSource::ComparisonFileChunk, vec![]);
    assert_eq!(Transformer::get_column_headers(&comparison, &details), vec![String::from("c1")]);
    let primary = request_with(FileUploadChunkSource::PrimaryFileChunk, vec![]);
    assert_eq!(
        Transformer::get_column_headers(&primary, &details),
        vec![String::from("header1"), String::from("header2")]
    );
    assert!(Transformer::get_column_headers_from_metadata(&None).is_empty());
    details.primary_file_metadata = None;
    assert!(Transformer::get_column_headers(&primary, &details).is_empty());
}

#[test]
fn transform_into_chunk_rows_keeps_row_order() {
    let request = request_with(
        FileUploadChunkSource::ComparisonFileChunk,
        vec![("b|2", 2), ("a|1", 1), ("c", 3)],
    );
    let metadata = file_metadata("cmp", vec!["|"], ReconFileType::ComparisonReconFile);
    let rows = setup()
        .transform_into_chunk_rows(&request, &metadata, vec![pair(0, 1)])
        .unwrap();
    let numbers: Vec<u64> = rows.iter().map(|r| r.row_number).collect();
    assert_eq!(numbers, vec![2, 1, 3]);
    assert_eq!(rows[0].parsed_columns_from_row, vec![String::from("2")]);
    assert_eq!(rows[1].parsed_columns_from_row, vec![String::from("1")]);
    assert_eq!(rows[2].recon_result, ReconStatus::Failed);
}

#[test]
fn row_with_all_pairs_resolved_has_no_reasons() {
    let tokens = vec![String::from("a"), String::from("b"), String::from("c")];
    let row = parse_colum_values_from_row(
        FileUploadChunkSource::PrimaryFileChunk,
        tokens,
        String::from("a b c"),
        4,
        vec![pair(2, 9), pair(0, 9), pair(1, 9)],
    )
    .unwrap();
    assert_eq!(row.recon_result, ReconStatus::Pending);
    assert!(row.recon_result_reasons.is_empty());
    assert_eq!(
        row.parsed_columns_from_row,
        vec![String::from("c"), String::from("a"), String::from("b")]
    );
}

#[test]
fn row_gets_one_reason_per_unresolved_pair() {
    let tokens = vec![String::from("a"), String::from("b")];
    let row = parse_colum_values_from_row(
        FileUploadChunkSource::ComparisonFileChunk,
        tokens,
        String::from("a,b"),
        12,
        vec![pair(0, 2), pair(0, 1), pair(0, 30), pair(0, 0)],
    )
    .unwrap();
    assert_eq!(row.recon_result, ReconStatus::Failed);
    assert_eq!(
        row.recon_result_reasons,
        vec![
            String::from("cant find a value in column 2 of comparison file for this row 12"),
            String::from("cant find a value in column 30 of comparison file for this row 12"),
        ]
    );
    assert_eq!(row.parsed_columns_from_row, vec![String::from("b"), String::from("a")]);
}

#[test]
fn index_equal_to_token_count_is_out_of_bounds() {
    let tokens = vec![String::from("a"), String::from("b")];
    let row = parse_colum_values_from_row(
        FileUploadChunkSource::PrimaryFileChunk,
        tokens,
        String::from("a,b"),
        0,
        vec![pair(2, 0)],
    )
    .unwrap();
    assert_eq!(row.recon_result, ReconStatus::Failed);
    assert_eq!(
        row.recon_result_reasons,
        vec![String::from("cant find a value in column 2 of source file for this row 0")]
    );
}

#[test]
fn row_without_pairs_stays_pending() {
    let row = parse_colum_values_from_row(
        FileUploadChunkSource::PrimaryFileChunk,
        vec![],
        String::from(""),
        1,
        vec![],
    )
    .unwrap();
    assert_eq!(row.recon_result, ReconStatus::Pending);
    assert!(row.parsed_columns_from_row.is_empty());
    assert!(row.recon_result_reasons.is_empty());
}

#[test]
fn reason_renders_largest_row_number() {
    let row = parse_colum_values_from_row(
        FileUploadChunkSource::ComparisonFileChunk,
        vec![],
        String::from("x"),
        u64::MAX,
        vec![pair(0, usize::MAX)],
    )
    .unwrap();
    assert_eq!(
        row.recon_result_reasons,
        vec![format!(
            "cant find a value in column {} of comparison file for this row {}",
            usize::MAX,
            u64::MAX
        )]
    );
}
