//! Classifying a row: extracting the compared columns and recording why any
//! could not be extracted.

use vstd::prelude::*;

use crate::chunk::{FileUploadChunkRow, FileUploadChunkRowView};
use crate::model::{AppError, ComparisonPair, FileUploadChunkSource, ReconStatus};
use crate::text::{decimal, push_decimal};

verus! {

/// The column of a pair that belongs to the file a chunk comes from.
pub open spec fn column_index_for(source: FileUploadChunkSource, pair: ComparisonPair) -> usize {
    match source {
        FileUploadChunkSource::PrimaryFileChunk => pair.primary_file_column_index,
        FileUploadChunkSource::ComparisonFileChunk => pair.comparison_file_column_index,
    }
}

/// Whether a row with `n_tokens` tokens has the column that `pair` names.
pub open spec fn resolves(source: FileUploadChunkSource, pair: ComparisonPair, n_tokens: nat) -> bool {
    (column_index_for(source, pair) as nat) < n_tokens
}

/// How a file is named in a row's failure reasons.
pub open spec fn side_name(source: FileUploadChunkSource) -> Seq<char> {
    match source {
        FileUploadChunkSource::PrimaryFileChunk => "source file"@,
        FileUploadChunkSource::ComparisonFileChunk => "comparison file"@,
    }
}

/// The reason recorded when a row lacks the column at `index`.
pub open spec fn missing_column_reason(
    source: FileUploadChunkSource,
    index: nat,
    row_number: nat,
) -> Seq<char> {
    "cant find a value in column "@ + decimal(index) + " of "@ + side_name(source)
        + " for this row "@ + decimal(row_number)
}

/// The tokens that the resolved pairs select, in the order of the pairs.
pub open spec fn extracted_columns(
    source: FileUploadChunkSource,
    tokens: Seq<Seq<char>>,
    pairs: Seq<ComparisonPair>,
) -> Seq<Seq<char>>
    decreases pairs.len(),
{
    if pairs.len() == 0 {
        seq![]
    } else {
        let earlier = extracted_columns(source, tokens, pairs.drop_last());
        let k = column_index_for(source, pairs.last());
        if resolves(source, pairs.last(), tokens.len()) {
            earlier.push(tokens[k as int])
        } else {
            earlier
        }
    }
}

/// One reason for each pair that does not resolve, in the order of the pairs.
pub open spec fn failure_reasons(
    source: FileUploadChunkSource,
    n_tokens: nat,
    row_number: u64,
    pairs: Seq<ComparisonPair>,
) -> Seq<Seq<char>>
    decreases pairs.len(),
{
    if pairs.len() == 0 {
        seq![]
    } else {
        let earlier = failure_reasons(source, n_tokens, row_number, pairs.drop_last());
        let k = column_index_for(source, pairs.last());
        if resolves(source, pairs.last(), n_tokens) {
            earlier
        } else {
            earlier.push(missing_column_reason(source, k as nat, row_number as nat))
        }
    }
}

/// The classification of a row with the given tokens: still pending when
/// every pair resolves, failed otherwise.
pub open spec fn classified_row(
    source: FileUploadChunkSource,
    tokens: Seq<Seq<char>>,
    raw_data: Seq<char>,
    row_number: u64,
    pairs: Seq<ComparisonPair>,
) -> FileUploadChunkRowView {
    let reasons = failure_reasons(source, tokens.len(), row_number, pairs);
    FileUploadChunkRowView {
        raw_data,
        row_number,
        parsed_columns_from_row: extracted_columns(source, tokens, pairs),
        recon_result: if reasons.len() == 0 {
            ReconStatus::Pending
        } else {
            ReconStatus::Failed
        },
        recon_result_reasons: reasons,
    }
}

/// The number of pairs that a row with `n_tokens` tokens resolves.
pub open spec fn resolved_count(
    source: FileUploadChunkSource,
    n_tokens: nat,
    pairs: Seq<ComparisonPair>,
) -> nat
    decreases pairs.len(),
{
    if pairs.len() == 0 {
        0
    } else {
        resolved_count(source, n_tokens, pairs.drop_last()) + if resolves(
            source,
            pairs.last(),
            n_tokens,
        ) {
            1nat
        } else {
            0nat
        }
    }
}

proof fn lemma_resolved_count_bound(
    source: FileUploadChunkSource,
    n_tokens: nat,
    pairs: Seq<ComparisonPair>,
)
    ensures
        resolved_count(source, n_tokens, pairs) <= pairs.len(),
    decreases pairs.len(),
{
    if pairs.len() > 0 {
        lemma_resolved_count_bound(source, n_tokens, pairs.drop_last());
    }
}

proof fn lemma_extracted_len(
    source: FileUploadChunkSource,
    tokens: Seq<Seq<char>>,
    pairs: Seq<ComparisonPair>,
)
    ensures
        extracted_columns(source, tokens, pairs).len() == resolved_count(
            source,
            tokens.len(),
            pairs,
        ),
    decreases pairs.len(),
{
    if pairs.len() > 0 {
        lemma_extracted_len(source, tokens, pairs.drop_last());
    }
}

proof fn lemma_reasons_len(
    source: FileUploadChunkSource,
    n_tokens: nat,
    row_number: u64,
    pairs: Seq<ComparisonPair>,
)
    ensures
        failure_reasons(source, n_tokens, row_number, pairs).len() + resolved_count(
            source,
            n_tokens,
            pairs,
        ) == pairs.len(),
    decreases pairs.len(),
{
    if pairs.len() > 0 {
        lemma_reasons_len(source, n_tokens, row_number, pairs.drop_last());
    }
}

/// A row whose tokens outnumber the column index of every pair stays pending
/// and carries no reason.
pub proof fn lemma_all_pairs_resolved_keeps_row_pending(
    source: FileUploadChunkSource,
    tokens: Seq<Seq<char>>,
    raw_data: Seq<char>,
    row_number: u64,
    pairs: Seq<ComparisonPair>,
)
    requires
        forall|i: int| 0 <= i < pairs.len() ==> resolves(source, #[trigger] pairs[i], tokens.len()),
    ensures
        classified_row(source, tokens, raw_data, row_number, pairs).recon_result
            == ReconStatus::Pending,
        classified_row(source, tokens, raw_data, row_number, pairs).recon_result_reasons
            == Seq::<Seq<char>>::empty(),
{
    assert(resolved_count(source, tokens.len(), pairs) == pairs.len()) by {
        lemma_all_resolved_count(source, tokens.len(), pairs);
    }
    lemma_reasons_len(source, tokens.len(), row_number, pairs);
    assert(failure_reasons(source, tokens.len(), row_number, pairs) =~= Seq::<Seq<char>>::empty());
}

proof fn lemma_all_resolved_count(
    source: FileUploadChunkSource,
    n_tokens: nat,
    pairs: Seq<ComparisonPair>,
)
    requires
        forall|i: int| 0 <= i < pairs.len() ==> resolves(source, #[trigger] pairs[i], n_tokens),
    ensures
        resolved_count(source, n_tokens, pairs) == pairs.len(),
    decreases pairs.len(),
{
    if pairs.len() > 0 {
        let earlier = pairs.drop_last();
        assert forall|i: int| 0 <= i < earlier.len() implies resolves(
            source,
            #[trigger] earlier[i],
            n_tokens,
        ) by {
            assert(earlier[i] == pairs[i]);
        }
        lemma_all_resolved_count(source, n_tokens, earlier);
        assert(resolves(source, pairs[pairs.len() - 1], n_tokens));
    }
}

/// A row that lacks the column of some pair is failed, and carries exactly
/// one reason for each pair whose column it lacks: the reason for the pair at
/// `i` stands after those of the unresolved pairs before it.
pub proof fn lemma_unresolved_pair_fails_row(
    source: FileUploadChunkSource,
    tokens: Seq<Seq<char>>,
    raw_data: Seq<char>,
    row_number: u64,
    pairs: Seq<ComparisonPair>,
    i: int,
)
    requires
        0 <= i < pairs.len(),
        !resolves(source, pairs[i], tokens.len()),
    ensures
        ({
            let row = classified_row(source, tokens, raw_data, row_number, pairs);
            let before = pairs.take(i);
            &&& row.recon_result == ReconStatus::Failed
            &&& row.recon_result_reasons.len() == pairs.len() - resolved_count(
                source,
                tokens.len(),
                pairs,
            )
            &&& row.recon_result_reasons[i - resolved_count(source, tokens.len(), before)]
                == missing_column_reason(
                source,
                column_index_for(source, pairs[i]) as nat,
                row_number as nat,
            )
        }),
{
    lemma_reasons_len(source, tokens.len(), row_number, pairs);
    lemma_reason_at(source, tokens.len(), row_number, pairs, i);
}

proof fn lemma_reason_at(
    source: FileUploadChunkSource,
    n_tokens: nat,
    row_number: u64,
    pairs: Seq<ComparisonPair>,
    i: int,
)
    requires
        0 <= i < pairs.len(),
        !resolves(source, pairs[i], n_tokens),
    ensures
        ({
            let reasons = failure_reasons(source, n_tokens, row_number, pairs);
            let k = i - resolved_count(source, n_tokens, pairs.take(i));
            &&& 0 <= k < reasons.len()
            &&& reasons[k] == missing_column_reason(
                source,
                column_index_for(source, pairs[i]) as nat,
                row_number as nat,
            )
        }),
    decreases pairs.len(),
{
    let earlier = pairs.drop_last();
    lemma_reasons_len(source, n_tokens, row_number, earlier);
    lemma_resolved_count_bound(source, n_tokens, pairs.take(i));
    if i < pairs.len() - 1 {
        assert(earlier.take(i) =~= pairs.take(i));
        assert(earlier[i] == pairs[i]);
        lemma_reason_at(source, n_tokens, row_number, earlier, i);
    } else {
        assert(pairs.take(i) =~= earlier);
    }
}

/// Extraction keeps the order of the pairs: the token that a resolved pair at
/// `i` selects stands in the parsed columns right after those of the resolved
/// pairs before it, and the parsed columns hold nothing else.
pub proof fn lemma_extraction_keeps_pair_order(
    source: FileUploadChunkSource,
    tokens: Seq<Seq<char>>,
    raw_data: Seq<char>,
    row_number: u64,
    pairs: Seq<ComparisonPair>,
    i: int,
)
    requires
        0 <= i < pairs.len(),
        resolves(source, pairs[i], tokens.len()),
    ensures
        ({
            let row = classified_row(source, tokens, raw_data, row_number, pairs);
            let k = resolved_count(source, tokens.len(), pairs.take(i));
            &&& row.parsed_columns_from_row.len() == resolved_count(source, tokens.len(), pairs)
            &&& k < row.parsed_columns_from_row.len()
            &&& row.parsed_columns_from_row[k as int] == tokens[column_index_for(
                source,
                pairs[i],
            ) as int]
        }),
{
    lemma_extracted_len(source, tokens, pairs);
    lemma_extracted_at(source, tokens, pairs, i);
}

proof fn lemma_extracted_at(
    source: FileUploadChunkSource,
    tokens: Seq<Seq<char>>,
    pairs: Seq<ComparisonPair>,
    i: int,
)
    requires
        0 <= i < pairs.len(),
        resolves(source, pairs[i], tokens.len()),
    ensures
        ({
            let parsed = extracted_columns(source, tokens, pairs);
            let k = resolved_count(source, tokens.len(), pairs.take(i));
            &&& k < parsed.len()
            &&& parsed[k as int] == tokens[column_index_for(source, pairs[i]) as int]
        }),
    decreases pairs.len(),
{
    let earlier = pairs.drop_last();
    lemma_extracted_len(source, tokens, earlier);
    if i < pairs.len() - 1 {
        assert(earlier.take(i) =~= pairs.take(i));
        assert(earlier[i] == pairs[i]);
        lemma_extracted_at(source, tokens, earlier, i);
    } else {
        assert(pairs.take(i) =~= earlier);
    }
}

fn side_text(source: FileUploadChunkSource) -> (r: &'static str)
    ensures
        r@ == side_name(source),
{
    match source {
        FileUploadChunkSource::PrimaryFileChunk => "source file",
        FileUploadChunkSource::ComparisonFileChunk => "comparison file",
    }
}

fn missing_column_text(source: FileUploadChunkSource, index: usize, row_number: u64) -> (r: String)
    ensures
        r@ == missing_column_reason(source, index as nat, row_number as nat),
{
    let mut reason = String::from_str("cant find a value in column ");
    push_decimal(&mut reason, index as u64);
    reason.append(" of ");
    reason.append(side_text(source));
    reason.append(" for this row ");
    push_decimal(&mut reason, row_number);
    reason
}

/// Classifies one row from its tokens. Every pair is tried, whatever became of
/// the ones before it: a pair whose column the row has adds that column's
/// token to the parsed columns; one whose column lies at or past the number of
/// tokens marks the row failed and adds a reason naming the column, the file
/// and the row. The row never fails as a whole.
pub fn parse_colum_values_from_row(
    chunk_source: FileUploadChunkSource,
    upload_file_columns_in_row: Vec<String>,
    upload_file_row: String,
    row_index: u64,
    comparison_pairs: Vec<ComparisonPair>,
) -> (r: Result<FileUploadChunkRow, AppError>)
    ensures
        r is Ok,
        r matches Ok(row) && row@ == classified_row(
            chunk_source,
            upload_file_columns_in_row.deep_view(),
            upload_file_row@,
            row_index,
            comparison_pairs@,
        ),
{
    let ghost tokens = upload_file_columns_in_row.deep_view();
    let ghost pairs = comparison_pairs@;
    let mut parsed_chunk_row = FileUploadChunkRow {
        raw_data: upload_file_row,
        parsed_columns_from_row: Vec::new(),
        recon_result: ReconStatus::Pending,
        recon_result_reasons: Vec::new(),
        row_number: row_index,
    };
    assert(parsed_chunk_row.parsed_columns_from_row.deep_view() =~= seq![]);
    assert(parsed_chunk_row.recon_result_reasons.deep_view() =~= seq![]);
    assert(pairs.take(0) =~= seq![]);
    let mut i: usize = 0;
    while i < comparison_pairs.len()
        invariant
            i <= comparison_pairs.len(),
            pairs == comparison_pairs@,
            tokens == upload_file_columns_in_row.deep_view(),
            parsed_chunk_row@ == classified_row(
                chunk_source,
                tokens,
                upload_file_row@,
                row_index,
                pairs.take(i as int),
            ),
        decreases comparison_pairs.len() - i,
    {
        let comparison_pair = comparison_pairs[i];
        let column_index = match chunk_source {
            FileUploadChunkSource::ComparisonFileChunk => comparison_pair.comparison_file_column_index,
            FileUploadChunkSource::PrimaryFileChunk => comparison_pair.primary_file_column_index,
        };
        assert(pairs.take(i + 1).drop_last() =~= pairs.take(i as int));
        if column_index >= upload_file_columns_in_row.len() {
            let reason = missing_column_text(chunk_source, column_index, row_index);
            let ghost before = parsed_chunk_row.recon_result_reasons.deep_view();
            parsed_chunk_row.recon_result = ReconStatus::Failed;
            parsed_chunk_row.recon_result_reasons.push(reason);
            assert(parsed_chunk_row.recon_result_reasons.deep_view() =~= before.push(
                missing_column_reason(chunk_source, column_index as nat, row_index as nat),
            ));
        } else {
            let value = upload_file_columns_in_row[column_index].clone();
            let ghost before = parsed_chunk_row.parsed_columns_from_row.deep_view();
            parsed_chunk_row.parsed_columns_from_row.push(value);
            assert(parsed_chunk_row.parsed_columns_from_row.deep_view() =~= before.push(
                tokens[column_index as int],
            ));
        }
        i = i + 1;
    }
    assert(pairs.take(i as int) =~= pairs);
    Ok(parsed_chunk_row)
}

} // verus!
