//! Splitting a raw row into column tokens.

use vstd::prelude::*;
use vstd::string::*;

use crate::model::ReconFileMetaData;
use crate::text::chars_of;

verus! {

/// The pieces of `s` that a left-to-right scan for `d` produces, where the
/// piece being built began at `start` and the scan stands at `i`. Each
/// occurrence of `d` found by the scan closes the piece; the scan then goes on
/// after it, so occurrences never overlap. An empty `d` never matches.
pub open spec fn pieces_from(s: Seq<char>, d: Seq<char>, start: int, i: int) -> Seq<Seq<char>>
    decreases s.len() - i,
{
    if d.len() == 0 || i < 0 || i + d.len() > s.len() {
        seq![s.subrange(start, s.len() as int)]
    } else if s.subrange(i, i + d.len()) == d {
        seq![s.subrange(start, i)] + pieces_from(s, d, i + d.len(), i + d.len())
    } else {
        pieces_from(s, d, start, i + 1)
    }
}

/// `s` cut at every occurrence of `d`, leftmost first: the text before the
/// first occurrence, the text between each two, and the text after the last.
/// Where `d` is empty or does not occur, `s` stays whole.
pub open spec fn split_on(s: Seq<char>, d: Seq<char>) -> Seq<Seq<char>> {
    pieces_from(s, d, 0, 0)
}

/// The tokens of a row: the row split on each delimiter in turn, each split
/// made on the whole row, and the pieces of all splits laid end to end in the
/// order of the delimiters.
pub open spec fn columns_of(row: Seq<char>, delimiters: Seq<Seq<char>>) -> Seq<Seq<char>>
    decreases delimiters.len(),
{
    if delimiters.len() == 0 {
        seq![]
    } else {
        columns_of(row, delimiters.drop_last()) + split_on(row, delimiters.last())
    }
}

/// Whether `d` occurs in `s` at position `i`.
fn occurs_at(s: &Vec<char>, d: &Vec<char>, i: usize) -> (r: bool)
    requires
        i + d.len() <= s.len(),
    ensures
        r == (s@.subrange(i as int, i + d.len()) == d@),
{
    let mut j: usize = 0;
    while j < d.len()
        invariant
            i + d.len() <= s.len(),
            j <= d.len(),
            forall|k: int| 0 <= k < j ==> s@[i + k] == d@[k],
        decreases d.len() - j,
    {
        if s[i + j] != d[j] {
            assert(s@.subrange(i as int, i + d.len())[j as int] != d@[j as int]);
            return false;
        }
        j = j + 1;
    }
    assert(s@.subrange(i as int, i + d.len()) =~= d@);
    true
}

/// Splits `row` at every occurrence of `delimiter`.
pub fn split_row_on(row: &str, delimiter: &str) -> (r: Vec<String>)
    ensures
        r.deep_view() == split_on(row@, delimiter@),
{
    let rc = chars_of(row);
    let dc = chars_of(delimiter);
    let n = rc.len();
    let dl = dc.len();
    let mut pieces: Vec<String> = Vec::new();
    if dl == 0 {
        pieces.push(row.to_owned());
        assert(row@.subrange(0, row@.len() as int) =~= row@);
        assert(pieces.deep_view() =~= split_on(row@, delimiter@));
        return pieces;
    }
    let mut start: usize = 0;
    let mut i: usize = 0;
    assert(pieces.deep_view() + pieces_from(row@, delimiter@, 0, 0) =~= split_on(
        row@,
        delimiter@,
    ));
    while dl <= n - i
        invariant
            rc@ == row@,
            dc@ == delimiter@,
            n == rc.len(),
            dl == dc.len(),
            dl > 0,
            start <= i <= n,
            pieces.deep_view() + pieces_from(row@, delimiter@, start as int, i as int) == split_on(
                row@,
                delimiter@,
            ),
        decreases n - i,
    {
        if occurs_at(&rc, &dc, i) {
            let piece = row.substring_char(start, i).to_owned();
            let ghost before = pieces.deep_view();
            pieces.push(piece);
            assert(pieces.deep_view() =~= before.push(row@.subrange(start as int, i as int)));
            let ghost rest = pieces_from(row@, delimiter@, (i + dl) as int, (i + dl) as int);
            assert(before + (seq![row@.subrange(start as int, i as int)] + rest) =~= pieces.deep_view()
                + rest);
            i = i + dl;
            start = i;
        } else {
            i = i + 1;
        }
    }
    let ghost before = pieces.deep_view();
    pieces.push(row.substring_char(start, n).to_owned());
    assert(pieces.deep_view() =~= before + pieces_from(row@, delimiter@, start as int, i as int));
    pieces
}

/// Splits a raw row into column tokens with the delimiters of its file.
/// No token is trimmed: each keeps its characters exactly as in the row.
/// Without delimiters a row has no tokens.
pub fn break_up_file_row_using_delimiters(
    recon_file_meta_data: &ReconFileMetaData,
    upload_file_row: &String,
) -> (r: Vec<String>)
    ensures
        r.deep_view() == columns_of(
            upload_file_row@,
            recon_file_meta_data.column_delimiters.deep_view(),
        ),
{
    let delimiters = &recon_file_meta_data.column_delimiters;
    let mut upload_file_columns_in_row: Vec<String> = Vec::new();
    let mut k: usize = 0;
    while k < delimiters.len()
        invariant
            k <= delimiters.len(),
            upload_file_columns_in_row.deep_view() == columns_of(
                upload_file_row@,
                delimiters.deep_view().take(k as int),
            ),
        decreases delimiters.len() - k,
    {
        let mut row_parts = split_row_on(upload_file_row.as_str(), delimiters[k].as_str());
        let ghost before = upload_file_columns_in_row.deep_view();
        let ghost parts = row_parts.deep_view();
        upload_file_columns_in_row.append(&mut row_parts);
        assert(upload_file_columns_in_row.deep_view() =~= before + parts);
        assert(delimiters.deep_view().take(k + 1).drop_last() =~= delimiters.deep_view().take(
            k as int,
        ));
        k = k + 1;
    }
    assert(delimiters.deep_view().take(k as int) =~= delimiters.deep_view());
    upload_file_columns_in_row
}

} // verus!
