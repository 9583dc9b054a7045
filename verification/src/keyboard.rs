//! The layout of the choices offered with a prompt: rows of buttons, each
//! button labelled with one choice.

use crate::formats::{from_filetype_tags, from_filetypes, texts, to_filetype_tags, to_filetypes};
use vstd::prelude::*;

verus! {

/// How many buttons go in one row.
pub const BUTTONS_PER_ROW: usize = 3;

/// The labels cut into rows of `per_row`, in order; only the last row may
/// be shorter. No labels give no rows.
pub open spec fn keyboard_rows(labels: Seq<Seq<char>>, per_row: nat) -> Seq<Seq<Seq<char>>>
    decreases labels.len(),
{
    if labels.len() == 0 || per_row == 0 {
        Seq::empty()
    } else if labels.len() <= per_row {
        seq![labels]
    } else {
        seq![labels.take(per_row as int)] + keyboard_rows(labels.skip(per_row as int), per_row)
    }
}

/// The texts of rows of strings.
pub open spec fn row_texts(rows: Seq<Vec<String>>) -> Seq<Seq<Seq<char>>> {
    rows.map_values(|row: Vec<String>| texts(row@))
}

/// The rows that come after a first full row are those of the remaining
/// labels.
proof fn lemma_rows_after_first(labels: Seq<Seq<char>>, per_row: nat, start: int, end: int)
    requires
        per_row > 0,
        0 <= start < labels.len(),
        end == if labels.len() - start <= per_row {
            labels.len() as int
        } else {
            start + per_row
        },
    ensures
        keyboard_rows(labels.skip(start), per_row) == seq![labels.subrange(start, end)]
            + keyboard_rows(labels.skip(end), per_row),
{
    let rest = labels.skip(start);
    if rest.len() <= per_row {
        assert(rest =~= labels.subrange(start, end));
        assert(labels.skip(end).len() == 0);
        assert(keyboard_rows(rest, per_row) =~= seq![labels.subrange(start, end)] + Seq::empty());
    } else {
        assert(rest.take(per_row as int) =~= labels.subrange(start, end));
        assert(rest.skip(per_row as int) =~= labels.skip(end));
    }
}

/// Lays labels out in rows of `num_per_row` buttons.
pub fn make_keyboard(contents: &[String], num_per_row: usize) -> (rows: Vec<Vec<String>>)
    requires
        num_per_row > 0,
    ensures
        row_texts(rows@) == keyboard_rows(texts(contents@), num_per_row as nat),
{
    let ghost labels = texts(contents@);
    let ghost per_row = num_per_row as nat;
    let mut rows: Vec<Vec<String>> = Vec::new();
    let mut start: usize = 0;
    proof {
        assert(labels.skip(0) =~= labels);
        assert(row_texts(rows@) =~= Seq::empty());
        assert(row_texts(rows@) + keyboard_rows(labels.skip(0), per_row) =~= keyboard_rows(
            labels,
            per_row,
        ));
    }
    while start < contents.len()
        invariant
            num_per_row > 0,
            per_row == num_per_row as nat,
            labels == texts(contents@),
            start <= contents.len(),
            row_texts(rows@) + keyboard_rows(labels.skip(start as int), per_row) == keyboard_rows(
                labels,
                per_row,
            ),
        decreases contents.len() - start,
    {
        let end: usize = if contents.len() - start <= num_per_row {
            contents.len()
        } else {
            start + num_per_row
        };
        let mut row: Vec<String> = Vec::new();
        let mut i: usize = start;
        while i < end
            invariant
                start <= i <= end <= contents.len(),
                labels == texts(contents@),
                texts(row@) == labels.subrange(start as int, i as int),
            decreases end - i,
        {
            let ghost shorter = row@;
            let label = contents[i].clone();
            row.push(label);
            i += 1;
            proof {
                let wanted = labels.subrange(start as int, i as int);
                assert(texts(shorter) == labels.subrange(start as int, i - 1));
                assert forall|j: int| 0 <= j < wanted.len() implies texts(row@)[j] == wanted[j] by {
                    if j < shorter.len() {
                        assert(texts(shorter)[j] == labels.subrange(start as int, i - 1)[j]);
                        assert(row@[j] == shorter[j]);
                    } else {
                        assert(row@[j] == label);
                        assert(labels[i - 1] == contents@[i - 1]@);
                    }
                }
                assert(texts(row@) =~= wanted);
            }
        }
        proof {
            lemma_rows_after_first(labels, per_row, start as int, end as int);
            let earlier = row_texts(rows@);
            let grown = row_texts(rows@.push(row));
            assert(grown =~= earlier + seq![texts(row@)]);
            assert(grown + keyboard_rows(labels.skip(end as int), per_row) =~= earlier + (
                seq![texts(row@)] + keyboard_rows(labels.skip(end as int), per_row)
            ));
        }
        rows.push(row);
        start = end;
    }
    proof {
        assert(labels.skip(start as int).len() == 0);
        assert(row_texts(rows@) + Seq::empty() =~= row_texts(rows@));
    }
    rows
}

/// The buttons for choosing the source type.
pub fn make_from_keyboard() -> (rows: Vec<Vec<String>>)
    ensures
        row_texts(rows@) == keyboard_rows(from_filetype_tags(), BUTTONS_PER_ROW as nat),
{
    let labels = from_filetypes();
    make_keyboard(labels.as_slice(), BUTTONS_PER_ROW)
}

/// The buttons for choosing the target type.
pub fn make_to_keyboard() -> (rows: Vec<Vec<String>>)
    ensures
        row_texts(rows@) == keyboard_rows(to_filetype_tags(), BUTTONS_PER_ROW as nat),
{
    let labels = to_filetypes();
    make_keyboard(labels.as_slice(), BUTTONS_PER_ROW)
}

} // verus!
