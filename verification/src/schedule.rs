//! The batch scheduler on files that are already in memory: batch after
//! batch, every file of a batch through the extractor, the results in the
//! order of the files.

use crate::batch::{
    batch_count, batch_end, batch_start, lemma_batches_tile, process_batch, split_batches,
};
use crate::extract::{extract_account_info, records_of, rendered_all};
use crate::pattern::Patterns;
use vstd::prelude::*;

verus! {

/// The output lines of each file, file by file.
pub open spec fn outputs_of(files: Seq<Seq<Seq<char>>>) -> Seq<Seq<Seq<char>>> {
    files.map_values(|lines: Seq<Seq<char>>| rendered_all(records_of(lines)))
}

/// The output lines of a run over `files`: those of the first file, then
/// those of the second, and so on.
pub open spec fn run_output(files: Seq<Seq<Seq<char>>>) -> Seq<Seq<char>> {
    outputs_of(files).flatten()
}

/// Flattening the parts up to `end` is flattening those up to `start` and
/// then those from `start` to `end`.
proof fn lemma_flatten_take(parts: Seq<Seq<Seq<char>>>, start: int, end: int)
    requires
        0 <= start <= end <= parts.len(),
    ensures
        parts.take(end).flatten() == parts.take(start).flatten() + parts.subrange(
            start,
            end,
        ).flatten(),
{
    assert(parts.take(end) == parts.take(start) + parts.subrange(start, end));
    vstd::seq_lib::lemma_flatten_concat(parts.take(start), parts.subrange(start, end));
}

/// Runs the extractor over the files of one batch, `files[start..end]`, and
/// returns the results file by file.
fn extract_batch(
    patterns: &Patterns,
    files: &Vec<Vec<String>>,
    start: usize,
    end: usize,
) -> (per_file: Vec<Vec<String>>)
    requires
        start <= end <= files.len(),
    ensures
        per_file.deep_view() == outputs_of(files.deep_view()).subrange(start as int, end as int),
{
    let mut per_file: Vec<Vec<String>> = Vec::new();
    let mut i: usize = start;
    while i < end
        invariant
            start <= i <= end <= files.len(),
            per_file.deep_view() == outputs_of(files.deep_view()).subrange(start as int, i as int),
        decreases end - i,
    {
        let lines = extract_account_info(patterns, &files[i]);
        let ghost added = lines.deep_view();
        per_file.push(lines);
        proof {
            assert(outputs_of(files.deep_view()).subrange(start as int, i as int + 1)
                == outputs_of(files.deep_view()).subrange(start as int, i as int).push(added));
        }
        i += 1;
    }
    per_file
}

/// Runs the extractor over all `files`, each given as its lines, in batches
/// of `batch_size` files: a batch is finished before the next is begun, and
/// the results stand in the order of the files.
///
/// What comes out does not depend on the batch size.
pub fn run(patterns: &Patterns, files: &Vec<Vec<String>>, batch_size: usize) -> (out: Vec<String>)
    requires
        batch_size > 0,
    ensures
        out.deep_view() == run_output(files.deep_view()),
{
    let ghost outputs = outputs_of(files.deep_view());
    let batches = split_batches(files.len(), batch_size);
    let mut out: Vec<String> = Vec::new();
    let mut k: usize = 0;
    let ghost mut done: int = 0;
    while k < batches.len()
        invariant
            batch_size > 0,
            outputs == outputs_of(files.deep_view()),
            outputs.len() == files.len(),
            k <= batches.len(),
            batches.len() == batch_count(files.len() as nat, batch_size as nat),
            forall|j: int|
                0 <= j < batches.len() ==> {
                    &&& (#[trigger] batches[j]).start == batch_start(batch_size as nat, j)
                    &&& batches[j].end == batch_end(files.len() as nat, batch_size as nat, j)
                },
            0 <= done <= files.len(),
            k < batches.len() ==> done == batch_start(batch_size as nat, k as int),
            k == batches.len() ==> done == files.len(),
            out.deep_view() == outputs.take(done).flatten(),
        decreases batches.len() - k,
    {
        let batch = batches[k];
        proof {
            lemma_batches_tile(files.len() as nat, batch_size as nat);
        }
        let per_file = extract_batch(patterns, files, batch.start, batch.end);
        let mut merged = process_batch(per_file);
        out.append(&mut merged);
        proof {
            lemma_flatten_take(outputs, batch.start as int, batch.end as int);
            done = batch.end as int;
        }
        k += 1;
    }
    assert(outputs.take(files.len() as int) == outputs);
    out
}

} // verus!
