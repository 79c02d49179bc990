//! The batch scheduler's arithmetic: which files form which batch, and how
//! the results of the files of a batch become one sequence.

use vstd::prelude::*;

verus! {

/// The number of files of a batch where the caller names none.
pub const DEFAULT_BATCH_SIZE: usize = 500;

/// One batch: the files at the positions `start..end` of the file list.
#[derive(Debug, Clone, Copy, PartialEq, Eq, Structural)]
pub struct Batch {
    pub start: usize,
    pub end: usize,
}

/// The number of batches that `files` files make, `batch_size` to a batch.
pub open spec fn batch_count(files: nat, batch_size: nat) -> nat {
    if files == 0 || batch_size == 0 {
        0
    } else {
        ((files - 1) / batch_size as int + 1) as nat
    }
}

/// The position of the first file of batch `k`.
pub open spec fn batch_start(batch_size: nat, k: int) -> int {
    k * batch_size
}

/// The position after the last file of batch `k`.
pub open spec fn batch_end(files: nat, batch_size: nat, k: int) -> int {
    if (k + 1) * batch_size <= files {
        (k + 1) * batch_size
    } else {
        files as int
    }
}

/// The batches lie end to end over the file list, none is empty, none holds
/// more than `batch_size` files, and only the last may hold fewer.
pub proof fn lemma_batches_tile(files: nat, batch_size: nat)
    requires
        batch_size > 0,
    ensures
        files > 0 ==> batch_count(files, batch_size) > 0,
        files > 0 ==> batch_end(files, batch_size, batch_count(files, batch_size) - 1) == files,
        forall|k: int|
            0 <= k < batch_count(files, batch_size) ==> {
                &&& batch_start(batch_size, k) < #[trigger] batch_end(files, batch_size, k)
                &&& batch_end(files, batch_size, k) - batch_start(batch_size, k) <= batch_size
                &&& batch_end(files, batch_size, k) <= files
                &&& k + 1 < batch_count(files, batch_size) ==> batch_end(files, batch_size, k)
                    - batch_start(batch_size, k) == batch_size
                &&& batch_end(files, batch_size, k) == batch_start(batch_size, k + 1) || k + 1
                    == batch_count(files, batch_size)
            },
{
    if files > 0 {
        let n = batch_count(files, batch_size) as int;
        let b = batch_size as int;
        let f = files as int;
        assert((n - 1) * b < f && f <= n * b) by (nonlinear_arith)
            requires
                b > 0,
                f > 0,
                n == (f - 1) / b + 1,
        ;
        assert forall|k: int| 0 <= k < n implies {
            &&& batch_start(batch_size, k) < #[trigger] batch_end(files, batch_size, k)
            &&& batch_end(files, batch_size, k) - batch_start(batch_size, k) <= batch_size
            &&& batch_end(files, batch_size, k) <= files
            &&& k + 1 < n ==> batch_end(files, batch_size, k) - batch_start(batch_size, k)
                == batch_size
            &&& batch_end(files, batch_size, k) == batch_start(batch_size, k + 1) || k + 1 == n
        } by {
            assert((k + 1) * b == k * b + b) by (nonlinear_arith);
            assert(k * b <= (n - 1) * b) by (nonlinear_arith)
                requires
                    k <= n - 1,
                    b > 0,
            ;
            if k + 1 < n {
                assert((k + 1) * b <= (n - 1) * b) by (nonlinear_arith)
                    requires
                        k + 1 <= n - 1,
                        b > 0,
                ;
            }
        }
    }
}

/// Cuts a list of `files` files into consecutive batches of `batch_size`
/// files; the last batch holds what is left.
pub fn split_batches(files: usize, batch_size: usize) -> (batches: Vec<Batch>)
    requires
        batch_size > 0,
    ensures
        batches.len() == batch_count(files as nat, batch_size as nat),
        forall|k: int|
            0 <= k < batches.len() ==> {
                &&& (#[trigger] batches[k]).start == batch_start(batch_size as nat, k)
                &&& batches[k].end == batch_end(files as nat, batch_size as nat, k)
            },
{
    let mut batches: Vec<Batch> = Vec::new();
    let mut start: usize = 0;
    assert((batches.len() - 1 + 1) * batch_size == 0) by (nonlinear_arith)
        requires
            batches.len() == 0,
    ;
    while start < files
        invariant
            batch_size > 0,
            start <= files,
            start == batch_end(files as nat, batch_size as nat, batches.len() - 1),
            batches.len() > 0 ==> (batches.len() - 1) * batch_size < files,
            forall|k: int|
                0 <= k < batches.len() ==> {
                    &&& (#[trigger] batches[k]).start == batch_start(batch_size as nat, k)
                    &&& batches[k].end == batch_end(files as nat, batch_size as nat, k)
                },
        decreases files - start,
    {
        let ghost k = batches.len() as int;
        let end: usize = if files - start <= batch_size {
            files
        } else {
            start + batch_size
        };
        proof {
            assert((k + 1) * batch_size == k * batch_size + batch_size) by (nonlinear_arith);
        }
        batches.push(Batch { start, end });
        start = end;
    }
    proof {
        let n = batches.len() as int;
        let b = batch_size as int;
        let f = files as int;
        if n > 0 {
            assert(n == (f - 1) / b + 1) by (nonlinear_arith)
                requires
                    b > 0,
                    (n - 1) * b < f,
                    f <= n * b,
            ;
        }
    }
    batches
}

/// Makes one sequence of the results of the files of a batch: the results of
/// the first file, then those of the second, and so on.
pub fn process_batch(per_file: Vec<Vec<String>>) -> (merged: Vec<String>)
    ensures
        merged.deep_view() == per_file.deep_view().flatten(),
{
    let ghost parts = per_file.deep_view();
    let mut merged: Vec<String> = Vec::new();
    for part in it: per_file
        invariant
            it.seq().len() == parts.len(),
            forall|k: int| 0 <= k < parts.len() ==> (#[trigger] it.seq()[k]).deep_view() == parts[k],
            merged.deep_view() == parts.take(it.index()).flatten(),
    {
        let ghost i = it.index();
        let mut part = part;
        let ghost added = part.deep_view();
        merged.append(&mut part);
        proof {
            assert(parts.take(i + 1) == parts.take(i).push(added));
            parts.take(i).lemma_flatten_push(added);
        }
    }
    assert(parts.take(parts.len() as int) == parts);
    merged
}

/// Taking one part out of a sequence of parts takes its items out of the
/// flattened sequence, whatever their place in it was.
proof fn lemma_flatten_without(parts: Seq<Seq<Seq<char>>>, j: int)
    requires
        0 <= j < parts.len(),
    ensures
        parts.flatten().to_multiset() == parts.remove(j).flatten().to_multiset().add(
            parts[j].to_multiset(),
        ),
{
    let head = parts.take(j);
    let tail = parts.skip(j + 1);
    assert(parts == head.push(parts[j]) + tail);
    vstd::seq_lib::lemma_flatten_concat(head.push(parts[j]), tail);
    vstd::seq_lib::lemma_flatten_concat(head, tail);
    head.lemma_flatten_push(parts[j]);
    vstd::seq_lib::lemma_multiset_commutative(head.flatten() + parts[j], tail.flatten());
    vstd::seq_lib::lemma_multiset_commutative(head.flatten(), parts[j]);
    vstd::seq_lib::lemma_multiset_commutative(head.flatten(), tail.flatten());
}

/// The records of a batch, counted with their multiplicity, do not depend on
/// the order in which the results of its files are put together: two
/// arrangements of the same per-file results flatten to the same multiset.
pub proof fn lemma_merge_ignores_file_order(
    first: Seq<Seq<Seq<char>>>,
    second: Seq<Seq<Seq<char>>>,
)
    requires
        first.to_multiset() == second.to_multiset(),
    ensures
        first.flatten().to_multiset() == second.flatten().to_multiset(),
    decreases first.len(),
{
    broadcast use vstd::seq_lib::group_to_multiset_ensures;

    if first.len() == 0 {
        assert(second.to_multiset().len() == second.len());
    } else {
        let last = first.len() - 1;
        let part = first[last];
        assert(second.to_multiset().count(part) > 0);
        let j = choose|j: int| 0 <= j < second.len() && second[j] == part;
        lemma_merge_ignores_file_order(first.remove(last), second.remove(j));
        lemma_flatten_without(first, last);
        lemma_flatten_without(second, j);
    }
}

} // verus!
