//! Splitting a list of account ids into near-equal batches, one per worker.

use vstd::prelude::*;

verus! {

/// The batch size for `n` ids and `workers` workers: `n / workers`, rounded up.
pub open spec fn spec_chunk_size(n: nat, workers: nat) -> nat
    recommends
        workers > 0,
{
    if n % workers == 0 {
        n / workers
    } else {
        n / workers + 1
    }
}

/// How many batches of `size` ids are needed to hold `n` ids.
pub open spec fn spec_batch_count(n: nat, size: nat) -> nat {
    if size == 0 {
        0
    } else {
        spec_chunk_size(n, size)
    }
}

/// The `i`-th batch of `ids` when each batch holds `size` ids: the ids from
/// position `i * size` up to `(i + 1) * size`, or to the end of the list.
pub open spec fn spec_batch(ids: Seq<i32>, size: nat, i: int) -> Seq<i32> {
    let start = i * size;
    let end = if start + size <= ids.len() {
        start + size
    } else {
        ids.len() as int
    };
    ids.subrange(start, end)
}

/// All batches of `ids` for `workers` workers, in order.
pub open spec fn spec_batches(ids: Seq<i32>, workers: nat) -> Seq<Seq<i32>> {
    let size = spec_chunk_size(ids.len(), workers);
    Seq::new(spec_batch_count(ids.len(), size), |i: int| spec_batch(ids, size, i))
}

/// The views of a list of batches.
pub open spec fn batch_views(batches: Seq<Vec<i32>>) -> Seq<Seq<i32>> {
    Seq::new(batches.len(), |i: int| batches[i]@)
}

/// Computes the size of each batch, so that `workers` batches hold `n` ids.
pub fn chunk_size(n: usize, workers: usize) -> (size: usize)
    requires
        workers > 0,
    ensures
        size == spec_chunk_size(n as nat, workers as nat),
{
    let quotient: usize = n / workers;
    if n % workers != 0 {
        assert(quotient < n) by (nonlinear_arith)
            requires
                quotient == n / workers,
                n % workers != 0,
                workers > 0,
        ;
        quotient + 1
    } else {
        quotient
    }
}

/// The batch size is zero only when there is no id at all.
pub proof fn lemma_chunk_size_positive(n: nat, workers: nat)
    requires
        workers > 0,
        n > 0,
    ensures
        spec_chunk_size(n, workers) > 0,
{
    let q = n / workers;
    let r = n % workers;
    assert(n == q * workers + r && 0 <= r < workers && q >= 0) by (nonlinear_arith)
        requires
            q == n / workers,
            r == n % workers,
            workers > 0,
    ;
    if q == 0 {
        assert(q * workers == 0) by (nonlinear_arith)
            requires
                q == 0,
        ;
    }
}

/// `size * count` covers `n`, and one batch less does not.
pub proof fn lemma_batch_count_bounds(n: nat, size: nat)
    requires
        size > 0,
    ensures
        (spec_batch_count(n, size) - 1) * size < n || n == 0,
        n <= spec_batch_count(n, size) * size,
        n == 0 ==> spec_batch_count(n, size) == 0,
{
    let q = n / size;
    let r = n % size;
    assert(n == q * size + r && 0 <= r < size) by (nonlinear_arith)
        requires
            q == n / size,
            r == n % size,
            size > 0,
    ;
    assert((q + 1) * size == q * size + size) by (nonlinear_arith);
    assert((q - 1) * size == q * size - size) by (nonlinear_arith);
    if n == 0 {
        assert(q == 0) by (nonlinear_arith)
            requires
                0 == q * size + r,
                0 <= r,
                size > 0,
                q >= 0,
        ;
    }
}

/// With the batch size chosen for `workers` workers, at most `workers` batches arise.
pub proof fn lemma_at_most_one_batch_per_worker(n: nat, workers: nat)
    requires
        workers > 0,
    ensures
        spec_batch_count(n, spec_chunk_size(n, workers)) <= workers,
{
    let size = spec_chunk_size(n, workers);
    let q = n / workers;
    let r = n % workers;
    assert(n == q * workers + r && 0 <= r < workers) by (nonlinear_arith)
        requires
            q == n / workers,
            r == n % workers,
            workers > 0,
    ;
    if size > 0 {
        let count = spec_batch_count(n, size);
        lemma_batch_count_bounds(n, size);
        assert(size * workers >= n) by (nonlinear_arith)
            requires
                n == q * workers + r,
                0 <= r < workers,
                size == if r == 0 {
                    q
                } else {
                    q + 1
                },
        ;
        if count > workers {
            assert((count - 1) * size >= workers * size) by (nonlinear_arith)
                requires
                    count - 1 >= workers,
                    size > 0,
            ;
            assert(workers * size == size * workers) by (nonlinear_arith);
        }
    }
}

/// The first `count` batches, joined end to end, are the first ids of the list.
proof fn lemma_batch_prefix_flattens(ids: Seq<i32>, size: nat, count: nat)
    requires
        size > 0,
        count <= spec_batch_count(ids.len(), size),
    ensures
        Seq::new(count, |i: int| spec_batch(ids, size, i)).flatten() == ids.subrange(
            0,
            if count * size <= ids.len() {
                (count * size) as int
            } else {
                ids.len() as int
            },
        ),
    decreases count,
{
    let batches = Seq::new(count, |i: int| spec_batch(ids, size, i));
    if count == 0 {
        assert(batches =~= Seq::<Seq<i32>>::empty());
        assert(ids.subrange(0, 0) =~= Seq::<i32>::empty());
        assert(0 * size == 0) by (nonlinear_arith);
    } else {
        let shorter = Seq::new((count - 1) as nat, |i: int| spec_batch(ids, size, i));
        let last = spec_batch(ids, size, count - 1);
        lemma_batch_prefix_flattens(ids, size, (count - 1) as nat);
        lemma_batch_count_bounds(ids.len(), size);
        assert(batches =~= shorter.push(last));
        broadcast use Seq::lemma_flatten_push;
        let total = spec_batch_count(ids.len(), size) as int;
        let start = (count - 1) * size;
        assert(start <= (total - 1) * size) by (nonlinear_arith)
            requires
                start == (count - 1) * size,
                count <= total,
                size >= 0,
        ;
        assert(count * size == start + size) by (nonlinear_arith)
            requires
                start == (count - 1) * size,
        ;
        assert(start < ids.len());
        let end = if start + size <= ids.len() {
            start + size
        } else {
            ids.len() as int
        };
        assert(ids.subrange(0, start) + ids.subrange(start, end) =~= ids.subrange(0, end));
    }
}

/// The id at position `j` of `ids` stands in batch `j / size`, at position `j % size`.
pub open spec fn spec_stands_in_batch(ids: Seq<i32>, workers: nat, j: int) -> bool {
    let size = spec_chunk_size(ids.len(), workers) as int;
    let batches = spec_batches(ids, workers);
    &&& size > 0
    &&& 0 <= j / size < batches.len()
    &&& 0 <= j % size < batches[j / size].len()
    &&& batches[j / size][j % size] == ids[j]
}

/// Partition coverage: the batches made for `workers` workers, joined end to
/// end, are exactly the list of ids. So the id at position `j` stands in batch
/// `j / size` at position `j % size` and nowhere else: no id is left out, and
/// none is handed to two workers unless the list itself names it twice.
pub proof fn lemma_batches_cover_ids(ids: Seq<i32>, workers: nat)
    requires
        workers > 0,
    ensures
        spec_batches(ids, workers).flatten() == ids,
        spec_batches(ids, workers).flatten().to_multiset() == ids.to_multiset(),
        spec_batches(ids, workers).len() <= workers,
        forall|j: int| 0 <= j < ids.len() ==> #[trigger] spec_stands_in_batch(ids, workers, j),
{
    let n = ids.len();
    let size = spec_chunk_size(n, workers);
    lemma_at_most_one_batch_per_worker(n, workers);
    if n == 0 {
        assert(size == 0) by (nonlinear_arith)
            requires
                size == spec_chunk_size(0, workers),
                workers > 0,
        ;
        assert(spec_batches(ids, workers) =~= Seq::<Seq<i32>>::empty());
        assert(ids =~= Seq::<i32>::empty());
    } else {
        lemma_chunk_size_positive(n, workers);
        lemma_batch_count_bounds(n, size);
        let count = spec_batch_count(n, size);
        lemma_batch_prefix_flattens(ids, size, count);
        assert(ids.subrange(0, n as int) =~= ids);
        assert forall|j: int| 0 <= j < n implies #[trigger] spec_stands_in_batch(
            ids,
            workers,
            j,
        ) by {
            let b = j / (size as int);
            let k = j % (size as int);
            assert(j == b * size + k && 0 <= k < size && b >= 0) by (nonlinear_arith)
                requires
                    b == j / (size as int),
                    k == j % (size as int),
                    size > 0,
                    j >= 0,
            ;
            if b >= count {
                assert(b * size >= count * size) by (nonlinear_arith)
                    requires
                        b >= count,
                        size >= 0,
                ;
            }
        }
    }
}

/// Copies the ids at positions `start..end` into a list of their own.
fn copy_range(ids: &Vec<i32>, start: usize, end: usize) -> (batch: Vec<i32>)
    requires
        start <= end <= ids.len(),
    ensures
        batch@ == ids@.subrange(start as int, end as int),
{
    let mut batch: Vec<i32> = Vec::new();
    let mut at: usize = start;
    while at < end
        invariant
            start <= at <= end <= ids.len(),
            batch@ == ids@.subrange(start as int, at as int),
        decreases end - at,
    {
        batch.push(ids[at]);
        at = at + 1;
        assert(batch@ =~= ids@.subrange(start as int, at as int));
    }
    batch
}

/// Splits `ids` into batches for `workers` workers.
///
/// Every batch but the last holds `n / workers` ids, rounded up; the last
/// holds what is left. The batches keep the order of `ids`, so that joined
/// end to end they give `ids` back. No batch is empty, and there are at most
/// `workers` of them; an empty list gives no batch at all.
pub fn split_into_batches(ids: &Vec<i32>, workers: usize) -> (batches: Vec<Vec<i32>>)
    requires
        workers > 0,
    ensures
        batch_views(batches@) == spec_batches(ids@, workers as nat),
        batch_views(batches@).flatten() == ids@,
        batches@.len() <= workers,
        forall|i: int| 0 <= i < batches@.len() ==> 0 < #[trigger] batches@[i]@.len()
            <= spec_chunk_size(ids@.len(), workers as nat),
{
    let n: usize = ids.len();
    let size: usize = chunk_size(n, workers);
    let mut batches: Vec<Vec<i32>> = Vec::new();
    let mut start: usize = 0;
    proof {
        lemma_at_most_one_batch_per_worker(n as nat, workers as nat);
        if n > 0 {
            lemma_chunk_size_positive(n as nat, workers as nat);
            lemma_batch_count_bounds(n as nat, size as nat);
        }
        assert(batch_views(batches@) =~= Seq::<Seq<i32>>::empty());
        assert(ids@.subrange(0, 0) =~= Seq::<i32>::empty());
    }
    while start < n
        invariant
            n == ids.len(),
            workers > 0,
            size == spec_chunk_size(n as nat, workers as nat),
            start <= n,
            size > 0 || n == 0,
            start == n || start == batches@.len() * size,
            start == n ==> batches@.len() == spec_batch_count(n as nat, size as nat),
            start < n ==> batches@.len() < spec_batch_count(n as nat, size as nat),
            forall|i: int| 0 <= i < batches@.len() ==> #[trigger] batches@[i]@
                == spec_batch(ids@, size as nat, i),
            forall|i: int| 0 <= i < batches@.len() ==> 0 < #[trigger] batches@[i]@.len() <= size,
            batch_views(batches@).flatten() == ids@.subrange(0, start as int),
        decreases n - start,
    {
        let end: usize = if n - start > size {
            start + size
        } else {
            n
        };
        let batch = copy_range(ids, start, end);
        let ghost before = batches@;
        let ghost count = batches@.len() as int;
        batches.push(batch);
        proof {
            lemma_batch_count_bounds(n as nat, size as nat);
            assert(batch_views(batches@) =~= batch_views(before).push(batch@));
            assert(ids@.subrange(0, start as int) + ids@.subrange(start as int, end as int)
                =~= ids@.subrange(0, end as int));
            broadcast use Seq::lemma_flatten_push;
            let total = spec_batch_count(n as nat, size as nat) as int;
            assert((count + 1) * size == count * size + size) by (nonlinear_arith);
            if end < n {
                // One more batch is still to come.
                if count + 1 >= total {
                    assert(total * size <= (count + 1) * size) by (nonlinear_arith)
                        requires
                            total <= count + 1,
                            size >= 0,
                    ;
                }
            } else {
                // This was the last batch.
                if count + 1 < total {
                    assert((count + 1) * size <= (total - 1) * size) by (nonlinear_arith)
                        requires
                            count + 1 <= total - 1,
                            size >= 0,
                    ;
                }
            }
        }
        start = end;
    }
    proof {
        assert(ids@.subrange(0, n as int) =~= ids@);
        assert(batch_views(batches@) =~= spec_batches(ids@, workers as nat));
    }
    batches
}

} // verus!
