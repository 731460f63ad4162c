//! Batching: cutting the participant list into the groups that one lookup
//! call each will serve.

use crate::validator::{ValidatorInfo, ValidatorView};
use vstd::prelude::*;

verus! {

/// The batches of `items` for the size limit `size`: the first `size` items,
/// then the next `size` items, and so on; what is left at the end, if
/// anything, forms the last batch. No items, no batches.
pub open spec fn batches_of<T>(items: Seq<T>, size: nat) -> Seq<Seq<T>>
    decreases items.len(),
{
    if items.len() == 0 || size == 0 {
        Seq::empty()
    } else if items.len() <= size {
        seq![items]
    } else {
        seq![items.take(size as int)] + batches_of(items.skip(size as int), size)
    }
}

/// Batching loses nothing and reorders nothing: the batches, one after the
/// other, are the list that was cut. No batch is empty, none is larger than
/// the limit, and every batch before the last is exactly as large as the
/// limit.
pub proof fn lemma_batches_partition<T>(items: Seq<T>, size: nat)
    requires
        size > 0,
    ensures
        batches_of(items, size).flatten() == items,
        batches_of(items, size).len() == 0 <==> items.len() == 0,
        forall|i: int|
            0 <= i < batches_of(items, size).len() ==> 0 < (#[trigger] batches_of(
                items,
                size,
            )[i]).len() <= size,
        forall|i: int|
            0 <= i < batches_of(items, size).len() - 1 ==> (#[trigger] batches_of(
                items,
                size,
            )[i]).len() == size,
    decreases items.len(),
{
    let batches = batches_of(items, size);
    if items.len() == 0 {
    } else if items.len() <= size {
        assert(batches.drop_first().flatten() =~= Seq::<T>::empty());
    } else {
        let rest = batches_of(items.skip(size as int), size);
        lemma_batches_partition(items.skip(size as int), size);
        assert(batches.drop_first() =~= rest);
        assert forall|i: int| 0 <= i < batches.len() implies 0 < (#[trigger] batches[i]).len()
            <= size by {}
        assert forall|i: int| 0 <= i < batches.len() - 1 implies (#[trigger] batches[i]).len()
            == size by {}
    }
}

/// The number of batches for `len` items and the size limit `size`: as many
/// as it takes to hold all items, and no more.
pub open spec fn batch_count(len: nat, size: nat) -> int {
    if size == 0 {
        0
    } else {
        (len + size - 1) / (size as int)
    }
}

/// Where the items of a batch come from: batch number `i` holds the items
/// from place `i * size` up to, but not including, place `(i + 1) * size`, or
/// up to the end of the list where the list ends before that.
pub proof fn lemma_batch_by_position<T>(items: Seq<T>, size: nat, i: int)
    requires
        size > 0,
        0 <= i < batches_of(items, size).len(),
    ensures
        i * size < items.len(),
        batches_of(items, size)[i] == items.subrange(
            i * size,
            if (i + 1) * size <= items.len() {
                (i + 1) * size
            } else {
                items.len() as int
            },
        ),
    decreases items.len(),
{
    let batches = batches_of(items, size);
    if items.len() <= size {
        assert(i == 0);
        assert(0 * size == 0);
        assert(1 * size == size);
        assert(items.subrange(0, items.len() as int) =~= items);
    } else {
        let tail = items.skip(size as int);
        let rest = batches_of(tail, size);
        assert(batches =~= seq![items.take(size as int)] + rest);
        if i == 0 {
            assert(0 * size == 0);
            assert(1 * size == size);
            assert(items.take(size as int) =~= items.subrange(0, size as int));
        } else {
            lemma_batch_by_position(tail, size, i - 1);
            assert(batches[i] == rest[i - 1]);
            assert((i - 1) * size + size == i * size) by (nonlinear_arith);
            assert(i * size + size == (i + 1) * size) by (nonlinear_arith);
            let from = (i - 1) * size;
            let to = if i * size <= tail.len() {
                i * size
            } else {
                tail.len() as int
            };
            assert(tail.subrange(from, to) =~= items.subrange(from + size, to + size));
        }
    }
}

/// How many batches there are: the number of items divided by the size limit,
/// rounded up.
pub proof fn lemma_batch_count<T>(items: Seq<T>, size: nat)
    requires
        size > 0,
    ensures
        batches_of(items, size).len() == batch_count(items.len(), size),
    decreases items.len(),
{
    let len = items.len() as int;
    let limit = size as int;
    if len == 0 {
        assert((len + limit - 1) / limit == 0) by (nonlinear_arith)
            requires
                len == 0,
                limit > 0,
        ;
    } else if len <= limit {
        assert((len + limit - 1) / limit == 1) by (nonlinear_arith)
            requires
                0 < len <= limit,
        ;
    } else {
        let tail = items.skip(limit);
        lemma_batch_count(tail, size);
        let shorter = tail.len() as int;
        assert((len + limit - 1) / limit == (shorter + limit - 1) / limit + 1) by (nonlinear_arith)
            requires
                shorter == len - limit,
                limit > 0,
                shorter >= 0,
        ;
    }
}

/// Cuts `validators` into batches of `batch_size` participants; the last
/// batch holds what is left over. Every participant lands in exactly one
/// batch, with or without an address, and the order of the list is kept.
pub fn split_batches(validators: &[ValidatorInfo], batch_size: usize) -> (batches: Vec<
    Vec<ValidatorInfo>,
>)
    requires
        batch_size > 0,
    ensures
        batches.deep_view() == batches_of(validators.deep_view(), batch_size as nat),
        batches.deep_view().flatten() == validators.deep_view(),
        batches@.len() == batch_count(validators@.len(), batch_size as nat),
        batches@.len() == 0 <==> validators@.len() == 0,
        forall|i: int|
            0 <= i < batches@.len() ==> 0 < (#[trigger] batches@[i])@.len() <= batch_size,
        forall|i: int|
            0 <= i < batches@.len() - 1 ==> (#[trigger] batches@[i])@.len() == batch_size,
{
    let ghost items = validators.deep_view();
    let ghost size = batch_size as nat;
    let mut batches: Vec<Vec<ValidatorInfo>> = Vec::new();
    let mut start: usize = 0;
    proof {
        assert(items.skip(0) =~= items);
    }
    while start < validators.len()
        invariant
            batch_size > 0,
            size == batch_size as nat,
            items == validators.deep_view(),
            start <= validators@.len(),
            batches_of(items, size) == batches.deep_view() + batches_of(
                items.skip(start as int),
                size,
            ),
        decreases validators@.len() - start,
    {
        let end: usize = if validators.len() - start > batch_size {
            start + batch_size
        } else {
            validators.len()
        };
        let mut batch: Vec<ValidatorInfo> = Vec::new();
        let mut i: usize = start;
        while i < end
            invariant
                start <= i <= end <= validators@.len(),
                items == validators.deep_view(),
                batch.deep_view() == items.subrange(start as int, i as int),
            decreases end - i,
        {
            let ghost before = batch.deep_view();
            let copy = validators[i].clone();
            batch.push(copy);
            assert(batch.deep_view() =~= before.push(copy@));
            i += 1;
        }
        proof {
            let rest = items.skip(start as int);
            if rest.len() > size {
                assert(batch.deep_view() =~= rest.take(size as int));
                assert(items.skip(end as int) =~= rest.skip(size as int));
            }
        }
        batches.push(batch);
        start = end;
    }
    proof {
        lemma_batches_partition(items, size);
        lemma_batch_count(items, size);
        assert forall|i: int| 0 <= i < batches@.len() implies (#[trigger] batches@[i])@.len()
            == batches.deep_view()[i].len() by {}
    }
    batches
}

} // verus!
