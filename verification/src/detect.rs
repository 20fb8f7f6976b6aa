//! The novelty detector.
//!
//! A snapshot is the ordered list of records of one fetch-and-parse cycle,
//! freshest first.  Given a snapshot and the cursor — the `video_seq` of the
//! most recently delivered-or-observed record — the detector returns the
//! genuinely new records, reordered oldest first for delivery.

use vstd::prelude::*;

use crate::record::VLiveVideo;

verus! {

/// Index of the first record whose `video_seq` equals the cursor, or the
/// length of the snapshot when no record matches.  The records before this
/// index are the new ones; the record at it, if any, is where the previously
/// seen history resumes and is excluded.
pub open spec fn cut_index(snap: Seq<VLiveVideo>, cursor: u32) -> int
    decreases snap.len(),
{
    if snap.len() == 0 {
        0
    } else if snap.first().video_seq == cursor {
        0
    } else {
        1 + cut_index(snap.drop_first(), cursor)
    }
}

/// The new records of a snapshot relative to a cursor: everything strictly
/// before the cursor's record (or the whole snapshot when the cursor's value
/// is not present), reversed so that the oldest new record comes first.
pub open spec fn new_records(snap: Seq<VLiveVideo>, cursor: u32) -> Seq<VLiveVideo> {
    snap.take(cut_index(snap, cursor)).reverse()
}

proof fn lemma_cut_index_bounds(snap: Seq<VLiveVideo>, cursor: u32)
    ensures
        0 <= cut_index(snap, cursor) <= snap.len(),
    decreases snap.len(),
{
    if snap.len() != 0 && snap.first().video_seq != cursor {
        lemma_cut_index_bounds(snap.drop_first(), cursor);
    }
}

/// The cut index is exactly the position of the first match: if nothing
/// before `k` matches the cursor and `k` is a match or the end, the cut is `k`.
proof fn lemma_cut_index_at(snap: Seq<VLiveVideo>, cursor: u32, k: int)
    requires
        0 <= k <= snap.len(),
        forall|j: int| 0 <= j < k ==> snap[j].video_seq != cursor,
        k < snap.len() ==> snap[k].video_seq == cursor,
    ensures
        cut_index(snap, cursor) == k,
    decreases snap.len(),
{
    if k == 0 {
        if snap.len() > 0 {
            assert(snap.first().video_seq == cursor);
        }
    } else {
        assert(snap.first().video_seq != cursor);
        assert forall|j: int| 0 <= j < k - 1 implies snap.drop_first()[j].video_seq != cursor by {
            assert(snap.drop_first()[j] == snap[j + 1]);
        }
        if k - 1 < snap.drop_first().len() {
            assert(snap.drop_first()[k - 1] == snap[k]);
        }
        lemma_cut_index_at(snap.drop_first(), cursor, k - 1);
    }
}

/// Find the cut index of a snapshot at run time.
fn find_cut(snapshot: &Vec<VLiveVideo>, cursor: u32) -> (cut: usize)
    ensures
        cut as int == cut_index(snapshot@, cursor),
{
    let mut i: usize = 0;
    while i < snapshot.len()
        invariant
            i <= snapshot@.len(),
            forall|j: int| 0 <= j < i ==> snapshot@[j].video_seq != cursor,
        decreases snapshot@.len() - i,
    {
        if snapshot[i].video_seq == cursor {
            proof {
                lemma_cut_index_at(snapshot@, cursor, i as int);
            }
            return i;
        }
        i = i + 1;
    }
    proof {
        lemma_cut_index_at(snapshot@, cursor, i as int);
    }
    i
}

/// Compute the new records of a snapshot relative to the cursor, ready for
/// delivery: the records strictly before the cursor's record — the whole
/// snapshot when the cursor's value is not present — reordered oldest first.
pub fn detect_new(snapshot: Vec<VLiveVideo>, cursor: u32) -> (fresh: Vec<VLiveVideo>)
    ensures
        fresh@ == new_records(snapshot@, cursor),
{
    let ghost orig = snapshot@;
    let mut snapshot = snapshot;
    let cut = find_cut(&snapshot, cursor);
    proof {
        lemma_cut_index_bounds(orig, cursor);
    }
    snapshot.truncate(cut);
    let ghost taken = orig.take(cut as int);
    assert(snapshot@ =~= taken);
    let mut fresh: Vec<VLiveVideo> = Vec::new();
    while snapshot.len() > 0
        invariant
            snapshot@.len() <= taken.len(),
            snapshot@ =~= taken.take(snapshot@.len() as int),
            fresh@ =~= taken.skip(snapshot@.len() as int).reverse(),
        decreases snapshot@.len(),
    {
        let ghost n = snapshot@.len() as int;
        let rec = snapshot.pop().unwrap();
        proof {
            assert(taken.take(n)[n - 1] == taken[n - 1]);
            assert(rec == taken[n - 1]);
        }
        fresh.push(rec);
        proof {
            assert(snapshot@ =~= taken.take(n).subrange(0, n - 1));
            assert(snapshot@ =~= taken.take(n - 1));
            let before = taken.skip(n);
            let after = taken.skip(n - 1);
            assert forall|j: int| 0 <= j < after.len() implies after.reverse()[j] == before.reverse().push(
                taken[n - 1],
            )[j] by {
                assert(after.reverse()[j] == after[after.len() - 1 - j]);
                assert(after[after.len() - 1 - j] == taken[taken.len() - 1 - j]);
                if j < before.len() {
                    assert(before.reverse()[j] == before[before.len() - 1 - j]);
                    assert(before[before.len() - 1 - j] == taken[taken.len() - 1 - j]);
                }
            }
            assert(after.reverse() =~= before.reverse().push(taken[n - 1]));
        }
    }
    assert(taken.skip(0) =~= taken);
    fresh
}

/// Law: when the cursor already names the freshest record, nothing is new.
pub proof fn lemma_idempotent_no_op(snap: Seq<VLiveVideo>, cursor: u32)
    requires
        snap.len() > 0,
        snap[0].video_seq == cursor,
    ensures
        new_records(snap, cursor) =~= Seq::<VLiveVideo>::empty(),
{
    assert(cut_index(snap, cursor) == 0);
    assert(snap.take(0).reverse().len() == 0);
}

/// Law: when the cursor's record stands at index `k` (and nowhere earlier),
/// exactly the records before it are new, reordered so the oldest — the one
/// at index `k - 1` — comes first.
pub proof fn lemma_ordering(snap: Seq<VLiveVideo>, cursor: u32, k: int)
    requires
        0 <= k < snap.len(),
        snap[k].video_seq == cursor,
        forall|j: int| 0 <= j < k ==> snap[j].video_seq != cursor,
    ensures
        new_records(snap, cursor) =~= snap.take(k).reverse(),
        new_records(snap, cursor).len() == k,
        forall|i: int| 0 <= i < k ==> new_records(snap, cursor)[i] == snap[k - 1 - i],
{
    lemma_cut_index_at(snap, cursor, k);
    assert forall|i: int| 0 <= i < k implies new_records(snap, cursor)[i] == snap[k - 1 - i] by {
        assert(snap.take(k).reverse()[i] == snap.take(k)[k - 1 - i]);
    }
}

/// Law, gap coalescing: when the cursor's value is nowhere in the snapshot —
/// also the case for the initial cursor 0 — the entire snapshot is new,
/// oldest first.  This holds even when the cursor's record merely rotated out
/// of the page: the engine makes no attempt to detect such a gap.
pub proof fn lemma_gap_coalescing(snap: Seq<VLiveVideo>, cursor: u32)
    requires
        forall|j: int| 0 <= j < snap.len() ==> snap[j].video_seq != cursor,
    ensures
        new_records(snap, cursor) =~= snap.reverse(),
        new_records(snap, cursor).len() == snap.len(),
        forall|i: int|
            0 <= i < snap.len() ==> new_records(snap, cursor)[i] == snap[snap.len() - 1 - i],
{
    lemma_cut_index_at(snap, cursor, snap.len() as int);
    assert(snap.take(snap.len() as int) =~= snap);
}

} // verus!
