//! The output batcher: groups files into ordered batches whose combined
//! size stays under a transport limit.
//!
//! A file whose metadata could not be read is recorded as a failure and
//! excluded. A file larger than the limit on its own can never join a
//! batch and is recorded as a failure with a size comparison. The rest are
//! packed greedily in their original order: when a file would push the
//! running total over the limit, the current batch is closed and a new one
//! started. This is deliberately not size-optimal bin packing — the input
//! order is meaningful and is preserved.

use vstd::prelude::*;

use crate::text::dec_of;
use crate::text::dec_string_u64;

verus! {

/// One file handed to the batcher: its path and its size, or `None` when
/// the file's metadata could not be read.
pub struct FileProbe {
    pub path: String,
    pub size: Option<u64>,
}

/// The failure reason recorded for a file without readable metadata.
pub open spec fn meta_fail_text() -> Seq<char> {
    "failed to get metadata"@
}

/// The failure reason recorded for a file larger than the limit.
pub open spec fn too_large_text(size: u64, limit: u64) -> Seq<char> {
    "file is too large: "@ + dec_of(size as nat) + " > "@ + dec_of(limit as nat)
}

/// Renders the failure reason for a file larger than the limit.
pub fn too_large_message(size: u64, limit: u64) -> (r: String)
    ensures
        r@ == too_large_text(size, limit),
{
    let mut s = String::from_str("file is too large: ");
    let d1 = dec_string_u64(size);
    s.append(d1.as_str());
    s.append(" > ");
    let d2 = dec_string_u64(limit);
    s.append(d2.as_str());
    proof {
        assert(s@ =~= too_large_text(size, limit));
    }
    s
}

/// The failures recorded for files without readable metadata, in input
/// order.
pub open spec fn meta_failures(files: Seq<FileProbe>) -> Seq<(Seq<char>, Seq<char>)>
    decreases files.len(),
{
    if files.len() == 0 {
        seq![]
    } else {
        meta_failures(files.drop_last()) + if files.last().size is None {
            seq![(files.last().path@, meta_fail_text())]
        } else {
            seq![]
        }
    }
}

/// The files with readable metadata, as (path, size) entries in input
/// order.
pub open spec fn sized_of(files: Seq<FileProbe>) -> Seq<(Seq<char>, u64)>
    decreases files.len(),
{
    if files.len() == 0 {
        seq![]
    } else {
        sized_of(files.drop_last()) + match files.last().size {
            Option::Some(sz) => seq![(files.last().path@, sz)],
            Option::None => seq![],
        }
    }
}

/// The paths of one batch, in order.
pub open spec fn batch_paths(b: Seq<(Seq<char>, u64)>) -> Seq<Seq<char>> {
    b.map_values(|e: (Seq<char>, u64)| e.0)
}

/// The paths of every batch, in order.
pub open spec fn batches_paths(bs: Seq<Seq<(Seq<char>, u64)>>) -> Seq<Seq<Seq<char>>> {
    bs.map_values(|b: Seq<(Seq<char>, u64)>| batch_paths(b))
}

/// The batcher's running state: closed batches, the open batch with its
/// running size, and the files failed so far.
pub ghost struct BatchAcc {
    pub done: Seq<Seq<(Seq<char>, u64)>>,
    pub cur: Seq<(Seq<char>, u64)>,
    pub cur_size: int,
    pub failed: Seq<(Seq<char>, Seq<char>)>,
}

pub open spec fn batch_acc_init() -> BatchAcc {
    BatchAcc { done: seq![], cur: seq![], cur_size: 0, failed: seq![] }
}

/// One greedy step: an oversized file fails; a file that would overflow
/// the open batch closes it first; anything else joins the open batch.
pub open spec fn batch_step(acc: BatchAcc, path: Seq<char>, size: u64, limit: u64) -> BatchAcc {
    if size > limit {
        BatchAcc { failed: acc.failed + seq![(path, too_large_text(size, limit))], ..acc }
    } else if acc.cur_size + size > limit {
        BatchAcc {
            done: acc.done.push(acc.cur),
            cur: seq![(path, size)],
            cur_size: size as int,
            ..acc
        }
    } else {
        BatchAcc { cur: acc.cur.push((path, size)), cur_size: acc.cur_size + size, ..acc }
    }
}

/// The batcher's state after all entries, in order.
pub open spec fn fold_batches(entries: Seq<(Seq<char>, u64)>, limit: u64) -> BatchAcc
    decreases entries.len(),
{
    if entries.len() == 0 {
        batch_acc_init()
    } else {
        batch_step(
            fold_batches(entries.drop_last(), limit),
            entries.last().0,
            entries.last().1,
            limit,
        )
    }
}

/// All closed batches, the open one included if non-empty.
pub open spec fn sealed_batches(acc: BatchAcc) -> Seq<Seq<(Seq<char>, u64)>> {
    if acc.cur.len() > 0 {
        acc.done.push(acc.cur)
    } else {
        acc.done
    }
}

/// The batches produced for `files`, with sizes.
pub open spec fn sized_batches_of(files: Seq<FileProbe>, limit: u64) -> Seq<Seq<(Seq<char>, u64)>> {
    sealed_batches(fold_batches(sized_of(files), limit))
}

/// The batches produced for `files`, as the paths that are delivered.
pub open spec fn batches_of(files: Seq<FileProbe>, limit: u64) -> Seq<Seq<Seq<char>>> {
    batches_paths(sized_batches_of(files, limit))
}

/// The failures produced for `files`: metadata failures first, then size
/// failures, each in input order.
pub open spec fn failures_of(files: Seq<FileProbe>, limit: u64) -> Seq<(Seq<char>, Seq<char>)> {
    meta_failures(files) + fold_batches(sized_of(files), limit).failed
}

/// Sum of the sizes in one batch.
pub open spec fn sum_sizes(batch: Seq<(Seq<char>, u64)>) -> int
    decreases batch.len(),
{
    if batch.len() == 0 {
        0
    } else {
        sum_sizes(batch.drop_last()) + batch.last().1
    }
}

/// The size failures among `entries`, in order.
pub open spec fn oversize_failures(entries: Seq<(Seq<char>, u64)>, limit: u64) -> Seq<
    (Seq<char>, Seq<char>),
>
    decreases entries.len(),
{
    if entries.len() == 0 {
        seq![]
    } else {
        oversize_failures(entries.drop_last(), limit) + if entries.last().1 > limit {
            seq![(entries.last().0, too_large_text(entries.last().1, limit))]
        } else {
            seq![]
        }
    }
}

/// The entries that fit the limit on their own, in order.
pub open spec fn fitting_entries(entries: Seq<(Seq<char>, u64)>, limit: u64) -> Seq<
    (Seq<char>, u64),
>
    decreases entries.len(),
{
    if entries.len() == 0 {
        seq![]
    } else {
        fitting_entries(entries.drop_last(), limit) + if entries.last().1 <= limit {
            seq![entries.last()]
        } else {
            seq![]
        }
    }
}

/// All batches flattened, in order.
pub open spec fn concat_batches(bs: Seq<Seq<(Seq<char>, u64)>>) -> Seq<(Seq<char>, u64)>
    decreases bs.len(),
{
    if bs.len() == 0 {
        seq![]
    } else {
        concat_batches(bs.drop_last()) + bs.last()
    }
}

/// A batch is well-formed under `limit` when it is non-empty, every member
/// fits the limit on its own, and the members together fit the limit.
pub open spec fn batch_fits(batch: Seq<(Seq<char>, u64)>, limit: u64) -> bool {
    &&& batch.len() > 0
    &&& sum_sizes(batch) <= limit
    &&& forall|k: int| 0 <= k < batch.len() ==> (#[trigger] batch[k]).1 <= limit
}

/// Through the whole fold: the open batch's recorded size is its true sum
/// and stays under the limit, every closed batch is well-formed, every
/// member of the open batch fits, and the failure list is exactly the
/// oversized entries.
proof fn lemma_fold_batches_invariant(entries: Seq<(Seq<char>, u64)>, limit: u64)
    ensures
        ({
            let acc = fold_batches(entries, limit);
            &&& 0 <= acc.cur_size <= limit
            &&& acc.cur_size == sum_sizes(acc.cur)
            &&& forall|b: int| 0 <= b < acc.done.len() ==> batch_fits(#[trigger] acc.done[b], limit)
            &&& forall|k: int| 0 <= k < acc.cur.len() ==> (#[trigger] acc.cur[k]).1 <= limit
            &&& acc.failed == oversize_failures(entries, limit)
        }),
    decreases entries.len(),
{
    if entries.len() > 0 {
        lemma_fold_batches_invariant(entries.drop_last(), limit);
        let prev = fold_batches(entries.drop_last(), limit);
        let size = entries.last().1;
        if size > limit {
        } else if prev.cur_size + size > limit {
            let single = seq![(entries.last().0, size)];
            assert(single.drop_last() =~= Seq::<(Seq<char>, u64)>::empty());
            assert(sum_sizes(single.drop_last()) == 0);
            assert(sum_sizes(single) == size);
            assert(prev.cur.len() > 0);
        } else {
            let cur2 = prev.cur.push((entries.last().0, size));
            assert(cur2.drop_last() =~= prev.cur);
            assert(sum_sizes(cur2) == prev.cur_size + size);
        }
    }
}

/// Every batch the batcher returns is non-empty, keeps each member under
/// the limit, and keeps the sum of its members under the limit.
pub proof fn lemma_every_batch_fits(files: Seq<FileProbe>, limit: u64)
    ensures
        forall|b: int|
            0 <= b < sized_batches_of(files, limit).len() ==> batch_fits(
                #[trigger] sized_batches_of(files, limit)[b],
                limit,
            ),
{
    lemma_fold_batches_invariant(sized_of(files), limit);
}

/// The failure list is exactly the files without readable metadata
/// followed by the oversized files, each in input order and each with its
/// rendered reason.
pub proof fn lemma_failures_exact(files: Seq<FileProbe>, limit: u64)
    ensures
        failures_of(files, limit) == meta_failures(files) + oversize_failures(
            sized_of(files),
            limit,
        ),
{
    lemma_fold_batches_invariant(sized_of(files), limit);
}

/// An oversized entry is a member of the oversize failure list.
proof fn lemma_oversize_failures_member(entries: Seq<(Seq<char>, u64)>, limit: u64, j: int)
    requires
        0 <= j < entries.len(),
        entries[j].1 > limit,
    ensures
        oversize_failures(entries, limit).contains(
            (entries[j].0, too_large_text(entries[j].1, limit)),
        ),
    decreases entries.len(),
{
    let fs = oversize_failures(entries, limit);
    if j == entries.len() - 1 {
        assert(fs[fs.len() - 1] == (entries[j].0, too_large_text(entries[j].1, limit)));
    } else {
        lemma_oversize_failures_member(entries.drop_last(), limit, j);
        let prev = oversize_failures(entries.drop_last(), limit);
        let pair = (entries.drop_last()[j].0, too_large_text(entries.drop_last()[j].1, limit));
        let k = choose|k: int| 0 <= k < prev.len() && prev[k] == pair;
        assert(fs[k] == pair);
        assert(entries.drop_last()[j] == entries[j]);
    }
}

/// An oversized entry always appears in the failure list with its size
/// comparison, and never appears in any batch.
pub proof fn lemma_oversized_rejected(files: Seq<FileProbe>, limit: u64, j: int)
    requires
        0 <= j < sized_of(files).len(),
        sized_of(files)[j].1 > limit,
    ensures
        failures_of(files, limit).contains(
            (sized_of(files)[j].0, too_large_text(sized_of(files)[j].1, limit)),
        ),
        forall|b: int, k: int|
            0 <= b < sized_batches_of(files, limit).len() && 0 <= k < sized_batches_of(
                files,
                limit,
            )[b].len() ==> (#[trigger] sized_batches_of(files, limit)[b][k]).1 <= limit,
{
    lemma_fold_batches_invariant(sized_of(files), limit);
    lemma_oversize_failures_member(sized_of(files), limit, j);
    lemma_failures_exact(files, limit);
    let over = oversize_failures(sized_of(files), limit);
    let pair = (sized_of(files)[j].0, too_large_text(sized_of(files)[j].1, limit));
    let k = choose|k: int| 0 <= k < over.len() && over[k] == pair;
    assert(failures_of(files, limit)[meta_failures(files).len() + k] == pair);
    assert forall|b: int, k2: int|
        0 <= b < sized_batches_of(files, limit).len() && 0 <= k2 < sized_batches_of(
            files,
            limit,
        )[b].len() implies (#[trigger] sized_batches_of(files, limit)[b][k2]).1 <= limit by {
        let acc = fold_batches(sized_of(files), limit);
        if acc.cur.len() > 0 && b == acc.done.len() {
            assert(sized_batches_of(files, limit)[b] == acc.cur);
        } else {
            assert(sized_batches_of(files, limit)[b] == acc.done[b]);
            assert(batch_fits(acc.done[b], limit));
        }
    }
}

/// Through the whole fold, the closed batches and the open one together
/// hold exactly the fitting entries, in order.
proof fn lemma_fold_batches_complete(entries: Seq<(Seq<char>, u64)>, limit: u64)
    ensures
        concat_batches(fold_batches(entries, limit).done) + fold_batches(entries, limit).cur
            == fitting_entries(entries, limit),
    decreases entries.len(),
{
    if entries.len() > 0 {
        lemma_fold_batches_complete(entries.drop_last(), limit);
        lemma_fold_batches_invariant(entries.drop_last(), limit);
        let prev = fold_batches(entries.drop_last(), limit);
        let e = entries.last();
        if e.1 > limit {
            assert(concat_batches(prev.done) + prev.cur =~= fitting_entries(entries, limit));
        } else if prev.cur_size + e.1 > limit {
            assert(prev.done.push(prev.cur).drop_last() =~= prev.done);
            assert(concat_batches(prev.done.push(prev.cur)) == concat_batches(prev.done)
                + prev.cur);
            assert(concat_batches(prev.done.push(prev.cur)) + seq![e] =~= fitting_entries(
                entries,
                limit,
            ));
        } else {
            assert(concat_batches(prev.done) + prev.cur.push(e) =~= fitting_entries(
                entries,
                limit,
            ));
        }
    }
}

/// No fitting file is dropped and none is duplicated: flattening the
/// batches, in order, gives exactly the files that fit the limit, in their
/// input order.
pub proof fn lemma_batches_complete(files: Seq<FileProbe>, limit: u64)
    ensures
        concat_batches(sized_batches_of(files, limit)) == fitting_entries(
            sized_of(files),
            limit,
        ),
{
    lemma_fold_batches_complete(sized_of(files), limit);
    let acc = fold_batches(sized_of(files), limit);
    if acc.cur.len() > 0 {
        assert(acc.done.push(acc.cur).drop_last() =~= acc.done);
        assert(concat_batches(acc.done.push(acc.cur)) == concat_batches(acc.done) + acc.cur);
    } else {
        assert(concat_batches(acc.done) =~= concat_batches(acc.done) + acc.cur);
    }
}

/// The reason recorded for a file without readable metadata.
fn meta_fail_message() -> (r: String)
    ensures
        r@ == meta_fail_text(),
{
    String::from_str("failed to get metadata")
}

/// Groups `files` into delivery batches under `max_size`, in input order,
/// and collects the per-file failures: files without readable metadata
/// first, then files larger than `max_size` on their own, each with its
/// reason. The result is a function of the input alone.
pub fn chunk_files_by_size(files: &Vec<FileProbe>, max_size: u64) -> (r: (
    Vec<Vec<String>>,
    Vec<(String, String)>,
))
    ensures
        r.0.deep_view() == batches_of(files@, max_size),
        r.1.deep_view() == failures_of(files@, max_size),
{
    let n = files.len();
    let mut done: Vec<Vec<String>> = Vec::new();
    let mut cur: Vec<String> = Vec::new();
    let mut cur_size: u64 = 0;
    let mut meta_failed: Vec<(String, String)> = Vec::new();
    let mut size_failed: Vec<(String, String)> = Vec::new();
    let mut i: usize = 0;
    while i < n
        invariant
            n == files@.len(),
            i <= n,
            ({
                let acc = fold_batches(sized_of(files@.take(i as int)), max_size);
                &&& done.deep_view() == batches_paths(acc.done)
                &&& cur.deep_view() == batch_paths(acc.cur)
                &&& cur_size == acc.cur_size
                &&& size_failed.deep_view() == acc.failed
                &&& meta_failed.deep_view() == meta_failures(files@.take(i as int))
                &&& 0 <= acc.cur_size <= max_size
            }),
        decreases n - i,
    {
        proof {
            lemma_fold_batches_invariant(sized_of(files@.take(i as int)), max_size);
            assert(files@.take(i + 1).drop_last() =~= files@.take(i as int));
            assert(files@.take(i + 1).last() == files@[i as int]);
        }
        let ghost prev_entries = sized_of(files@.take(i as int));
        let ghost prev_acc = fold_batches(prev_entries, max_size);
        let f = &files[i];
        match &f.size {
            Option::None => {
                let path_c = f.path.clone();
                let reason = meta_fail_message();
                let ghost meta_pre = meta_failed;
                let ghost pc = path_c;
                let ghost rc = reason;
                meta_failed.push((path_c, reason));
                proof {
                    crate::views::lemma_deep_view_push(meta_pre, meta_failed, (pc, rc));
                    assert(sized_of(files@.take(i + 1)) =~= prev_entries);
                    assert(meta_failed.deep_view() =~= meta_failures(files@.take(i + 1)));
                }
            },
            Option::Some(sz) => {
                let sz = *sz;
                proof {
                    let entries2 = sized_of(files@.take(i + 1));
                    assert(entries2 =~= prev_entries.push((files@[i as int].path@, sz)));
                    assert(entries2.drop_last() =~= prev_entries);
                    assert(entries2.last() == (files@[i as int].path@, sz));
                    assert(fold_batches(entries2, max_size) == batch_step(
                        prev_acc,
                        files@[i as int].path@,
                        sz,
                        max_size,
                    ));
                    assert(meta_failures(files@.take(i + 1)) =~= meta_failures(
                        files@.take(i as int),
                    ));
                }
                if sz > max_size {
                    let path_c = f.path.clone();
                    let reason = too_large_message(sz, max_size);
                    let ghost size_pre = size_failed;
                    let ghost pc = path_c;
                    let ghost rc = reason;
                    size_failed.push((path_c, reason));
                    proof {
                        crate::views::lemma_deep_view_push(size_pre, size_failed, (pc, rc));
                        assert(size_failed.deep_view() =~= fold_batches(
                            sized_of(files@.take(i + 1)),
                            max_size,
                        ).failed);
                    }
                } else if sz > max_size - cur_size {
                    let ghost done_pre = done;
                    let ghost cur_pre = cur;
                    let sealed = cur;
                    cur = Vec::new();
                    done.push(sealed);
                    let path_c = f.path.clone();
                    let ghost pc = path_c;
                    let ghost cur_mid = cur;
                    cur.push(path_c);
                    cur_size = sz;
                    proof {
                        let acc2 = fold_batches(sized_of(files@.take(i + 1)), max_size);
                        assert(acc2.done == prev_acc.done.push(prev_acc.cur));
                        crate::views::lemma_deep_view_push(done_pre, done, cur_pre);
                        assert(done.deep_view() =~= batches_paths(acc2.done));
                        crate::views::lemma_deep_view_push(cur_mid, cur, pc);
                        assert(cur_mid.deep_view() =~= Seq::<Seq<char>>::empty());
                        assert(cur.deep_view() =~= batch_paths(acc2.cur));
                    }
                } else {
                    let path_c = f.path.clone();
                    let ghost pc = path_c;
                    let ghost cur_pre = cur;
                    cur.push(path_c);
                    cur_size = cur_size + sz;
                    proof {
                        let acc2 = fold_batches(sized_of(files@.take(i + 1)), max_size);
                        assert(acc2.cur == prev_acc.cur.push((files@[i as int].path@, sz)));
                        crate::views::lemma_deep_view_push(cur_pre, cur, pc);
                        assert(cur.deep_view() =~= batch_paths(acc2.cur));
                    }
                }
            },
        }
        i += 1;
    }
    proof {
        assert(files@.take(n as int) =~= files@);
    }
    let ghost acc = fold_batches(sized_of(files@), max_size);
    if cur.len() > 0 {
        let ghost done_pre = done;
        let ghost cur_g = cur;
        done.push(cur);
        proof {
            assert(sealed_batches(acc) == acc.done.push(acc.cur));
            crate::views::lemma_deep_view_push(done_pre, done, cur_g);
            assert(done.deep_view() =~= batches_paths(sealed_batches(acc)));
        }
    } else {
        proof {
            assert(batch_paths(acc.cur).len() == 0);
            assert(sealed_batches(acc) == acc.done);
        }
    }
    let ghost meta_g = meta_failed;
    let ghost size_g = size_failed;
    let mut failures = meta_failed;
    let mut rest = size_failed;
    failures.append(&mut rest);
    proof {
        crate::views::lemma_deep_view_concat(meta_g, size_g, failures);
        assert(failures.deep_view() =~= failures_of(files@, max_size));
    }
    (done, failures)
}

} // verus!
