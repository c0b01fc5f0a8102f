//! The process-memory figures that NetBSD gives through system calls and
//! `/proc/self/task`, computed from what those calls returned.
use vstd::prelude::*;

verus! {

/// The page size when `sysconf(_SC_PAGESIZE)` fails or gives no positive
/// value.
pub const DEFAULT_PAGE_SIZE: u64 = 4096;

/// The page size from what `sysconf(_SC_PAGESIZE)` returned: that value when
/// it is positive, else 4096.
pub fn page_size_from(raw: i64) -> (r: u64)
    ensures
        r == (if raw > 0 {
            raw as u64
        } else {
            4096
        }),
        raw > 0 ==> r == raw,
{
    if raw > 0 {
        raw as u64
    } else {
        DEFAULT_PAGE_SIZE
    }
}

/// Peak resident set size in bytes from `getrusage(RUSAGE_SELF)`: its return
/// code and `ru_maxrss`, which NetBSD gives in kilobytes. None when the call
/// failed or reported a negative size; otherwise the kilobytes times 1024,
/// saturating at `u64::MAX`.
pub fn peak_rss_from(rc: i32, max_rss_kb: i64) -> (r: Option<u64>)
    ensures
        rc != 0 ==> r is None,
        rc == 0 && max_rss_kb < 0 ==> r is None,
        rc == 0 && max_rss_kb >= 0 ==> r == Some(
            if max_rss_kb * 1024 > u64::MAX {
                u64::MAX
            } else {
                (max_rss_kb * 1024) as u64
            },
        ),
{
    if rc != 0 {
        return None;
    }
    if max_rss_kb < 0 {
        return None;
    }
    let kb = max_rss_kb as u64;
    match kb.checked_mul(1024) {
        Some(bytes) => Some(bytes),
        None => Some(u64::MAX),
    }
}

/// How many of `entries` are `true`.
pub open spec fn count_true(entries: Seq<bool>) -> nat
    decreases entries.len(),
{
    if entries.len() == 0 {
        0
    } else {
        count_true(entries.drop_last()) + if entries.last() {
            1nat
        } else {
            0nat
        }
    }
}

/// `count_true` counts exactly the `true` entries: it is the length of the
/// entries filtered down to those that are `true`.
pub proof fn lemma_count_true_counts_true_entries(entries: Seq<bool>)
    ensures
        count_true(entries) == entries.filter(|b: bool| b).len(),
        count_true(entries) <= entries.len(),
    decreases entries.len(),
{
    if entries.len() > 0 {
        let rest = entries.drop_last();
        lemma_count_true_counts_true_entries(rest);
        assert(rest.push(entries.last()) =~= entries);
        rest.lemma_filter_len_push(|b: bool| b, entries.last());
    } else {
        assert(entries.filter(|b: bool| b) =~= Seq::<bool>::empty());
    }
}

/// The thread count from the entries of `/proc/self/task`, one per LWP, each
/// `true` when it was read without error: the number of such entries, or none
/// when there is not one.
pub fn thread_count_from(entries: &[bool]) -> (r: Option<u64>)
    ensures
        r is None <==> count_true(entries@) == 0,
        r matches Some(n) ==> n == count_true(entries@),
{
    let mut count: u64 = 0;
    let mut i: usize = 0;
    while i < entries.len()
        invariant
            i <= entries@.len(),
            count == count_true(entries@.take(i as int)),
            count <= i,
        decreases entries@.len() - i,
    {
        assert(entries@.take(i + 1).drop_last() =~= entries@.take(i as int));
        if entries[i] {
            count = count + 1;
        }
        i = i + 1;
    }
    assert(entries@.take(entries@.len() as int) =~= entries@);
    if count > 0 {
        Some(count)
    } else {
        None
    }
}

} // verus!
