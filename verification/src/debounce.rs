use vstd::prelude::*;

verus! {

/// Model of the debounce window over one rule's raw notification stream.
/// Notifications are taken in arrival order (times in milliseconds); one
/// arriving within `window` of its predecessor joins the predecessor's
/// batch, a later one opens a new batch. The result is how many batches
/// the stream is delivered as.
pub open spec fn batch_count_spec(times: Seq<u64>, window: u64) -> nat
    decreases times.len(),
{
    if times.len() == 0 {
        0
    } else if times.len() == 1 {
        1
    } else {
        batch_count_spec(times.drop_last(), window) + (if times[times.len() - 1] - times[
            times.len() - 2
        ] > window {
            1nat
        } else {
            0nat
        })
    }
}

/// Counts the batches that raw notifications at the given arrival times
/// (non-decreasing) are delivered as under the given debounce window.
pub fn batch_count(times: &Vec<u64>, window: u64) -> (n: usize)
    requires
        forall|i: int| 0 <= i < times@.len() - 1 ==> #[trigger] times@[i] <= times@[i + 1],
    ensures
        n == batch_count_spec(times@, window),
{
    if times.len() == 0 {
        return 0;
    }
    let mut n: usize = 1;
    let mut k: usize = 1;
    while k < times.len()
        invariant
            1 <= k <= times@.len(),
            n <= k,
            n == batch_count_spec(times@.take(k as int), window),
            forall|i: int| 0 <= i < times@.len() - 1 ==> #[trigger] times@[i] <= times@[i + 1],
        decreases times@.len() - k,
    {
        proof {
            let t = times@;
            assert(t.take(k + 1).drop_last() =~= t.take(k as int));
            assert(t.take(k + 1)[k as int] == t[k as int]);
            assert(t.take(k + 1)[k - 1] == t[k - 1]);
            assert(t[(k - 1) as int] <= t[(k - 1) as int + 1]);
        }
        if times[k] - times[k - 1] > window {
            n += 1;
        }
        k += 1;
    }
    proof {
        assert(times@.take(times@.len() as int) =~= times@);
    }
    n
}

/// Two raw notifications arriving within the debounce window collapse into
/// one delivered batch.
pub proof fn lemma_two_within_window_collapse(t0: u64, t1: u64, window: u64)
    requires
        t0 <= t1,
        t1 - t0 <= window,
    ensures
        batch_count_spec(seq![t0, t1], window) == 1,
{
    assert(seq![t0, t1].drop_last() =~= seq![t0]);
    assert(batch_count_spec(seq![t0], window) == 1);
}

/// More generally: a non-empty stream in which every notification arrives
/// within the window of its predecessor is delivered as a single batch.
pub proof fn lemma_all_within_window_one_batch(times: Seq<u64>, window: u64)
    requires
        times.len() >= 1,
        forall|i: int| 0 <= i < times.len() - 1 ==> times[i + 1] - #[trigger] times[i] <= window,
    ensures
        batch_count_spec(times, window) == 1,
    decreases times.len(),
{
    if times.len() > 1 {
        let head = times.drop_last();
        assert forall|i: int| 0 <= i < head.len() - 1 implies head[i + 1] - #[trigger] head[i]
            <= window by {
            assert(head[i] == times[i]);
            assert(head[i + 1] == times[i + 1]);
        }
        lemma_all_within_window_one_batch(head, window);
        assert(times[times.len() - 1] - times[times.len() - 2] <= window);
    }
}

} // verus!
