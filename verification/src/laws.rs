//! The guarantees the dual-window buffer gives across whole runs: bounded
//! retention while idle, exactly one window per accepted trigger with the
//! exact length and contents, arrival order preserved inside a window, and
//! triggers ignored while a capture is in flight. Each law is stated over
//! [`BufModel`] and the model's step functions, which the buffer's method
//! contracts tie exactly to the executable machine.

use vstd::prelude::*;

use crate::buffer::{
    model_wf, ring_evict_push, step_frame, step_trigger, BufModel, WindowModel,
};
use crate::frame::{ImageData, KalmanEstimateRow};

verus! {

/// Feeding a sequence of frames one by one: the final state and the windows
/// emitted along the way, in order of emission.
pub open spec fn feed_frames(m: BufModel, fs: Seq<ImageData>) -> (BufModel, Seq<WindowModel>)
    decreases fs.len(),
{
    if fs.len() == 0 {
        (m, Seq::empty())
    } else {
        let (m1, w) = step_frame(m, fs[0]);
        let (m2, ws) = feed_frames(m1, fs.drop_first());
        (
            m2,
            match w {
                Some(wm) => seq![wm] + ws,
                None => ws,
            },
        )
    }
}

/// The at most `cap` most recent elements of `s`.
pub open spec fn last_n(s: Seq<ImageData>, cap: nat) -> Seq<ImageData> {
    if s.len() <= cap {
        s
    } else {
        s.skip(s.len() - cap)
    }
}

/// Smaller of two lengths.
pub open spec fn min_nat(a: nat, b: nat) -> nat {
    if a <= b {
        a
    } else {
        b
    }
}

/// Eviction-then-push keeps exactly the most recent frames.
proof fn lemma_evict_push_is_last_n(r: Seq<ImageData>, cap: nat, f: ImageData)
    requires
        r.len() <= cap,
    ensures
        ring_evict_push(r, cap, f) =~= last_n(r.push(f), cap),
{
}

/// Taking the most recent `cap` frames commutes with later arrivals.
proof fn lemma_last_n_append(s: Seq<ImageData>, t: Seq<ImageData>, cap: nat)
    ensures
        last_n(last_n(s, cap) + t, cap) =~= last_n(s + t, cap),
{
}

/// While idle and alive, a run of frames emits no window and leaves exactly
/// the most recent `n_before` of everything seen in the ring.
pub proof fn lemma_feed_idle(m: BufModel, fs: Seq<ImageData>)
    requires
        model_wf(m),
        !m.capturing,
        !m.killed,
    ensures
        ({
            let (m2, ws) = feed_frames(m, fs);
            &&& ws =~= Seq::<WindowModel>::empty()
            &&& m2 =~= (BufModel { ring: last_n(m.ring + fs, m.n_before), ..m })
            &&& model_wf(m2)
        }),
    decreases fs.len(),
{
    if fs.len() == 0 {
        assert(m.ring + fs =~= m.ring);
        assert(last_n(m.ring + fs, m.n_before) =~= m.ring);
    } else {
        let f = fs[0];
        let (m1, w) = step_frame(m, f);
        lemma_evict_push_is_last_n(m.ring, m.n_before, f);
        assert(m.ring.push(f) =~= m.ring + seq![f]);
        assert(m1.ring =~= last_n(m.ring + seq![f], m.n_before));
        lemma_feed_idle(m1, fs.drop_first());
        let (m2, ws) = feed_frames(m1, fs.drop_first());
        lemma_last_n_append(m.ring + seq![f], fs.drop_first(), m.n_before);
        assert((m.ring + seq![f]) + fs.drop_first() =~= m.ring + fs);
        assert(m2.ring =~= last_n(m.ring + fs, m.n_before));
    }
}

/// Law: for any run of N frames with no trigger, a fresh buffer retains
/// exactly the `min(N, n_before)` most recent frames and emits nothing.
/// Because this holds of every such run, it holds of every prefix of a run:
/// the ring never exceeds that count at any point.
pub proof fn lemma_no_trigger_retains_most_recent(m: BufModel, fs: Seq<ImageData>)
    requires
        model_wf(m),
        !m.capturing,
        !m.killed,
        m.ring == Seq::<ImageData>::empty(),
    ensures
        ({
            let (m2, ws) = feed_frames(m, fs);
            &&& ws =~= Seq::<WindowModel>::empty()
            &&& m2.ring.len() == min_nat(fs.len(), m.n_before)
            &&& m2.ring =~= fs.skip(fs.len() - min_nat(fs.len(), m.n_before))
        }),
{
    lemma_feed_idle(m, fs);
    assert(m.ring + fs =~= fs);
    let (m2, ws) = feed_frames(m, fs);
    assert(m2.ring =~= last_n(fs, m.n_before));
    if fs.len() <= m.n_before {
        assert(fs.skip(0) =~= fs);
    }
}

/// While capturing and alive, feeding exactly the owed number of frames
/// emits exactly one window - the accumulated prefix followed by those
/// frames - and resets the machine to idle with a fresh empty ring.
pub proof fn lemma_feed_capturing(m: BufModel, fs: Seq<ImageData>)
    requires
        model_wf(m),
        m.capturing,
        !m.killed,
        fs.len() == m.remaining,
    ensures
        ({
            let (m2, ws) = feed_frames(m, fs);
            &&& ws.len() == 1
            &&& ws[0].frames =~= m.acc + fs
            &&& ws[0].tag == m.tag
            &&& m2 =~= (BufModel {
                capturing: false,
                ring: Seq::<ImageData>::empty(),
                acc: Seq::<ImageData>::empty(),
                remaining: m.n_after,
                ..m
            })
            &&& model_wf(m2)
        }),
    decreases fs.len(),
{
    let f = fs[0];
    let (m1, w) = step_frame(m, f);
    if m.remaining <= 1 {
        assert(w == Some(WindowModel { frames: m.acc.push(f), tag: m.tag }));
        lemma_feed_idle(m1, fs.drop_first());
        let (m2, ws) = feed_frames(m1, fs.drop_first());
        assert(ws =~= Seq::<WindowModel>::empty());
        assert(m.acc.push(f) =~= m.acc + fs);
        assert(m1.ring + fs.drop_first() =~= Seq::<ImageData>::empty());
        assert((seq![w->Some_0] + ws)[0] == w->Some_0);
        assert(m2 =~= m1);
    } else {
        lemma_feed_capturing(m1, fs.drop_first());
        let (m2, ws) = feed_frames(m1, fs.drop_first());
        assert(m1.acc + fs.drop_first() =~= m.acc + fs);
    }
}

/// Law: no truncation and no premature completion: while a capture is in
/// flight, a run of fewer frames than are still owed emits nothing; the
/// frames join the window under construction, in order, under the original
/// tag.
pub proof fn lemma_capture_never_completes_early(m: BufModel, fs: Seq<ImageData>)
    requires
        model_wf(m),
        m.capturing,
        !m.killed,
        fs.len() < m.remaining,
    ensures
        ({
            let (m2, ws) = feed_frames(m, fs);
            &&& ws =~= Seq::<WindowModel>::empty()
            &&& m2.capturing
            &&& m2.acc =~= m.acc + fs
            &&& m2.remaining == m.remaining - fs.len()
            &&& m2.tag == m.tag
            &&& model_wf(m2)
        }),
    decreases fs.len(),
{
    if fs.len() == 0 {
        assert(m.acc + fs =~= m.acc);
    } else {
        let (m1, w) = step_frame(m, fs[0]);
        lemma_capture_never_completes_early(m1, fs.drop_first());
        assert(m1.acc + fs.drop_first() =~= m.acc + fs);
    }
}

/// Law: exactly one window is emitted per accepted trigger, of length
/// precisely `min(b, n_before) + n_after` where `b` is the number of frames
/// received before the trigger; its frames are the retained pre-trigger
/// frames followed by the post-trigger frames, and its tag is the trigger's.
pub proof fn lemma_one_window_per_trigger(
    m0: BufModel,
    before: Seq<ImageData>,
    row: KalmanEstimateRow,
    after: Seq<ImageData>,
)
    requires
        model_wf(m0),
        !m0.capturing,
        !m0.killed,
        m0.ring == Seq::<ImageData>::empty(),
        after.len() == m0.n_after,
    ensures
        ({
            let m1 = feed_frames(m0, before).0;
            let m2 = step_trigger(m1, row);
            let (m3, ws) = feed_frames(m2, after);
            &&& feed_frames(m0, before).1 =~= Seq::<WindowModel>::empty()
            &&& ws.len() == 1
            &&& ws[0].frames =~= last_n(before, m0.n_before) + after
            &&& ws[0].frames.len() == min_nat(before.len(), m0.n_before) + m0.n_after
            &&& ws[0].tag == row
            &&& !m3.capturing
            &&& m3.ring =~= Seq::<ImageData>::empty()
            &&& model_wf(m3)
        }),
{
    lemma_feed_idle(m0, before);
    let m1 = feed_frames(m0, before).0;
    assert(m0.ring + before =~= before);
    let m2 = step_trigger(m1, row);
    assert(m2.capturing && !m2.killed && m2.remaining == m0.n_after);
    assert(m2.acc =~= last_n(before, m0.n_before));
    lemma_feed_capturing(m2, after);
}

/// Sequence numbers never decrease along `s`.
pub open spec fn seq_nondecreasing(s: Seq<ImageData>) -> bool {
    forall|i: int, j: int|
        0 <= i <= j < s.len() ==> s[i].acq_nframe <= s[j].acq_nframe
}

/// Law: frame order within an emitted window equals arrival order. If the
/// frames arrive with non-decreasing sequence numbers, the one window that a
/// trigger produces lists non-decreasing sequence numbers too.
pub proof fn lemma_window_preserves_arrival_order(
    m0: BufModel,
    before: Seq<ImageData>,
    row: KalmanEstimateRow,
    after: Seq<ImageData>,
)
    requires
        model_wf(m0),
        !m0.capturing,
        !m0.killed,
        m0.ring == Seq::<ImageData>::empty(),
        after.len() == m0.n_after,
        seq_nondecreasing(before + after),
    ensures
        ({
            let m1 = feed_frames(m0, before).0;
            let (m3, ws) = feed_frames(step_trigger(m1, row), after);
            &&& ws.len() == 1
            &&& seq_nondecreasing(ws[0].frames)
        }),
{
    lemma_one_window_per_trigger(m0, before, row, after);
    let m1 = feed_frames(m0, before).0;
    let (m3, ws) = feed_frames(step_trigger(m1, row), after);
    let win = ws[0].frames;
    let all = before + after;
    let d = before.len() - last_n(before, m0.n_before).len();
    assert forall|i: int, j: int| 0 <= i <= j < win.len() implies win[i].acq_nframe
        <= win[j].acq_nframe by {
        assert(win[i] == all[i + d]);
        assert(win[j] == all[j + d]);
    }
}

/// Law: once killed, the machine is inert: no run of frames changes its
/// state or emits a window, so nothing starts after a shutdown flush.
pub proof fn lemma_killed_machine_is_inert(m: BufModel, fs: Seq<ImageData>)
    requires
        m.killed,
    ensures
        ({
            let (m2, ws) = feed_frames(m, fs);
            &&& m2 == m
            &&& ws =~= Seq::<WindowModel>::empty()
        }),
    decreases fs.len(),
{
    if fs.len() > 0 {
        lemma_killed_machine_is_inert(m, fs.drop_first());
    }
}

/// Law: a trigger arriving while `Capturing` does not alter the machine's
/// state, so the in-flight window's eventual length and tag are exactly what
/// they would have been without it.
pub proof fn lemma_trigger_while_capturing_ignored(
    m: BufModel,
    row: KalmanEstimateRow,
    fs: Seq<ImageData>,
)
    requires
        m.capturing,
    ensures
        step_trigger(m, row) == m,
        feed_frames(step_trigger(m, row), fs) == feed_frames(m, fs),
{
}

} // verus!
