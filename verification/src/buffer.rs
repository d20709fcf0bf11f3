//! The dual-window buffer: the state machine at the heart of the capture
//! pipeline. While `Idle` it keeps a bounded FIFO ring of the most recent
//! frames (capacity `n_before`, oldest evicted first); an accepted trigger
//! freezes the ring's contents as the window's "before" prefix and switches
//! to `Capturing`, during which exactly `n_after` further frames are
//! appended; the completed window is then emitted and the machine returns to
//! `Idle` with a fresh empty ring. A trigger that arrives while `Capturing`
//! is ignored, and after a kill the machine accepts no further input.
//!
//! The machine is exclusively owned and driven by one thread; every
//! transition is specified against the mathematical model [`BufModel`].

use vstd::prelude::*;

use crate::frame::{ImageData, KalmanEstimateRow, Window};
use std::collections::VecDeque;

verus! {

/// The mathematical state of the buffer: what the contracts and the laws
/// speak about.
#[verifier::ext_equal]
pub ghost struct BufModel {
    /// Capacity of the pre-trigger ring.
    pub n_before: nat,
    /// Number of frames appended after an accepted trigger.
    pub n_after: nat,
    /// False: `Idle`, accumulating the ring. True: `Capturing`.
    pub capturing: bool,
    /// The pre-trigger ring, oldest first (empty while capturing).
    pub ring: Seq<ImageData>,
    /// The window under construction: before-prefix plus captured frames
    /// (empty while idle).
    pub acc: Seq<ImageData>,
    /// Frames still owed to the window under construction.
    pub remaining: nat,
    /// The trigger that opened the window under construction.
    pub tag: KalmanEstimateRow,
    /// Once set, no input changes the state any more.
    pub killed: bool,
}

/// A completed window as the model sees it.
#[verifier::ext_equal]
pub ghost struct WindowModel {
    pub frames: Seq<ImageData>,
    pub tag: KalmanEstimateRow,
}

/// The ring's reaction to one more frame: the oldest frame leaves when the
/// ring is at capacity, so it never holds more than `cap` frames.
pub open spec fn ring_evict_push(ring: Seq<ImageData>, cap: nat, f: ImageData) -> Seq<ImageData> {
    if cap == 0 {
        Seq::empty()
    } else if ring.len() < cap {
        ring.push(f)
    } else {
        ring.drop_first().push(f)
    }
}

/// One frame arrives. Idle: it joins the ring. Capturing: it joins the
/// window under construction, and the window is emitted when the frame is
/// the last one owed; the machine then holds a fresh empty ring.
pub open spec fn step_frame(m: BufModel, f: ImageData) -> (BufModel, Option<WindowModel>) {
    if m.killed {
        (m, None)
    } else if !m.capturing {
        (BufModel { ring: ring_evict_push(m.ring, m.n_before, f), ..m }, None)
    } else if m.remaining <= 1 {
        (
            BufModel {
                capturing: false,
                ring: Seq::empty(),
                acc: Seq::empty(),
                remaining: m.n_after,
                ..m
            },
            Some(WindowModel { frames: m.acc.push(f), tag: m.tag }),
        )
    } else {
        (BufModel { acc: m.acc.push(f), remaining: (m.remaining - 1) as nat, ..m }, None)
    }
}

/// A trigger arrives. Accepted only while idle and alive: the ring becomes
/// the window's before-prefix and capture begins. While capturing the
/// trigger is ignored outright.
pub open spec fn step_trigger(m: BufModel, row: KalmanEstimateRow) -> BufModel {
    if m.killed || m.capturing {
        m
    } else {
        BufModel {
            capturing: true,
            ring: Seq::empty(),
            acc: m.ring,
            remaining: m.n_after,
            tag: row,
            ..m
        }
    }
}

/// The shutdown flush: whatever window is in flight (possibly empty, with
/// the default tag when no capture was running), and a dead machine.
pub open spec fn step_flush(m: BufModel) -> (BufModel, WindowModel) {
    (
        BufModel { capturing: false, ring: Seq::empty(), acc: Seq::empty(), remaining: m.n_after, killed: true, ..m },
        if m.capturing && !m.killed {
            WindowModel { frames: m.acc, tag: m.tag }
        } else {
            WindowModel { frames: Seq::empty(), tag: KalmanEstimateRow { obj_id: 0, frame: 0 } }
        },
    )
}

/// The states the machine can actually be in.
pub open spec fn model_wf(m: BufModel) -> bool {
    &&& m.n_after >= 1
    &&& m.n_before + m.n_after <= usize::MAX
    &&& (!m.capturing ==> m.ring.len() <= m.n_before && m.acc.len() == 0 && m.remaining == m.n_after)
    &&& (m.capturing ==> {
        &&& 1 <= m.remaining <= m.n_after
        &&& m.ring.len() == 0
        &&& m.n_after - m.remaining <= m.acc.len()
        &&& m.acc.len() + m.remaining <= m.n_before + m.n_after
    })
}

/// An emitted window agrees with the model's.
pub open spec fn emits_like(w: Option<Window>, wm: Option<WindowModel>) -> bool {
    match (w, wm) {
        (Some(win), Some(m)) => win.frames@ == m.frames && win.tag == m.tag,
        (None, None) => true,
        _ => false,
    }
}

/// The dual-window buffer. See the module documentation; every public
/// method's contract is exact over [`BufModel`].
pub struct DualWindowBuffer {
    n_before: usize,
    n_after: usize,
    capturing: bool,
    ring: VecDeque<ImageData>,
    acc: Vec<ImageData>,
    remaining: usize,
    tag: KalmanEstimateRow,
    killed: bool,
}

impl DualWindowBuffer {
    /// The buffer's mathematical state.
    pub closed spec fn model(&self) -> BufModel {
        BufModel {
            n_before: self.n_before as nat,
            n_after: self.n_after as nat,
            capturing: self.capturing,
            ring: self.ring@,
            acc: self.acc@,
            remaining: self.remaining as nat,
            tag: self.tag,
            killed: self.killed,
        }
    }

    /// Well-formedness: the concrete state is one the model allows.
    pub open spec fn wf(&self) -> bool {
        model_wf(self.model())
    }

    /// A fresh idle buffer. `n_after` must be positive: a capture of zero
    /// post-trigger frames could never complete on a frame's arrival.
    pub fn new(n_before: usize, n_after: usize) -> (buf: Self)
        requires
            n_after >= 1,
            n_before + n_after <= usize::MAX,
        ensures
            buf.wf(),
            buf.model() == (BufModel {
                n_before: n_before as nat,
                n_after: n_after as nat,
                capturing: false,
                ring: Seq::<ImageData>::empty(),
                acc: Seq::<ImageData>::empty(),
                remaining: n_after as nat,
                tag: KalmanEstimateRow { obj_id: 0, frame: 0 },
                killed: false,
            }),
    {
        let buf = DualWindowBuffer {
            n_before,
            n_after,
            capturing: false,
            ring: VecDeque::new(),
            acc: Vec::new(),
            remaining: n_after,
            tag: KalmanEstimateRow { obj_id: 0, frame: 0 },
            killed: false,
        };
        proof {
            assert(buf.model() =~= BufModel {
                n_before: n_before as nat,
                n_after: n_after as nat,
                capturing: false,
                ring: Seq::<ImageData>::empty(),
                acc: Seq::<ImageData>::empty(),
                remaining: n_after as nat,
                tag: KalmanEstimateRow { obj_id: 0, frame: 0 },
                killed: false,
            });
        }
        buf
    }

    /// One frame arrives: exactly the model's [`step_frame`], and the
    /// completed window, if this frame completed one.
    pub fn push_frame(&mut self, frame: ImageData) -> (w: Option<Window>)
        requires
            old(self).wf(),
        ensures
            final(self).wf(),
            final(self).model() == step_frame(old(self).model(), frame).0,
            emits_like(w, step_frame(old(self).model(), frame).1),
    {
        if self.killed {
            return None;
        }
        if !self.capturing {
            if self.n_before == 0 {
                proof {
                    assert(self.model() =~= step_frame(old(self).model(), frame).0);
                }
                return None;
            }
            if self.ring.len() == self.n_before {
                let _evicted = self.ring.pop_front();
            }
            self.ring.push_back(frame);
            proof {
                assert(self.model() =~= step_frame(old(self).model(), frame).0);
            }
            None
        } else {
            self.acc.push(frame);
            self.remaining = self.remaining - 1;
            if self.remaining == 0 {
                let mut frames: Vec<ImageData> = Vec::new();
                core::mem::swap(&mut frames, &mut self.acc);
                self.capturing = false;
                self.remaining = self.n_after;
                let win = Window { frames, tag: self.tag };
                proof {
                    assert(self.model() =~= step_frame(old(self).model(), frame).0);
                }
                Some(win)
            } else {
                proof {
                    assert(self.model() =~= step_frame(old(self).model(), frame).0);
                }
                None
            }
        }
    }

    /// A trigger arrives: exactly the model's [`step_trigger`]. In
    /// particular, while capturing the state does not change at all.
    pub fn on_trigger(&mut self, row: KalmanEstimateRow)
        requires
            old(self).wf(),
        ensures
            final(self).wf(),
            final(self).model() == step_trigger(old(self).model(), row),
    {
        if self.killed || self.capturing {
            return;
        }
        let mut before: Vec<ImageData> = Vec::new();
        while self.ring.len() > 0
            invariant
                self.n_before == old(self).n_before,
                self.n_after == old(self).n_after,
                self.capturing == old(self).capturing,
                self.acc@ == old(self).acc@,
                self.remaining == old(self).remaining,
                self.tag == old(self).tag,
                self.killed == old(self).killed,
                before@ + self.ring@ == old(self).ring@,
            decreases self.ring@.len(),
        {
            let f = self.ring.pop_front();
            match f {
                Some(frame) => {
                    before.push(frame);
                    proof {
                        assert(before@ + self.ring@ =~= old(self).ring@);
                    }
                },
                None => {
                    // Unreachable: the ring was non-empty.
                },
            }
        }
        proof {
            assert(before@ =~= old(self).ring@);
        }
        self.acc = before;
        self.capturing = true;
        self.remaining = self.n_after;
        self.tag = row;
        proof {
            assert(self.model() =~= step_trigger(old(self).model(), row));
        }
    }

    /// The shutdown flush: hands out whatever window is in flight (possibly
    /// empty) and leaves the machine dead; no window starts after it.
    pub fn flush(&mut self) -> (w: Window)
        requires
            old(self).wf(),
        ensures
            final(self).wf(),
            final(self).model() == step_flush(old(self).model()).0,
            w.frames@ == step_flush(old(self).model()).1.frames,
            w.tag == step_flush(old(self).model()).1.tag,
    {
        let was_live_capture = self.capturing && !self.killed;
        let mut frames: Vec<ImageData> = Vec::new();
        core::mem::swap(&mut frames, &mut self.acc);
        self.ring.clear();
        self.capturing = false;
        self.remaining = self.n_after;
        self.killed = true;
        let w = if was_live_capture {
            Window { frames, tag: self.tag }
        } else {
            Window { frames: Vec::new(), tag: KalmanEstimateRow { obj_id: 0, frame: 0 } }
        };
        proof {
            assert(self.model() =~= step_flush(old(self).model()).0);
        }
        w
    }

    /// True once the buffer has been flushed or killed.
    pub fn is_killed(&self) -> (r: bool)
        ensures
            r == self.model().killed,
    {
        self.killed
    }

    /// True while a triggered window is being filled.
    pub fn is_capturing(&self) -> (r: bool)
        ensures
            r == self.model().capturing,
    {
        self.capturing
    }

    /// How many frames the pre-trigger ring currently holds.
    pub fn ring_len(&self) -> (r: usize)
        ensures
            r == self.model().ring.len(),
    {
        self.ring.len()
    }

    /// The ring's capacity: at most this many pre-trigger frames are kept.
    pub fn n_before(&self) -> (r: usize)
        ensures
            r == self.model().n_before,
    {
        self.n_before
    }

    /// How many frames follow an accepted trigger into its window.
    pub fn n_after(&self) -> (r: usize)
        ensures
            r == self.model().n_after,
    {
        self.n_after
    }
}

} // verus!
