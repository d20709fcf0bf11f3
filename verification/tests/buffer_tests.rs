use ximea_camera::buffer::DualWindowBuffer;
use ximea_camera::frame::{ImageData, KalmanEstimateRow};

fn frame(seq: u32) -> ImageData {
    ImageData {
        data: vec![seq as u8],
        width: 4,
        height: 4,
        nframe: seq,
        acq_nframe: seq,
        timestamp_raw: seq as u64 * 10,
        exposure_time: 100,
    }
}

fn seqs(frames: &[ImageData]) -> Vec<u32> {
    frames.iter().map(|f| f.acq_nframe).collect()
}

#[test]
fn no_trigger_retains_most_recent() {
    let mut buf = DualWindowBuffer::new(3, 1);
    for i in 1..=5u32 {
        let w = buf.push_frame(frame(i));
        assert!(w.is_none());
        assert!(buf.ring_len() <= 3);
        assert_eq!(buf.ring_len(), (i as usize).min(3));
    }
    assert!(!buf.is_capturing());
}

#[test]
fn two_before_two_after_evicts_oldest() {
    let mut buf = DualWindowBuffer::new(2, 2);
    assert!(buf.push_frame(frame(1)).is_none());
    assert!(buf.push_frame(frame(2)).is_none());
    assert!(buf.push_frame(frame(3)).is_none());
    let tag = KalmanEstimateRow { obj_id: 9, frame: 3 };
    buf.on_trigger(tag);
    assert!(buf.is_capturing());
    assert!(buf.push_frame(frame(4)).is_none());
    let w = buf.push_frame(frame(5)).expect("window must complete");
    assert_eq!(seqs(&w.frames), vec![2, 3, 4, 5]);
    assert_eq!(w.tag, tag);
    assert!(!buf.is_capturing());
    assert_eq!(buf.ring_len(), 0);
}

#[test]
fn trigger_on_empty_ring_gives_post_only_window() {
    let mut buf = DualWindowBuffer::new(2, 2);
    let tag = KalmanEstimateRow { obj_id: 1, frame: 1 };
    buf.on_trigger(tag);
    assert!(buf.push_frame(frame(10)).is_none());
    let w = buf.push_frame(frame(11)).expect("window must complete");
    assert_eq!(seqs(&w.frames), vec![10, 11]);
    assert_eq!(w.tag, tag);
}

#[test]
fn window_length_is_before_actual_plus_after() {
    let mut buf = DualWindowBuffer::new(5, 3);
    buf.push_frame(frame(1));
    buf.push_frame(frame(2));
    let tag = KalmanEstimateRow { obj_id: 2, frame: 2 };
    buf.on_trigger(tag);
    buf.push_frame(frame(3));
    buf.push_frame(frame(4));
    let w = buf.push_frame(frame(5)).expect("window must complete");
    assert_eq!(w.frames.len(), 2 + 3);
    assert_eq!(seqs(&w.frames), vec![1, 2, 3, 4, 5]);
}

#[test]
fn trigger_while_capturing_is_ignored() {
    let mut buf = DualWindowBuffer::new(1, 3);
    buf.push_frame(frame(1));
    let first = KalmanEstimateRow { obj_id: 5, frame: 1 };
    buf.on_trigger(first);
    buf.push_frame(frame(2));
    let second = KalmanEstimateRow { obj_id: 6, frame: 2 };
    buf.on_trigger(second);
    buf.push_frame(frame(3));
    let w = buf.push_frame(frame(4)).expect("window must complete");
    assert_eq!(w.tag, first);
    assert_eq!(seqs(&w.frames), vec![1, 2, 3, 4]);
}

#[test]
fn completed_window_resets_to_fresh_ring() {
    let mut buf = DualWindowBuffer::new(2, 1);
    for i in 1..=4u32 {
        buf.push_frame(frame(i));
    }
    let tag = KalmanEstimateRow { obj_id: 3, frame: 4 };
    buf.on_trigger(tag);
    let w = buf.push_frame(frame(5)).expect("window must complete");
    assert_eq!(seqs(&w.frames), vec![3, 4, 5]);
    // The ring restarts empty: only one frame precedes the second trigger.
    buf.push_frame(frame(6));
    let tag2 = KalmanEstimateRow { obj_id: 3, frame: 6 };
    buf.on_trigger(tag2);
    let w2 = buf.push_frame(frame(7)).expect("window must complete");
    assert_eq!(seqs(&w2.frames), vec![6, 7]);
    assert_eq!(w2.tag, tag2);
}

#[test]
fn window_order_is_arrival_order() {
    let mut buf = DualWindowBuffer::new(4, 2);
    for i in [2u32, 2, 3, 7] {
        buf.push_frame(frame(i));
    }
    buf.on_trigger(KalmanEstimateRow { obj_id: 1, frame: 7 });
    buf.push_frame(frame(7));
    let w = buf.push_frame(frame(9)).expect("window must complete");
    let s = seqs(&w.frames);
    for pair in s.windows(2) {
        assert!(pair[0] <= pair[1]);
    }
}

#[test]
fn flush_hands_out_in_flight_window_and_kills() {
    let mut buf = DualWindowBuffer::new(2, 5);
    buf.push_frame(frame(1));
    let tag = KalmanEstimateRow { obj_id: 8, frame: 1 };
    buf.on_trigger(tag);
    buf.push_frame(frame(2));
    let w = buf.flush();
    assert_eq!(seqs(&w.frames), vec![1, 2]);
    assert_eq!(w.tag, tag);
    assert!(buf.is_killed());
    // Dead machine: further input changes nothing and emits nothing.
    assert!(buf.push_frame(frame(3)).is_none());
    assert_eq!(buf.ring_len(), 0);
    assert!(!buf.is_capturing());
}

#[test]
fn flush_while_idle_is_empty_default_window() {
    let mut buf = DualWindowBuffer::new(2, 2);
    buf.push_frame(frame(1));
    let w = buf.flush();
    assert!(w.frames.is_empty());
    assert_eq!(w.tag, KalmanEstimateRow { obj_id: 0, frame: 0 });
    assert!(buf.is_killed());
}
