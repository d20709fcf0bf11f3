use ximea_camera::buffer::DualWindowBuffer;
use ximea_camera::capture::{
    capture_cycle, check_handshake_reply, handshake_ack, handshake_greeting, kill_word,
};
use ximea_camera::classifier::{parse_message, MessageType};
use ximea_camera::frame::{ImageData, KalmanEstimateRow};
use ximea_camera::get_offset_for_resolution;

fn frame(seq: u32) -> ImageData {
    ImageData {
        data: vec![0],
        width: 1,
        height: 1,
        nframe: seq,
        acq_nframe: seq,
        timestamp_raw: seq as u64,
        exposure_time: 50,
    }
}

#[test]
fn cycle_runs_trigger_then_frames_to_window() {
    let mut buf = DualWindowBuffer::new(2, 2);
    let quiet = MessageType::Empty;
    assert!(capture_cycle(&mut buf, &quiet, frame(1)).window.is_none());
    assert!(capture_cycle(&mut buf, &quiet, frame(2)).window.is_none());
    let trigger = parse_message(r#"{"obj_id": 5, "frame": 2}"#);
    let out = capture_cycle(&mut buf, &trigger, frame(3));
    assert!(!out.kill);
    assert!(out.window.is_none());
    let out = capture_cycle(&mut buf, &quiet, frame(4));
    let w = out.window.expect("window must complete");
    let seqs: Vec<u32> = w.frames.iter().map(|f| f.acq_nframe).collect();
    assert_eq!(seqs, vec![1, 2, 3, 4]);
    assert_eq!(w.tag, KalmanEstimateRow { obj_id: 5, frame: 2 });
}

#[test]
fn kill_mid_stream_flushes_and_stops() {
    let mut buf = DualWindowBuffer::new(2, 3);
    let quiet = MessageType::Empty;
    capture_cycle(&mut buf, &quiet, frame(1));
    let trigger = parse_message(r#"{"obj_id": 1}"#);
    capture_cycle(&mut buf, &trigger, frame(2));
    let kill = parse_message("kill");
    let out = capture_cycle(&mut buf, &kill, frame(3));
    assert!(out.kill);
    // The in-flight window is flushed; the kill cycle's frame is not appended.
    let w = out.window.expect("flush must hand out the in-flight window");
    let seqs: Vec<u32> = w.frames.iter().map(|f| f.acq_nframe).collect();
    assert_eq!(seqs, vec![1, 2]);
    assert!(buf.is_killed());
    // No new window starts after the kill.
    let after = capture_cycle(&mut buf, &quiet, frame(4));
    assert!(!after.kill);
    assert!(after.window.is_none());
    assert_eq!(buf.ring_len(), 0);
    assert!(!buf.is_capturing());
}

#[test]
fn malformed_message_leaves_buffer_state_alone() {
    let mut buf = DualWindowBuffer::new(3, 1);
    let quiet = MessageType::Empty;
    capture_cycle(&mut buf, &quiet, frame(1));
    // Valid JSON, wrong shape: discarded, the frame still joins the ring.
    let malformed = parse_message(r#"{"obj_id": "x"}"#);
    assert!(matches!(malformed, MessageType::InvalidJson(_, _)));
    let out = capture_cycle(&mut buf, &malformed, frame(2));
    assert!(!out.kill);
    assert!(out.window.is_none());
    assert!(!buf.is_capturing());
    assert_eq!(buf.ring_len(), 2);
    // Broken syntax: plain text other than the kill word, same story.
    let garbled = parse_message("{oops");
    assert!(matches!(garbled, MessageType::Text(_)));
    let out = capture_cycle(&mut buf, &garbled, frame(3));
    assert!(!out.kill);
    assert_eq!(buf.ring_len(), 3);
}

#[test]
fn handshake_strings_are_exact() {
    assert_eq!(handshake_greeting(), "Hello");
    assert_eq!(handshake_ack(), "Welcome");
    assert!(check_handshake_reply(&handshake_ack()));
    assert!(check_handshake_reply("Welcome"));
    assert!(!check_handshake_reply("Welcome "));
    assert!(!check_handshake_reply("welcome"));
    assert!(!check_handshake_reply(""));
    assert_eq!(kill_word(), "kill");
}

#[test]
fn offsets_center_and_align() {
    // Already aligned: (4704 - 2016) / 2 = 1344 = 42 * 32.
    assert_eq!(get_offset_for_resolution((4704, 3424), 2016, 2016), Ok((1344, 704)));
    // Rounded up to the next multiple of 32: (100 - 50) / 2 = 25 -> 32.
    assert_eq!(get_offset_for_resolution((100, 100), 50, 50), Ok((32, 32)));
    // A perfectly fitting region needs no offset.
    assert_eq!(get_offset_for_resolution((640, 480), 640, 480), Ok((0, 0)));
}
