use ximea_camera::frame::{ImageData, KalmanEstimateRow, Packet, Window};
use ximea_camera::persist::{
    csv_row, image_file_name, metadata_header, metadata_rows, plan_packet, u64_to_dec,
    window_dir_name, WorkerAction,
};

fn frame(nframe: u32, acq: u32, ts: u64, exp: u32) -> ImageData {
    ImageData {
        data: vec![1, 2, 3],
        width: 2,
        height: 2,
        nframe,
        acq_nframe: acq,
        timestamp_raw: ts,
        exposure_time: exp,
    }
}

#[test]
fn decimal_formatting_exact() {
    assert_eq!(u64_to_dec(0), "0");
    assert_eq!(u64_to_dec(7), "7");
    assert_eq!(u64_to_dec(10), "10");
    assert_eq!(u64_to_dec(1234567890), "1234567890");
    assert_eq!(u64_to_dec(u64::MAX), "18446744073709551615");
}

#[test]
fn csv_row_exact() {
    assert_eq!(csv_row(&frame(5, 6, 7, 8)), "5,6,7,8");
    assert_eq!(csv_row(&frame(0, 0, 0, 0)), "0,0,0,0");
}

#[test]
fn header_matches_layout() {
    assert_eq!(metadata_header(), "nframe,acq_nframe,timestamp_raw,exposure_time");
}

#[test]
fn metadata_rows_match_window() {
    let w = Window {
        frames: vec![frame(1, 11, 100, 9), frame(2, 12, 110, 9), frame(3, 13, 120, 9)],
        tag: KalmanEstimateRow { obj_id: 4, frame: 2 },
    };
    let rows = metadata_rows(&w);
    assert_eq!(rows.len(), w.frames.len() + 1);
    assert_eq!(rows[0], "nframe,acq_nframe,timestamp_raw,exposure_time");
    assert_eq!(rows[1], "1,11,100,9");
    assert_eq!(rows[2], "2,12,110,9");
    assert_eq!(rows[3], "3,13,120,9");
    // Row i's leading numeral is frame i's sequence number.
    for (i, row) in rows[1..].iter().enumerate() {
        let first = row.split(',').next().unwrap();
        assert_eq!(first.parse::<u32>().unwrap(), w.frames[i].nframe);
    }
}

#[test]
fn directory_and_file_names() {
    let tag = KalmanEstimateRow { obj_id: 3, frame: 12 };
    assert_eq!(window_dir_name(&tag), "obj_id_3_frame_12");
    assert_eq!(image_file_name(&frame(1, 42, 0, 0)), "42.tiff");
}

#[test]
fn plan_for_kill_is_stop() {
    assert!(matches!(plan_packet(&Packet::Kill), WorkerAction::Stop));
}

#[test]
fn plan_for_window_lists_everything() {
    let w = Window {
        frames: vec![frame(1, 21, 5, 7), frame(2, 22, 6, 7)],
        tag: KalmanEstimateRow { obj_id: 9, frame: 1 },
    };
    match plan_packet(&Packet::Images(w)) {
        WorkerAction::Persist(plan) => {
            assert_eq!(plan.directory, "obj_id_9_frame_1");
            assert_eq!(plan.image_files, vec!["21.tiff", "22.tiff"]);
            assert_eq!(plan.metadata.len(), 3);
            assert_eq!(plan.metadata[1], "1,21,5,7");
            assert_eq!(plan.metadata[2], "2,22,6,7");
        },
        WorkerAction::Stop => panic!("expected a persist plan"),
    }
}
