use vblank_capture::capture::{Capture, CaptureConfig, DutyPolicy, FrameCounterSample};
use vblank_capture::export::export_csv;
use vblank_capture::records::{EventType, VBlankRecord};

fn record(timestamp: i64, count: i64, event_type: EventType) -> VBlankRecord {
    VBlankRecord {
        timestamp,
        count,
        event_type,
    }
}

#[test]
fn empty_log_exports_header_only() {
    let out = export_csv(&Vec::new());
    assert_eq!(out, b"timestamp,count,event_type\n".to_vec());
}

#[test]
fn one_frame_exports_exact_rows() {
    let log = vec![
        record(123, 4, EventType::HardwareTime),
        record(77, 4, EventType::CpuTime),
    ];
    let out = export_csv(&log);
    let expected = b"timestamp,count,event_type\n123,4,hardware_time\n77,4,cpu_time\n".to_vec();
    assert_eq!(out, expected);
}

#[test]
fn negative_timestamps_keep_their_sign() {
    let log = vec![record(-60, 2, EventType::HardwareTime)];
    let out = export_csv(&log);
    assert_eq!(out, b"timestamp,count,event_type\n-60,2,hardware_time\n".to_vec());
}

#[test]
fn extreme_values_render_in_full() {
    let log = vec![
        record(i64::MAX, i64::MIN, EventType::HardwareTime),
        record(0, 10, EventType::CpuTime),
    ];
    let out = export_csv(&log);
    let expected = format!(
        "timestamp,count,event_type\n{},{},hardware_time\n0,10,cpu_time\n",
        i64::MAX,
        i64::MIN
    );
    assert_eq!(out, expected.into_bytes());
}

#[test]
fn export_is_idempotent_on_the_same_log() {
    let config = CaptureConfig {
        frame_budget: 4,
        signal_frames: 1,
        duty: DutyPolicy::Alternate,
        poll_interval_micros: 0,
    };
    let mut cap = Capture::new(config, 500, 0);
    for frame in 1..=4u32 {
        let s = FrameCounterSample {
            present_count: frame,
            sync_time: 500 + 37 * frame as i64,
            refresh_count: frame,
        };
        cap.complete_frame(s, 31 * frame as i64);
    }
    let first = cap.export();
    let second = cap.export();
    assert_eq!(first, second);
    let third = export_csv(&cap.records);
    assert_eq!(first, third);
}

#[test]
fn rows_follow_log_order() {
    let log = vec![
        record(1, 1, EventType::HardwareTime),
        record(2, 1, EventType::CpuTime),
        record(3, 2, EventType::HardwareTime),
        record(4, 2, EventType::CpuTime),
    ];
    let out = export_csv(&log);
    let text = String::from_utf8(out).unwrap();
    let lines: Vec<&str> = text.lines().collect();
    assert_eq!(
        lines,
        vec![
            "timestamp,count,event_type",
            "1,1,hardware_time",
            "2,1,cpu_time",
            "3,2,hardware_time",
            "4,2,cpu_time",
        ]
    );
}
