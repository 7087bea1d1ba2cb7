use battery_bench::bench::{BatteryBench, BatteryBenchState, CompletionStatus};
use battery_bench::codec::DecodeError;
use battery_bench::command::{Command, PingPayload, RequestDataPayload};
use battery_bench::export::{export_header, group_by_battery};
use battery_bench::paths::get_writable_path;
use battery_bench::session::{apply_reply, request_frame, PollError, TransportError};

fn bench_with_readings() -> BatteryBench {
    let mut b = BatteryBench::new_at(Some(0), Some("COM 4".to_string()), 0).unwrap();
    b.temperature = 2020;
    b.battery_temperature = 2013;
    b.electronic_load_temperature = 2054;
    b.voltage = 534;
    b.current = 324;
    b
}

fn readings(b: &BatteryBench) -> (u16, u16, u16, u16, u16) {
    (b.temperature, b.battery_temperature, b.electronic_load_temperature, b.voltage, b.current)
}

#[test]
fn request_frame_asks_for_data() {
    let f = request_frame();
    assert_eq!(f.len(), 13);
    assert_eq!(&f[0..2], &[0xB3, 0x02]);
    assert_eq!(f[12], 0xB3 ^ 0x02);
}

#[test]
fn zero_reply_gives_zero_snapshot() {
    let reply = Command::RequestData(RequestDataPayload {
        battery_temperature: 0,
        bench_temperature: 0,
        load_temperature: 0,
        voltage: 0,
        current: 0,
    })
    .encode();
    let mut b = bench_with_readings();
    assert_eq!(apply_reply(&mut b, Ok(reply)), Ok(()));
    assert_eq!(readings(&b), (0, 0, 0, 0, 0));
    assert_eq!(b.state, BatteryBenchState::Standby);
    assert_eq!(b.status, CompletionStatus::InProgress);
}

#[test]
fn reply_overwrites_all_readings() {
    let reply = Command::RequestData(RequestDataPayload {
        battery_temperature: 301,
        bench_temperature: 250,
        load_temperature: 270,
        voltage: 120,
        current: 10,
    })
    .encode();
    let mut b = bench_with_readings();
    assert_eq!(apply_reply(&mut b, Ok(reply)), Ok(()));
    assert_eq!(readings(&b), (250, 301, 270, 120, 10));
}

#[test]
fn timeout_keeps_previous_readings() {
    let mut b = bench_with_readings();
    let r = apply_reply(&mut b, Err(TransportError::TransportTimeout));
    assert_eq!(r, Err(PollError::Transport(TransportError::TransportTimeout)));
    assert_eq!(readings(&b), (2020, 2013, 2054, 534, 324));
}

#[test]
fn io_failure_and_bad_frames_keep_readings() {
    let mut b = bench_with_readings();
    assert_eq!(
        apply_reply(&mut b, Err(TransportError::TransportIOFailure)),
        Err(PollError::Transport(TransportError::TransportIOFailure))
    );
    assert_eq!(
        apply_reply(&mut b, Ok(vec![0xB3, 0x02, 0x00])),
        Err(PollError::Decode(DecodeError::InvalidChecksum))
    );
    let ping = Command::Ping(PingPayload { identification: 1 }).encode();
    assert_eq!(apply_reply(&mut b, Ok(ping)), Err(PollError::UnexpectedReply));
    assert_eq!(readings(&b), (2020, 2013, 2054, 534, 324));
}

#[test]
fn groups_by_first_appearance() {
    let ids = vec![5, 3, 5, 9, 3, 5];
    let g = group_by_battery(&ids);
    let got: Vec<(i64, Vec<usize>)> = g.into_iter().map(|g| (g.battery_id, g.rows)).collect();
    assert_eq!(got, vec![(5, vec![0, 2, 5]), (3, vec![1, 4]), (9, vec![3])]);
    assert!(group_by_battery(&vec![]).is_empty());
}

#[test]
fn header_columns_in_order() {
    assert_eq!(
        export_header(),
        vec![
            "record_id",
            "id",
            "port",
            "temperature",
            "battery_temperature",
            "electronic_load_temperature",
            "voltage",
            "current",
            "state",
            "status",
            "start_date",
            "end_date"
        ]
    );
}

#[test]
fn writable_path_names_the_export_file() {
    let p = get_writable_path();
    assert_eq!(p.file_name().and_then(|s| s.to_str()), Some("export.csv"));
    assert!(p.to_string_lossy().starts_with("C:\\Users\\zephr\\Desktop\\SC"));
}
