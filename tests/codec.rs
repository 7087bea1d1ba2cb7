use battery_bench::codec::{checksum, DecodeError};
use battery_bench::command::{
    AnnounceCompletionPayload, AssignIDPayload, Command, PingPayload, RequestDataPayload,
    DELIMITER,
};

fn all_kinds() -> Vec<Command> {
    vec![
        Command::Ping(PingPayload { identification: 0x05 }),
        Command::AssignID(AssignIDPayload { new_id: 0xFF }),
        Command::RequestData(RequestDataPayload {
            battery_temperature: 0x1234,
            bench_temperature: 0xFFFF,
            load_temperature: 0x0001,
            voltage: 534,
            current: 0x8000,
        }),
        Command::SetStandby,
        Command::SetDischarge,
        Command::SetCharge,
        Command::AnnounceCompletion(AnnounceCompletionPayload { flag: 1 }),
    ]
}

#[test]
fn test_encode() {
    let encoded = vec![0xB3, 0x00, 0x05, 0xB3 ^ 0x00 ^ 0x05];
    let command = Command::Ping(PingPayload { identification: 0x05 });
    assert_eq!(command.encode(), encoded);
}

#[test]
fn test_decode() {
    let encoded = vec![0xB3, 0x01, 0x02, 0x03, 0xB3 ^ 0x01 ^ 0x02 ^ 0x03];
    let decoded = Command::decode(encoded);
    assert_eq!(decoded, Err(DecodeError::MalformedPayload));

    let encoded = vec![0xB3, 0x00, 0xFF, 0x55, 0xB3 ^ 0x00 ^ 0xFF ^ 0x55];
    let decoded = Command::decode(encoded);
    assert_eq!(decoded, Err(DecodeError::MalformedPayload));
}

#[test]
fn test_decode_invalid_checksum() {
    let encoded = vec![0xB3, 0x01, 0x02, 0x03, 0x00];
    let result = Command::decode(encoded);
    assert!(result.is_err());
    assert_eq!(result, Err(DecodeError::InvalidChecksum));
}

#[test]
fn test_decode_too_short() {
    let encoded = vec![0xB3];
    let result = Command::decode(encoded);
    assert!(result.is_err());
    assert_eq!(result, Err(DecodeError::TooShort));
}

#[test]
fn empty_input_is_too_short() {
    assert_eq!(Command::decode(vec![]), Err(DecodeError::TooShort));
}

#[test]
fn round_trip_every_kind() {
    for c in all_kinds() {
        assert_eq!(Command::decode(c.encode()), Ok(c));
    }
}

#[test]
fn request_data_is_big_endian() {
    let c = Command::RequestData(RequestDataPayload {
        battery_temperature: 0x1234,
        bench_temperature: 0x5678,
        load_temperature: 0x9ABC,
        voltage: 0xDEF0,
        current: 0x0102,
    });
    let body = vec![
        0xB3, 0x02, 0x12, 0x34, 0x56, 0x78, 0x9A, 0xBC, 0xDE, 0xF0, 0x01, 0x02,
    ];
    let cs = body.iter().fold(0u8, |a, b| a ^ b);
    let mut frame = body.clone();
    frame.push(cs);
    assert_eq!(c.encode(), frame);
}

#[test]
fn zero_payload_commands_are_three_bytes() {
    assert_eq!(Command::SetStandby.encode(), vec![0xB3, 0x04, 0xB3 ^ 0x04]);
    assert_eq!(Command::SetDischarge.encode(), vec![0xB3, 0x05, 0xB3 ^ 0x05]);
    assert_eq!(Command::SetCharge.encode(), vec![0xB3, 0x06, 0xB3 ^ 0x06]);
}

#[test]
fn ids_follow_the_table() {
    let ids: Vec<u8> = all_kinds().iter().map(|c| c.getId()).collect();
    assert_eq!(ids, vec![0x00, 0x01, 0x02, 0x04, 0x05, 0x06, 0x07]);
}

#[test]
fn any_single_bit_flip_is_an_invalid_checksum() {
    for c in all_kinds() {
        let frame = c.encode();
        for i in 0..frame.len() {
            for bit in 0..8 {
                let mut f = frame.clone();
                f[i] ^= 1u8 << bit;
                assert_eq!(Command::decode(f), Err(DecodeError::InvalidChecksum));
            }
        }
    }
}

#[test]
fn reserved_id_is_unknown() {
    let frame = vec![DELIMITER, 0x03, 0xB3 ^ 0x03];
    assert_eq!(Command::decode(frame), Err(DecodeError::UnknownCommand));
    let frame = vec![DELIMITER, 0x03, 0x07, 0xB3 ^ 0x03 ^ 0x07];
    assert_eq!(Command::decode(frame), Err(DecodeError::UnknownCommand));
}

#[test]
fn ids_past_the_table_are_unknown() {
    let frame = vec![DELIMITER, 0x08, 0xB3 ^ 0x08];
    assert_eq!(Command::decode(frame), Err(DecodeError::UnknownCommand));
}

#[test]
fn two_bytes_with_good_checksum_hold_no_command() {
    assert_eq!(Command::decode(vec![0xB3, 0xB3]), Err(DecodeError::MalformedPayload));
}

#[test]
fn checksum_of_prefix() {
    let bytes = vec![0xB3, 0x00, 0x05, 0xAA];
    assert_eq!(checksum(&bytes, 3), 0xB3 ^ 0x00 ^ 0x05);
    assert_eq!(checksum(&bytes, 0), 0);
}

#[test]
fn payload_lengths() {
    assert_eq!(Command::payload_len(0x00), Some(1));
    assert_eq!(Command::payload_len(0x02), Some(10));
    assert_eq!(Command::payload_len(0x04), Some(0));
    assert_eq!(Command::payload_len(0x03), None);
}
