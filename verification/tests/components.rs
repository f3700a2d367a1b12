//! Component-level behavior: notification decoding, the gzip/UTF-8 codec,
//! line splitting, and destination resolution.

use log_relay::codec::compress_utf8;
use log_relay::codec::decompress_utf8;
use log_relay::datefmt::resolve_destination;
use log_relay::datefmt::stream_name_for;
use log_relay::lines::split_nonempty_lines;
use log_relay::notification::decode_notification;
use log_relay::notification::Notification;
use log_relay::notification::NotificationRecord;
use log_relay::types::PipelineError;
use log_relay::types::ProcessingTime;

fn record(bucket: Option<&str>, key: Option<&str>) -> NotificationRecord {
    NotificationRecord {
        bucket: bucket.map(|s| s.to_string()),
        key: key.map(|s| s.to_string()),
    }
}

fn march_seventh() -> ProcessingTime {
    ProcessingTime { year: 2024, month: 3, day: 7, millis: 1_709_769_600_123 }
}

#[test]
fn decode_uses_first_record_only() {
    let n = Notification {
        records: vec![
            record(Some("logs-bucket"), Some("alb/2024/access.gz")),
            record(None, None),
        ],
    };
    let obj = decode_notification(n).unwrap();
    assert_eq!(obj.bucket, "logs-bucket");
    assert_eq!(obj.key, "alb/2024/access.gz");
}

#[test]
fn decode_empty_record_list_is_input_error() {
    let n = Notification { records: vec![] };
    assert!(matches!(decode_notification(n), Err(PipelineError::Input)));
}

#[test]
fn decode_missing_key_is_input_error() {
    let n = Notification { records: vec![record(Some("logs-bucket"), None)] };
    assert!(matches!(decode_notification(n), Err(PipelineError::Input)));
}

#[test]
fn decode_missing_bucket_is_input_error() {
    let n = Notification { records: vec![record(None, Some("k"))] };
    assert!(matches!(decode_notification(n), Err(PipelineError::Input)));
}

#[test]
fn decode_empty_bucket_is_input_error() {
    let n = Notification { records: vec![record(Some(""), Some("k"))] };
    assert!(matches!(decode_notification(n), Err(PipelineError::Input)));
}

#[test]
fn gzip_utf8_round_trip() {
    let text = b"GET /a\n\nGET /b\n".to_vec();
    let packed = compress_utf8(&text).unwrap();
    assert_ne!(packed, text);
    let unpacked = decompress_utf8(&packed).unwrap();
    assert_eq!(unpacked, text);
}

#[test]
fn compress_rejects_invalid_utf8() {
    let bad = vec![0xffu8, 0xfe, 0x00, 0x80];
    assert!(compress_utf8(&bad).is_none());
}

#[test]
fn decompress_rejects_garbage() {
    let garbage = b"this is not a gzip stream".to_vec();
    assert!(matches!(decompress_utf8(&garbage), Err(PipelineError::Decode)));
}

#[test]
fn decompress_rejects_non_utf8_payload() {
    let mut encoder =
        flate2::write::GzEncoder::new(Vec::new(), flate2::Compression::default());
    std::io::Write::write_all(&mut encoder, &[0xffu8, 0xfe, 0x80]).unwrap();
    let packed = encoder.finish().unwrap();
    assert!(matches!(decompress_utf8(&packed), Err(PipelineError::Decode)));
}

#[test]
fn decompress_accepts_externally_compressed_text() {
    let mut encoder =
        flate2::write::GzEncoder::new(Vec::new(), flate2::Compression::default());
    std::io::Write::write_all(&mut encoder, b"hello access log").unwrap();
    let packed = encoder.finish().unwrap();
    let unpacked = decompress_utf8(&packed).unwrap();
    assert_eq!(unpacked, b"hello access log".to_vec());
}

#[test]
fn compressed_text_decodes_with_external_decoder() {
    let text = b"one\ntwo\n".to_vec();
    let packed = compress_utf8(&text).unwrap();
    let mut decoder = flate2::read::GzDecoder::new(&packed[..]);
    let mut out = Vec::new();
    std::io::Read::read_to_end(&mut decoder, &mut out).unwrap();
    assert_eq!(out, text);
}

#[test]
fn stream_name_is_zero_padded_date() {
    assert_eq!(stream_name_for(&march_seventh()), "2024-03-07");
}

#[test]
fn stream_name_of_four_digit_fields() {
    let t = ProcessingTime { year: 987, month: 12, day: 31, millis: 0 };
    assert_eq!(stream_name_for(&t), "0987-12-31");
}

#[test]
fn destination_uses_default_group_when_unset() {
    let d = resolve_destination(None, &march_seventh());
    assert_eq!(d.group, "ALB-access-log");
    assert_eq!(d.stream, "2024-03-07");
}

#[test]
fn destination_uses_configured_group() {
    let d = resolve_destination(Some("edge-logs".to_string()), &march_seventh());
    assert_eq!(d.group, "edge-logs");
    assert_eq!(d.stream, "2024-03-07");
}

#[test]
fn destination_is_deterministic_for_same_day() {
    let a = resolve_destination(None, &march_seventh());
    let b = resolve_destination(None, &march_seventh());
    assert_eq!(a.group, b.group);
    assert_eq!(a.stream, b.stream);
}

#[test]
fn split_keeps_nonempty_lines_in_order() {
    let lines = split_nonempty_lines(&b"GET /a\n\nGET /b\n".to_vec());
    assert_eq!(lines, vec![b"GET /a".to_vec(), b"GET /b".to_vec()]);
}

#[test]
fn split_handles_crlf_endings() {
    let lines = split_nonempty_lines(&b"one\r\ntwo\r\n".to_vec());
    assert_eq!(lines, vec![b"one".to_vec(), b"two".to_vec()]);
}

#[test]
fn split_keeps_final_unterminated_line() {
    let lines = split_nonempty_lines(&b"one\ntwo".to_vec());
    assert_eq!(lines, vec![b"one".to_vec(), b"two".to_vec()]);
}

#[test]
fn split_of_empty_text_is_empty() {
    assert!(split_nonempty_lines(&Vec::<u8>::new()).is_empty());
    assert!(split_nonempty_lines(&b"\n\n\n".to_vec()).is_empty());
}

#[test]
fn clock_reading_is_a_calendar_day() {
    if let Some(t) = log_relay::current_processing_time() {
        assert!((0..=9999).contains(&t.year));
        assert!((1..=12).contains(&t.month));
        assert!((1..=31).contains(&t.day));
    } else {
        panic!("the clock reported a year outside four digits");
    }
}
