use airplay_rs::capture::{capture_file_header, encode_capture_record, parse_capture, CapturePacketKind, CAPTURE_MAGIC};

#[test]
fn header_is_the_magic() {
    assert_eq!(capture_file_header(), b"ARVCAP1\0".to_vec());
    assert_eq!(&CAPTURE_MAGIC, b"ARVCAP1\0");
}

#[test]
fn kinds_round_trip_through_bytes() {
    for kind in [CapturePacketKind::AvcC, CapturePacketKind::HvcC, CapturePacketKind::Payload] {
        assert_eq!(CapturePacketKind::from_byte(kind.to_byte()).unwrap(), kind);
    }
    assert_eq!(CapturePacketKind::AvcC.to_byte(), 1);
    assert_eq!(CapturePacketKind::HvcC.to_byte(), 2);
    assert_eq!(CapturePacketKind::Payload.to_byte(), 3);
    assert_eq!(CapturePacketKind::from_byte(0).unwrap_err().message(), "invalid video capture packet kind");
}

#[test]
fn encodes_a_record_in_little_endian() {
    let bytes = encode_capture_record(0x0102_0304_0506_0708, CapturePacketKind::Payload, &[0xaa, 0xbb]).unwrap();
    assert_eq!(bytes, vec![8, 7, 6, 5, 4, 3, 2, 1, 3, 2, 0, 0, 0, 0xaa, 0xbb]);
}

#[test]
fn written_records_read_back() {
    let records: Vec<(u64, CapturePacketKind, Vec<u8>)> = vec![
        (0, CapturePacketKind::AvcC, vec![1, 2, 3]),
        (16_000_000, CapturePacketKind::Payload, vec![]),
        (u64::MAX, CapturePacketKind::HvcC, vec![9; 300]),
    ];
    let mut file = capture_file_header();
    for (elapsed, kind, payload) in &records {
        file.extend(encode_capture_record(*elapsed, *kind, payload).unwrap());
    }
    let packets = parse_capture(&file).unwrap();
    assert_eq!(packets.len(), records.len());
    for (packet, (elapsed, kind, payload)) in packets.iter().zip(records.iter()) {
        assert_eq!(packet.elapsed_nanos, *elapsed);
        assert_eq!(packet.kind, *kind);
        assert_eq!(&packet.payload, payload);
    }
}

#[test]
fn a_partial_trailing_time_ends_the_capture() {
    let mut file = capture_file_header();
    file.extend(encode_capture_record(5, CapturePacketKind::Payload, &[7]).unwrap());
    file.extend([1, 2, 3]);
    let packets = parse_capture(&file).unwrap();
    assert_eq!(packets.len(), 1);
    assert!(parse_capture(&capture_file_header()).unwrap().is_empty());
}

#[test]
fn refuses_bad_captures() {
    assert_eq!(parse_capture(b"ARVCAP").unwrap_err().message(), "failed to fill whole buffer");
    assert_eq!(parse_capture(b"ARVCAP2\0").unwrap_err().message(), "invalid video capture file header");
    let mut cut_header = capture_file_header();
    cut_header.extend([0u8; 10]);
    assert_eq!(parse_capture(&cut_header).unwrap_err().message(), "failed to fill whole buffer");
    let mut cut_payload = capture_file_header();
    let record = encode_capture_record(1, CapturePacketKind::AvcC, &[1, 2, 3, 4]).unwrap();
    cut_payload.extend(&record[..record.len() - 1]);
    assert_eq!(parse_capture(&cut_payload).unwrap_err().message(), "failed to fill whole buffer");
    let mut bad_kind = capture_file_header();
    let mut record = encode_capture_record(1, CapturePacketKind::AvcC, &[1]).unwrap();
    record[8] = 9;
    bad_kind.extend(record);
    assert_eq!(parse_capture(&bad_kind).unwrap_err().message(), "invalid video capture packet kind");
}
