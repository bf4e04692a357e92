use usb_parse::error::StationError;
use usb_parse::frame::{decode_frame, encode_record, TelemetryRecord, FIELD_COUNT, FRAME_SIZE};

fn sample_frame() -> Vec<u8> {
    let mut b: Vec<u8> = Vec::new();
    for i in 0..FRAME_SIZE {
        b.push((i * 37 + 11) as u8);
    }
    b
}

#[test]
fn frame_size_is_27() {
    assert_eq!(FRAME_SIZE, 27);
    assert_eq!(FIELD_COUNT, 14);
}

#[test]
fn decode_reads_little_endian_fields() {
    let mut b = vec![0u8; FRAME_SIZE];
    b[0] = 0xFA;
    b[1] = 0x00;
    b[2] = 0x0C;
    b[3] = 0x00;
    b[4] = 0x34;
    b[5] = 0x12;
    b[24] = 0xFF;
    b[25] = 0xFF;
    b[26] = 0x7F;
    let rec = decode_frame(&b).unwrap();
    assert_eq!(rec.len(), FIELD_COUNT);
    assert_eq!(rec.field(0), Some(250));
    assert_eq!(rec.field(1), Some(12));
    assert_eq!(rec.field(2), Some(0x1234));
    assert_eq!(rec.field(3), Some(0));
    assert_eq!(rec.field(12), Some(65535));
    assert_eq!(rec.field(13), Some(0x7F));
    assert_eq!(rec.field(14), None);
}

#[test]
fn decode_rejects_short_read() {
    let b = vec![1u8; 10];
    assert!(matches!(decode_frame(&b), Err(StationError::BufferLenError(10))));
}

#[test]
fn decode_rejects_every_wrong_length() {
    for len in [0usize, 1, 26, 28, 252] {
        let b = vec![0u8; len];
        match decode_frame(&b) {
            Err(e) => assert_eq!(e, StationError::BufferLenError(len)),
            Ok(_) => panic!("accepted a buffer of {} bytes", len),
        }
    }
}

#[test]
fn decode_then_encode_gives_same_bytes() {
    let b = sample_frame();
    let rec = decode_frame(&b).unwrap();
    assert_eq!(encode_record(&rec), b);
}

#[test]
fn encode_then_decode_gives_same_fields() {
    let fields: Vec<u32> = vec![0, 1, 255, 256, 65535, 1000, 7, 8, 9, 10, 11, 12, 40000, 200];
    let rec = TelemetryRecord::from_fields(fields.clone()).unwrap();
    let bytes = encode_record(&rec);
    assert_eq!(bytes.len(), FRAME_SIZE);
    assert_eq!(bytes[6], 0x00);
    assert_eq!(bytes[7], 0x01);
    assert_eq!(bytes[26], 200);
    let back = decode_frame(&bytes).unwrap();
    for i in 0..FIELD_COUNT {
        assert_eq!(back.field(i), Some(fields[i]));
    }
}

#[test]
fn from_fields_rejects_wrong_shape() {
    assert!(TelemetryRecord::from_fields(vec![1, 2, 3]).is_none());
    let mut wide = vec![0u32; FIELD_COUNT];
    wide[0] = 65536;
    assert!(TelemetryRecord::from_fields(wide).is_none());
    let mut last = vec![0u32; FIELD_COUNT];
    last[13] = 256;
    assert!(TelemetryRecord::from_fields(last).is_none());
    let mut ok = vec![0u32; FIELD_COUNT];
    ok[13] = 255;
    assert!(TelemetryRecord::from_fields(ok).is_some());
}
