use volev::event::{decode_input_event, encode_input_event, InputEvent, EVENT_SIZE};

#[test]
fn record_size_is_24_bytes() {
    assert_eq!(EVENT_SIZE, 24);
}

#[test]
fn encode_lays_fields_out_little_endian() {
    let ev = InputEvent {
        tv_sec: 0x0102_0304_0506_0708,
        tv_usec: 0x1112_1314_1516_1718,
        etype: 0x2122,
        code: 0x3132,
        value: 0x4142_4344,
    };
    let b = encode_input_event(&ev);
    assert_eq!(b.len(), EVENT_SIZE);
    assert_eq!(
        b,
        vec![
            0x08, 0x07, 0x06, 0x05, 0x04, 0x03, 0x02, 0x01, // seconds
            0x18, 0x17, 0x16, 0x15, 0x14, 0x13, 0x12, 0x11, // microseconds
            0x22, 0x21, // event type
            0x32, 0x31, // key code
            0x44, 0x43, 0x42, 0x41, // value
        ]
    );
}

#[test]
fn decode_reads_a_press_record() {
    // a volume-down press: type 1 (key), code 114, value 1
    let mut b = vec![0u8; 24];
    b[16] = 1;
    b[18] = 114;
    b[20] = 1;
    let ev = decode_input_event(&b);
    assert_eq!(ev.etype, 1);
    assert_eq!(ev.code, 114);
    assert_eq!(ev.value, 1);
    assert_eq!(ev.tv_sec, 0);
    assert_eq!(ev.tv_usec, 0);
}

#[test]
fn codec_round_trips_negative_fields() {
    let ev = InputEvent { tv_sec: -5, tv_usec: -1, etype: 1, code: 114, value: -2 };
    let b = encode_input_event(&ev);
    assert_eq!(decode_input_event(&b), ev);
}

#[test]
fn codec_round_trips_a_synthetic_event() {
    // the synthetic records the channel writes carry a zero timestamp
    let ev = InputEvent { tv_sec: 0, tv_usec: 0, etype: 1, code: 115, value: 0 };
    let b = encode_input_event(&ev);
    assert_eq!(decode_input_event(&b), ev);
}

#[test]
fn decode_then_encode_returns_the_record() {
    let b: Vec<u8> = (0u8..24u8).collect();
    let ev = decode_input_event(&b);
    assert_eq!(encode_input_event(&ev), b);
}
