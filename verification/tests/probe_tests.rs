use volev::ioc::{eviocgbit, ioc, _eviocgkey};
use volev::probe::{
    contains_key, decode_key_bitmap, probe_start, probe_step, ProbeStep, PROBE_ROUND_CAP,
};

#[test]
fn ioc_packs_the_four_fields() {
    assert_eq!(ioc(2, 0x45, 0x21, 0), 0x8000_4521);
    assert_eq!(ioc(2, 0x45, 0x21, 24), 0x8018_4521);
}

#[test]
fn eviocgbit_request_code() {
    // direction "read", magic 'E', request 0x20 plus the event class
    assert_eq!(eviocgbit(1, 0), 0x8000_4521);
    assert_eq!(eviocgbit(1, 24), 0x8018_4521);
}

#[test]
fn eviocgkey_request_code() {
    assert_eq!(_eviocgkey(0), 0x8000_4518);
}

#[test]
fn decode_picks_exactly_the_set_bits() {
    // bit 1 of byte 0 and bits 0 and 7 of byte 1: codes 1, 8, 15
    let bits = vec![0b0000_0010u8, 0b1000_0001u8];
    let keys = decode_key_bitmap(&bits, 2);
    assert_eq!(keys, vec![1, 8, 15]);
}

#[test]
fn decode_all_zero_bitmap_is_empty() {
    let bits = vec![0u8; 8];
    assert_eq!(decode_key_bitmap(&bits, 8).len(), 0);
}

#[test]
fn decode_reads_only_the_reported_prefix() {
    let bits = vec![0xffu8, 0xffu8];
    let keys = decode_key_bitmap(&bits, 1);
    assert_eq!(keys, (0..8).collect::<Vec<usize>>());
}

#[test]
fn contains_key_is_membership() {
    let keys = vec![1usize, 8, 115];
    assert!(contains_key(&keys, 115));
    assert!(!contains_key(&keys, 114));
}

#[test]
fn probe_finishes_in_two_queries() {
    // The device needs 12 bytes. The first query offers an empty buffer
    // and grows past the report; the second sees the report fit.
    let mut st = probe_start();
    assert_eq!(probe_step(&mut st, 12), ProbeStep::Grow { new_len: 28 });
    assert_eq!(probe_step(&mut st, 12), ProbeStep::Done { used: 12 });
}

#[test]
fn probe_zero_sized_bitmap() {
    // A device with no key capability at all still terminates: the grown
    // buffer exceeds the zero report at once.
    let mut st = probe_start();
    assert_eq!(probe_step(&mut st, 0), ProbeStep::Grow { new_len: 16 });
    assert_eq!(probe_step(&mut st, 0), ProbeStep::Done { used: 0 });
}

#[test]
fn probe_gives_up_past_the_round_cap() {
    // A pathological device reports a size that always matches the buffer
    // offered: the probe fails after the round cap instead of looping.
    let mut st = probe_start();
    let mut grows = 0u32;
    loop {
        let reported = st.buf_len;
        match probe_step(&mut st, reported) {
            ProbeStep::Grow { new_len } => {
                assert_eq!(new_len, st.buf_len);
                grows += 1;
            }
            ProbeStep::Failed => break,
            ProbeStep::Done { .. } => panic!("the probe must not finish"),
        }
        assert!(grows <= PROBE_ROUND_CAP);
    }
    assert_eq!(grows, PROBE_ROUND_CAP);
}
