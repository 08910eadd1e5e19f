use usrp_receiver::config::Config;
use usrp_receiver::frame::{decode_frame, DecodeError};
use usrp_receiver::text::find_call;
use usrp_receiver::transmission::{handle_datagram, Transmission};

fn be(v: u32) -> [u8; 4] {
    [(v >> 24) as u8, (v >> 16) as u8, (v >> 8) as u8, v as u8]
}

fn le(v: u32) -> [u8; 4] {
    [v as u8, (v >> 8) as u8, (v >> 16) as u8, (v >> 24) as u8]
}

fn datagram(
    magic: &[u8; 4],
    sequence: u32,
    memory_slot: u32,
    keyup: u32,
    talkgroup: u32,
    frame_type: u32,
    payload: &[u8],
) -> Vec<u8> {
    let mut b: Vec<u8> = Vec::new();
    b.extend_from_slice(magic);
    b.extend_from_slice(&be(sequence));
    b.extend_from_slice(&le(memory_slot));
    b.extend_from_slice(&be(keyup));
    b.extend_from_slice(&be(talkgroup));
    b.extend_from_slice(&be(frame_type));
    b.extend_from_slice(&[0u8; 8]);
    b.extend_from_slice(payload);
    b
}

fn test_config() -> Config {
    Config::_new("west", "127.0.0.1:7777", "/tmp/audio")
}

fn fresh_transmission() -> Transmission {
    let c = test_config();
    Transmission::new("west".to_string(), "UNKNOWN".to_string(), &c)
}

fn ident_payload(text: &str) -> Vec<u8> {
    // tag byte, 13 bytes of other TLV fields, then the 36-byte callsign field
    let mut p = vec![8u8];
    p.extend_from_slice(&[0u8; 13]);
    let mut field = text.as_bytes().to_vec();
    while field.len() < 36 {
        field.push(b' ');
    }
    p.extend_from_slice(&field);
    p
}

#[test]
fn decoder_parses_header_fields() {
    let d = datagram(b"USRP", 7, 0x01020304, 1, 42, 0, &[9, 9, 9]);
    let f = decode_frame(&d).unwrap();
    assert!(f.magic_ok);
    assert_eq!(f.sequence, 7);
    assert_eq!(f.memory_slot, 0x01020304);
    assert_eq!(f.keyup, 1);
    assert_eq!(f.talkgroup, 42);
    assert_eq!(f.frame_type, 0);
    assert_eq!(f.payload, vec![9, 9, 9]);
}

#[test]
fn decoder_rejects_short_datagrams() {
    for n in 0..32usize {
        let d = vec![0x55u8; n];
        assert_eq!(decode_frame(&d).unwrap_err(), DecodeError::FrameTooShort);
    }
}

#[test]
fn decoder_rejects_undecodable_magic() {
    let mut d = datagram(b"USRP", 1, 2, 3, 4, 0, &[]);
    d[0] = 0xFF;
    d[1] = 0xFF;
    d[2] = 0xFF;
    d[3] = 0xFF;
    assert_eq!(decode_frame(&d).unwrap_err(), DecodeError::Utf8DecodeError);
}

#[test]
fn decoder_tolerates_wrong_magic() {
    // deliberate leniency: a bad magic is noted, the frame still decodes
    let d = datagram(b"ABCD", 9, 1, 1, 5, 3, &[1, 2]);
    let f = decode_frame(&d).unwrap();
    assert!(!f.magic_ok);
    assert_eq!(f.sequence, 9);
    assert_eq!(f.frame_type, 3);
    assert_eq!(f.payload, vec![1, 2]);
}

#[test]
fn empty_payload_is_allowed() {
    let d = datagram(b"USRP", 0, 0, 0, 0, 3, &[]);
    let f = decode_frame(&d).unwrap();
    assert_eq!(f.payload.len(), 0);
}

#[test]
fn tiny_datagram_is_skipped() {
    let mut t = fresh_transmission();
    t.audio = vec![1, 2, 3];
    for n in 0..4usize {
        let r = handle_datagram(&mut t, &vec![0x55u8; n]);
        assert!(r.is_none());
        assert_eq!(t.audio, vec![1, 2, 3]);
        assert_eq!(t.callsign, "UNKNOWN");
    }
}

#[test]
fn short_datagram_changes_no_state() {
    let mut t = fresh_transmission();
    t.audio = vec![7];
    for n in 4..32usize {
        let r = handle_datagram(&mut t, &vec![0x55u8; n]);
        assert!(r.is_none());
        assert_eq!(t.audio, vec![7]);
    }
}

#[test]
fn voice_keyup_accumulates_audio() {
    let mut t = fresh_transmission();
    let d1 = datagram(b"USRP", 1, 0, 1, 0, 0, &[1, 2, 3]);
    let d2 = datagram(b"USRP", 2, 0, 1, 0, 0, &[4, 5]);
    assert!(handle_datagram(&mut t, &d1).is_none());
    assert!(handle_datagram(&mut t, &d2).is_none());
    assert_eq!(t.audio, vec![1, 2, 3, 4, 5]);
}

#[test]
fn key_release_flushes_concatenated_audio() {
    let mut t = fresh_transmission();
    let d1 = datagram(b"USRP", 1, 0, 1, 0, 0, &[10, 11]);
    let d2 = datagram(b"USRP", 2, 0, 1, 0, 0, &[12]);
    let end = datagram(b"USRP", 3, 0, 0, 0, 0, &[]);
    handle_datagram(&mut t, &d1);
    handle_datagram(&mut t, &d2);
    let flush = handle_datagram(&mut t, &end).unwrap();
    assert_eq!(flush.audio, vec![10, 11, 12]);
    assert_eq!(flush.group, "west");
    assert_eq!(flush.callsign, "UNKNOWN");
    // the transmission is retained until superseded
    assert_eq!(t.audio, vec![10, 11, 12]);
}

#[test]
fn identification_sets_trimmed_callsign() {
    let mut t = fresh_transmission();
    let d = datagram(b"USRP", 1, 0, 1, 0, 2, &ident_payload("  K5ABC  "));
    assert!(handle_datagram(&mut t, &d).is_none());
    assert_eq!(t.callsign, "K5ABC");
    assert_eq!(t.audio, Vec::<u8>::new());
}

#[test]
fn second_identification_discards_audio() {
    let mut t = fresh_transmission();
    let id1 = datagram(b"USRP", 1, 0, 1, 0, 2, &ident_payload("K5ABC"));
    let voice = datagram(b"USRP", 2, 0, 1, 0, 0, &[1, 2, 3, 4]);
    let id2 = datagram(b"USRP", 3, 0, 1, 0, 2, &ident_payload("W1AW"));
    handle_datagram(&mut t, &id1);
    handle_datagram(&mut t, &voice);
    assert_eq!(t.audio.len(), 4);
    assert!(handle_datagram(&mut t, &id2).is_none());
    assert_eq!(t.callsign, "W1AW");
    assert_eq!(t.audio.len(), 0);
}

#[test]
fn ping_and_unhandled_types_are_no_ops() {
    let mut t = fresh_transmission();
    t.audio = vec![5, 6];
    for frame_type in [1u32, 3, 4, 5, 6, 99] {
        let d = datagram(b"USRP", 1, 0, 1, 0, frame_type, &[1, 2, 3]);
        assert!(handle_datagram(&mut t, &d).is_none());
        assert_eq!(t.audio, vec![5, 6]);
        assert_eq!(t.callsign, "UNKNOWN");
    }
}

#[test]
fn text_without_info_tag_is_no_op() {
    let mut t = fresh_transmission();
    t.audio = vec![9];
    let mut p = ident_payload("K5ABC");
    p[0] = 7; // some other TLV tag
    let d = datagram(b"USRP", 1, 0, 1, 0, 2, &p);
    assert!(handle_datagram(&mut t, &d).is_none());
    assert_eq!(t.audio, vec![9]);
    let empty = datagram(b"USRP", 2, 0, 1, 0, 2, &[]);
    assert!(handle_datagram(&mut t, &empty).is_none());
    assert_eq!(t.audio, vec![9]);
}

#[test]
fn short_identification_payload_falls_back_to_sentinel() {
    let mut t = fresh_transmission();
    let id = datagram(b"USRP", 1, 0, 1, 0, 2, &ident_payload("K5ABC"));
    handle_datagram(&mut t, &id);
    let voice = datagram(b"USRP", 2, 0, 1, 0, 0, &[1]);
    handle_datagram(&mut t, &voice);
    // tag byte present but the payload stops before the callsign field:
    // a new transmission still begins, under the sentinel
    let short_id = datagram(b"USRP", 3, 0, 1, 0, 2, &[8, 0, 0]);
    assert!(handle_datagram(&mut t, &short_id).is_none());
    assert_eq!(t.callsign, "UNKNOWN");
    assert_eq!(t.audio.len(), 0);
}

#[test]
fn round_trip_synthetic_sequence() {
    let mut t = fresh_transmission();
    let mut flushes = Vec::new();
    let feed = |t: &mut Transmission, d: Vec<u8>, flushes: &mut Vec<_>| {
        if let Some(f) = handle_datagram(t, &d) {
            flushes.push(f);
        }
    };
    feed(&mut t, datagram(b"USRP", 1, 0, 1, 0, 2, &ident_payload("N0CALL")), &mut flushes);
    feed(&mut t, datagram(b"USRP", 2, 0, 1, 0, 0, &vec![1u8; 10]), &mut flushes);
    feed(&mut t, datagram(b"USRP", 3, 0, 1, 0, 0, &vec![2u8; 20]), &mut flushes);
    feed(&mut t, datagram(b"USRP", 4, 0, 1, 0, 0, &vec![3u8; 30]), &mut flushes);
    feed(&mut t, datagram(b"USRP", 5, 0, 0, 0, 0, &[]), &mut flushes);
    assert_eq!(flushes.len(), 1);
    assert_eq!(flushes[0].audio.len(), 60);
    assert_eq!(flushes[0].callsign, "N0CALL");
    let mut expected = vec![1u8; 10];
    expected.extend_from_slice(&vec![2u8; 20]);
    expected.extend_from_slice(&vec![3u8; 30]);
    assert_eq!(flushes[0].audio, expected);
}

#[test]
fn wrong_magic_still_drives_the_tracker() {
    let mut t = fresh_transmission();
    let id = datagram(b"XXXX", 1, 0, 1, 0, 2, &ident_payload("N0CALL"));
    let voice = datagram(b"XXXX", 2, 0, 1, 0, 0, &[1, 2]);
    let end = datagram(b"XXXX", 3, 0, 0, 0, 0, &[]);
    handle_datagram(&mut t, &id);
    handle_datagram(&mut t, &voice);
    let flush = handle_datagram(&mut t, &end).unwrap();
    assert_eq!(flush.callsign, "N0CALL");
    assert_eq!(flush.audio, vec![1, 2]);
}

#[test]
fn find_call_trims_whitespace() {
    assert_eq!(find_call(b"  K5ABC  "), "K5ABC");
    assert_eq!(find_call(b"\tN0CALL\n"), "N0CALL");
    assert_eq!(find_call(b"W1AW"), "W1AW");
    assert_eq!(find_call(b"   "), "");
}

#[test]
fn find_call_substitutes_sentinel_on_bad_text() {
    assert_eq!(find_call(&[0xFF, 0xFE, 0x41]), "UNKNOWN");
}

#[test]
fn flush_filename_has_expected_shape() {
    let mut t = fresh_transmission();
    let id = datagram(b"USRP", 1, 0, 1, 0, 2, &ident_payload("K5ABC"));
    let end = datagram(b"USRP", 2, 0, 0, 0, 0, &[]);
    handle_datagram(&mut t, &id);
    let flush = handle_datagram(&mut t, &end).unwrap();
    assert_eq!(flush.filename_at(1700000000), "west-1700000000-K5ABC.pcm");
    assert_eq!(flush.filename_at(0), "west-0-K5ABC.pcm");
    assert_eq!(flush.filename_at(-12), "west--12-K5ABC.pcm");
}

#[test]
fn config_builder_keeps_fields() {
    let c = test_config();
    assert_eq!(c.group, "west");
    assert_eq!(c.rx_host_port, "127.0.0.1:7777");
    assert_eq!(c.audio_write_path, "/tmp/audio");
}

#[test]
fn new_transmission_starts_empty() {
    let t = fresh_transmission();
    assert_eq!(t.audio.len(), 0);
    assert_eq!(t.callsign, "UNKNOWN");
    assert_eq!(t.group, "west");
    assert_eq!(t.start_time, t.end_time);
}

#[test]
fn end_transmission_carries_state() {
    let mut t = fresh_transmission();
    t.audio = vec![1, 2, 3];
    t.callsign = "K5ABC".to_string();
    let flush = t.end_transmission();
    assert_eq!(flush.audio, vec![1, 2, 3]);
    assert_eq!(flush.callsign, "K5ABC");
    assert_eq!(flush.group, "west");
    assert_eq!(flush.start_time, t.start_time);
    assert_eq!(flush.end_time, t.end_time);
}
