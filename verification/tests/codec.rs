use pg_bridge::bridge::BridgeError;
use pg_bridge::codec::{
    cstring_codec_round_trip, decode_char, decode_cstring, decode_text, decode_varlena,
    encode_char, encode_cstring, encode_text, encode_varlena, text_codec_round_trip,
    varlena_codec_round_trip, MAX_VARLENA_TOTAL, VARHDRSZ,
};
use pg_bridge::datum::Datum;
use pg_bridge::host::HostState;

#[test]
fn hello_encodes_as_a_length_prefixed_text_value() {
    let mut host = HostState::boot(1000);
    let d = encode_text(&mut host, 0, "hello").unwrap();
    let bytes = &host.blocks[d.value as usize].bytes;
    assert_eq!(bytes.len(), 5 + VARHDRSZ);
    assert_eq!(&bytes[VARHDRSZ..], b"hello");
    let total = (5 + VARHDRSZ) as u32;
    assert_eq!(&bytes[..VARHDRSZ], (total << 2).to_le_bytes().as_slice());
    let back = decode_text(&host, d).unwrap();
    assert_eq!(back, "hello");
}

#[test]
fn text_survives_a_round_trip_through_any_arena() {
    let mut host = HostState::boot(1000);
    let child = host.create_arena(0, pg_bridge::host::ArenaTag::AllocSet);
    let back = text_codec_round_trip(&mut host, child, "grüße, 世界").unwrap();
    assert_eq!(back, "grüße, 世界");
}

#[test]
fn oversized_input_reports_overflow_and_allocates_nothing() {
    let mut host = HostState::boot(u64::MAX);
    let too_long = vec![7u8; MAX_VARLENA_TOTAL - VARHDRSZ + 1];
    let r = encode_varlena(&mut host, 0, &too_long);
    assert_eq!(r, Err(BridgeError::EncodingOverflow));
    assert_eq!(host.blocks.len(), 0);
    assert_eq!(host.budget, u64::MAX);
}

#[test]
fn declined_allocation_reports_the_signal_and_allocates_nothing() {
    let mut host = HostState::boot(3);
    let payload = vec![1u8, 2, 3];
    let r = encode_varlena(&mut host, 0, &payload);
    match r {
        Err(BridgeError::HostSignaled(p)) => assert_eq!(p.code, 53200),
        other => panic!("expected the host's signal, got {:?}", other),
    }
    assert_eq!(host.blocks.len(), 0);
    assert_eq!(host.budget, 3);
}

#[test]
fn bytea_round_trips() {
    let mut host = HostState::boot(1000);
    let payload = vec![0u8, 255, 7, 0, 9];
    let d = encode_varlena(&mut host, 0, &payload).unwrap();
    let back = decode_varlena(&host, d).unwrap();
    assert_eq!(back, payload);
}

#[test]
fn the_round_trip_laws_hold_on_concrete_values() {
    let mut host = HostState::boot(1000);
    assert_eq!(
        varlena_codec_round_trip(&mut host, 0, &vec![9u8, 0, 9]),
        Some(vec![9u8, 0, 9])
    );
    assert_eq!(
        cstring_codec_round_trip(&mut host, 0, &b"no nul here".to_vec()),
        Some(b"no nul here".to_vec())
    );
    let mut broke = HostState::boot(2);
    assert_eq!(varlena_codec_round_trip(&mut broke, 0, &vec![1u8, 2, 3]), None);
}

#[test]
fn stale_or_garbage_datum_is_reported_not_dereferenced() {
    let mut host = HostState::boot(1000);
    let payload = vec![1u8, 2];
    let d = encode_varlena(&mut host, 0, &payload).unwrap();
    host.request_reclamation(d.value as usize);
    assert_eq!(decode_varlena(&host, d), Err(BridgeError::InvariantViolation));
    let garbage = Datum { value: 999 };
    assert_eq!(decode_varlena(&host, garbage), Err(BridgeError::InvariantViolation));
}

#[test]
fn non_varlena_block_fails_the_header_check() {
    let mut host = HostState::boot(1000);
    let b = host.alloc_bytes(0, vec![9u8, 9, 9, 9, 9]).unwrap();
    let d = Datum { value: b as u64 };
    assert_eq!(decode_varlena(&host, d), Err(BridgeError::InvariantViolation));
}

#[test]
fn cstring_round_trips_and_stops_at_the_first_nul() {
    let mut host = HostState::boot(1000);
    let payload = b"abc".to_vec();
    let d = encode_cstring(&mut host, 0, &payload).unwrap();
    assert_eq!(host.blocks[d.value as usize].bytes, b"abc\0");
    assert_eq!(decode_cstring(&host, d), Ok(b"abc".to_vec()));

    let two = host.alloc_bytes(0, b"xy\0z\0".to_vec()).unwrap();
    let d2 = Datum { value: two as u64 };
    assert_eq!(decode_cstring(&host, d2), Ok(b"xy".to_vec()));
}

#[test]
fn cstring_without_terminator_is_reported() {
    let mut host = HostState::boot(1000);
    let b = host.alloc_bytes(0, b"abc".to_vec()).unwrap();
    let d = Datum { value: b as u64 };
    assert_eq!(decode_cstring(&host, d), Err(BridgeError::InvariantViolation));
}

#[test]
fn char_round_trips_in_utf8() {
    let mut host = HostState::boot(1000);
    let d = encode_char(&mut host, 0, 'é').unwrap();
    let bytes = &host.blocks[d.value as usize].bytes;
    assert_eq!(&bytes[VARHDRSZ..], "é".as_bytes());
    assert_eq!(decode_char(&host, d), Ok('é'));
}

#[test]
fn char_decode_rejects_more_than_one_character() {
    let mut host = HostState::boot(1000);
    let d = encode_text(&mut host, 0, "ab").unwrap();
    assert_eq!(decode_char(&host, d), Err(BridgeError::InvariantViolation));
}
