use pg_bridge::bridge::{BridgeError, SignalPayload};
use pg_bridge::datum::{
    decode_bool, decode_float4_bits, decode_float8_bits, decode_i16, decode_i32, decode_i64,
    decode_i8, decode_u32, encode_bool, encode_float4_bits, encode_float8_bits, encode_i16,
    encode_i32, encode_i64, encode_i8, encode_u32, Datum, IntoDatum, Oid, PgOid, BOOLOID,
    BYTEAOID, CHAROID, INT2OID, INT4OID, INT8OID, OIDOID, TEXTOID, VARCHAROID, VOIDOID,
};
use pg_bridge::host::HostState;

#[test]
fn int4_accepts_narrower_integer_tags_but_not_wider() {
    assert!(i32::is_compatible_with(INT4OID));
    assert!(i32::is_compatible_with(CHAROID));
    assert!(i32::is_compatible_with(INT2OID));
    assert!(!i32::is_compatible_with(INT8OID));
}

#[test]
fn compatibility_is_one_directional() {
    assert!(i64::is_compatible_with(INT4OID));
    assert!(!i32::is_compatible_with(INT8OID));
    assert!(i16::is_compatible_with(CHAROID));
    assert!(!i16::is_compatible_with(INT4OID));
    assert!(<&str>::is_compatible_with(VARCHAROID));
    assert!(!bool::is_compatible_with(INT4OID));
    assert!(u32::is_compatible_with(INT4OID));
    assert!(!u32::is_compatible_with(INT8OID));
}

#[test]
fn wrapped_types_accept_only_their_own_tag() {
    assert!(Option::<i32>::is_compatible_with(INT4OID));
    assert!(!Option::<i32>::is_compatible_with(INT2OID));
    assert!(Result::<i64, SignalPayload>::is_compatible_with(INT8OID));
    assert!(!Result::<i64, SignalPayload>::is_compatible_with(INT4OID));
}

#[test]
fn every_type_reports_its_stable_tag() {
    assert_eq!(bool::type_oid(), BOOLOID);
    assert_eq!(i8::type_oid(), CHAROID);
    assert_eq!(i16::type_oid(), INT2OID);
    assert_eq!(i32::type_oid(), INT4OID);
    assert_eq!(i64::type_oid(), INT8OID);
    assert_eq!(u32::type_oid(), OIDOID);
    assert_eq!(String::type_oid(), TEXTOID);
    assert_eq!(char::type_oid(), VARCHAROID);
    assert_eq!(Vec::<u8>::type_oid(), BYTEAOID);
    assert_eq!(<()>::type_oid(), VOIDOID);
    assert_eq!(Option::<i32>::type_oid(), INT4OID);
}

#[test]
fn scalars_round_trip_through_the_value_word() {
    assert_eq!(decode_bool(encode_bool(true)), true);
    assert_eq!(decode_bool(encode_bool(false)), false);
    assert_eq!(decode_i8(encode_i8(-5)), -5);
    assert_eq!(decode_i8(encode_i8(i8::MIN)), i8::MIN);
    assert_eq!(decode_i16(encode_i16(-30000)), -30000);
    assert_eq!(decode_i32(encode_i32(i32::MIN)), i32::MIN);
    assert_eq!(decode_i32(encode_i32(i32::MAX)), i32::MAX);
    assert_eq!(decode_i64(encode_i64(i64::MIN)), i64::MIN);
    assert_eq!(decode_u32(encode_u32(u32::MAX)), u32::MAX);
}

#[test]
fn bool_packs_as_one_and_zero() {
    assert_eq!(encode_bool(true).value, 1);
    assert_eq!(encode_bool(false).value, 0);
}

#[test]
fn floats_travel_by_bit_pattern() {
    let f = -1.5f32;
    let d = encode_float4_bits(f.to_bits());
    assert_eq!(f32::from_bits(decode_float4_bits(d)), f);
    let g = 6.02214076e23f64;
    let d8 = encode_float8_bits(g.to_bits());
    assert_eq!(f64::from_bits(decode_float8_bits(d8)), g);
}

#[test]
fn null_option_encodes_as_no_value_without_allocating() {
    let mut host = HostState::boot(1000);
    let r = Option::<i32>::None.into_datum(&mut host);
    assert_eq!(r, Ok(None));
    assert_eq!(host.blocks.len(), 0);
    assert_eq!(host.budget, 1000);
}

#[test]
fn present_option_encodes_its_value() {
    let mut host = HostState::boot(1000);
    let r = Some(7i32).into_datum(&mut host);
    assert_eq!(r, Ok(Some(Datum { value: 7 })));
}

#[test]
fn invalid_oid_encodes_as_no_value() {
    let mut host = HostState::boot(1000);
    assert_eq!(Oid { value: 0 }.into_datum(&mut host), Ok(None));
    assert_eq!(Oid { value: 42 }.into_datum(&mut host), Ok(Some(Datum { value: 42 })));
    assert_eq!(PgOid::Invalid.into_datum(&mut host), Ok(None));
    assert_eq!(PgOid::Custom(9).into_datum(&mut host), Ok(Some(Datum { value: 9 })));
}

#[test]
fn string_allocates_from_the_register_arena() {
    let mut host = HostState::boot(1000);
    let child = host.create_arena(0, pg_bridge::host::ArenaTag::AllocSet);
    host.set_current_arena(child);
    let r = String::from("hi").into_datum(&mut host).unwrap().unwrap();
    assert_eq!(host.blocks[r.value as usize].arena, child);
    assert_eq!(&host.blocks[r.value as usize].bytes[4..], b"hi");
}

#[test]
fn failed_result_raises_its_payload_as_a_structured_error() {
    let mut host = HostState::boot(1000);
    let payload = SignalPayload {
        code: 1,
        message: "boom".to_owned(),
        detail: None,
        hint: None,
        location: "here".to_owned(),
    };
    let r = Err::<i32, SignalPayload>(payload).into_datum(&mut host);
    match r {
        Err(BridgeError::HostSignaled(p)) => assert_eq!(p.message, "boom"),
        other => panic!("expected a structured host signal, got {:?}", other),
    }
    let ok = Ok::<i32, SignalPayload>(3).into_datum(&mut host);
    assert_eq!(ok, Ok(Some(Datum { value: 3 })));
}

#[test]
fn unit_and_datum_pass_through() {
    let mut host = HostState::boot(1000);
    assert_eq!(().into_datum(&mut host), Ok(Some(Datum { value: 0 })));
    let d = Datum { value: 77 };
    assert_eq!(d.into_datum(&mut host), Ok(Some(d)));
    assert_eq!(Datum::from_u64(77), d);
}

#[test]
fn composite_tags_are_out_of_scope() {
    assert_eq!(5i32.composite_type_oid(), None);
    assert_eq!(String::from("x").composite_type_oid(), None);
}

#[test]
fn oversized_bytea_into_datum_reports_overflow() {
    let mut host = HostState::boot(u64::MAX);
    let too_long =
        vec![0u8; pg_bridge::codec::MAX_VARLENA_TOTAL - pg_bridge::codec::VARHDRSZ + 1];
    let r = too_long.into_datum(&mut host);
    assert_eq!(r, Err(BridgeError::EncodingOverflow));
    assert_eq!(host.blocks.len(), 0);
    assert_eq!(host.budget, u64::MAX);
}

#[test]
fn bytea_into_datum_respects_the_budget() {
    let mut host = HostState::boot(2);
    let r = vec![1u8, 2, 3].into_datum(&mut host);
    assert!(matches!(r, Err(BridgeError::HostSignaled(_))));
    assert_eq!(host.blocks.len(), 0);
}
