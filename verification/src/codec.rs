//! Variable-length encodings of the tagged binary value representation.
//!
//! A variable-length value lives in a host-allocated byte region with a
//! self-describing length prefix; its lifetime is bound to the arena it
//! was allocated from.  An input whose encoding would exceed the host's
//! maximum representable length is rejected with `EncodingOverflow`
//! before anything is allocated.

use vstd::prelude::*;
use vstd::bytes::{
    lemma_auto_spec_u32_to_from_le_bytes, spec_u32_from_le_bytes, spec_u32_to_le_bytes,
    u32_from_le_bytes, u32_to_le_bytes,
};

use vstd::string::StrSliceExecFns;
use vstd::utf8::{decode_utf8, encode_utf8, encode_utf8_decode_utf8, valid_utf8};

use crate::bridge::{BridgeError, ERRCODE_OUT_OF_MEMORY};
use crate::datum::Datum;
use crate::host::HostState;

verus! {

/// Size of the length header that prefixes a variable-length value.
pub const VARHDRSZ: usize = 4;

/// Largest total size (header included) of a variable-length value:
/// the header keeps the total length shifted left by two bits in a
/// 32-bit word, so only thirty bits are available.
pub const MAX_VARLENA_TOTAL: usize = 0x3FFF_FFFF;

/// Byte layout of a variable-length value holding `payload`: a 4-byte
/// little-endian header carrying the total length (header included)
/// shifted left by two bits, then the payload itself.
pub open spec fn varlena_bytes(payload: Seq<u8>) -> Seq<u8> {
    spec_u32_to_le_bytes((((payload.len() + VARHDRSZ) * 4) as u32)) + payload
}

/// Reads a byte region back as a variable-length value; the header must
/// agree with the region's length.
pub open spec fn parse_varlena(bytes: Seq<u8>) -> Option<Seq<u8>> {
    if bytes.len() >= VARHDRSZ && bytes.len() <= MAX_VARLENA_TOTAL && spec_u32_from_le_bytes(
        bytes.subrange(0, VARHDRSZ as int),
    ) == (bytes.len() * 4) as u32 {
        Some(bytes.subrange(VARHDRSZ as int, bytes.len() as int))
    } else {
        None
    }
}

/// Round trip at the representation level: every payload within the
/// host's representable length reads back unchanged from its encoding.
pub proof fn lemma_varlena_round_trip(payload: Seq<u8>)
    requires
        payload.len() + VARHDRSZ <= MAX_VARLENA_TOTAL,
    ensures
        parse_varlena(varlena_bytes(payload)) == Some(payload),
{
    lemma_auto_spec_u32_to_from_le_bytes();
    let bytes = varlena_bytes(payload);
    assert(bytes.subrange(0, VARHDRSZ as int) =~= spec_u32_to_le_bytes(
        (((payload.len() + VARHDRSZ) * 4) as u32),
    ));
    assert(bytes.subrange(VARHDRSZ as int, bytes.len() as int) =~= payload);
}

/// What a successful variable-length encode does to the host: exactly
/// one fresh live block, appended after the existing ones, owned by
/// `arena` and holding the header and the payload; the budget pays for
/// it; nothing else moves.
pub open spec fn varlena_alloc_ok(
    pre: HostState,
    post: HostState,
    arena: usize,
    payload: Seq<u8>,
) -> bool {
    &&& post.wf()
    &&& post.arenas@ == pre.arenas@
    &&& post.top == pre.top
    &&& post.current == pre.current
    &&& post.blocks@.len() == pre.blocks@.len() + 1
    &&& forall|j: int| 0 <= j < pre.blocks@.len() ==> post.blocks@[j] == pre.blocks@[j]
    &&& post.blocks@[pre.blocks@.len() as int].arena == arena
    &&& post.blocks@[pre.blocks@.len() as int].live
    &&& post.blocks@[pre.blocks@.len() as int].bytes@ == varlena_bytes(payload)
    &&& post.budget == pre.budget - (payload.len() + VARHDRSZ)
}

/// What encoding a variable-length payload does to the host: either
/// the payload exceeds the host's maximum representable length and
/// `EncodingOverflow` comes back with nothing allocated; or the host
/// declines the allocation and its captured out-of-memory signal comes
/// back as `HostSignaled`, again with nothing allocated; or one fresh
/// block from `arena` now holds the header and the payload and the
/// datum references it.
pub open spec fn varlena_encode_post(
    pre: HostState,
    post: HostState,
    arena: usize,
    payload: Seq<u8>,
    r: Result<Datum, BridgeError>,
) -> bool {
    &&& post.wf()
    &&& post.arenas@ == pre.arenas@
    &&& post.top == pre.top
    &&& post.current == pre.current
    &&& (r is Err ==> post == pre)
    &&& (payload.len() + VARHDRSZ > MAX_VARLENA_TOTAL ==> r == Err::<Datum, BridgeError>(
        BridgeError::EncodingOverflow,
    ))
    &&& (payload.len() + VARHDRSZ <= MAX_VARLENA_TOTAL ==> {
        &&& (r is Ok <==> payload.len() + VARHDRSZ <= pre.budget)
        &&& (r matches Err(e) ==> e matches BridgeError::HostSignaled(p) && p.code
            == ERRCODE_OUT_OF_MEMORY)
    })
    &&& (r matches Ok(d) ==> {
        &&& d.value == pre.blocks@.len()
        &&& varlena_alloc_ok(pre, post, arena, payload)
    })
}

/// Encodes `payload` as a variable-length value allocated from `arena`.
pub fn encode_varlena(host: &mut HostState, arena: usize, payload: &Vec<u8>) -> (r: Result<
    Datum,
    BridgeError,
>)
    requires
        old(host).wf(),
        old(host).spec_arena_is_valid(arena),
    ensures
        varlena_encode_post(*old(host), *final(host), arena, payload@, r),
{
    if payload.len() > MAX_VARLENA_TOTAL - VARHDRSZ {
        return Err(BridgeError::EncodingOverflow);
    }
    let total = payload.len() + VARHDRSZ;
    let header: u32 = (total as u32) * 4;
    let mut bytes = u32_to_le_bytes(header);
    let mut k: usize = 0;
    while k < payload.len()
        invariant
            k <= payload@.len(),
            bytes@.len() == VARHDRSZ + k,
            bytes@ == spec_u32_to_le_bytes(header) + payload@.subrange(0, k as int),
        decreases payload@.len() - k,
    {
        bytes.push(payload[k]);
        proof {
            assert(bytes@ =~= spec_u32_to_le_bytes(header) + payload@.subrange(0, k + 1 as int));
        }
        k = k + 1;
    }
    proof {
        assert(bytes@ =~= varlena_bytes(payload@));
    }
    match host.alloc_bytes(arena, bytes) {
        Ok(b) => Ok(Datum { value: b as u64 }),
        Err(p) => Err(BridgeError::HostSignaled(p)),
    }
}

/// Reads the variable-length value a datum references.  A datum that
/// does not name a live, well-formed byte region is caller misuse of
/// the "trust the declared tag" contract and reports the violation.
pub fn decode_varlena(host: &HostState, d: Datum) -> (r: Result<Vec<u8>, BridgeError>)
    requires
        host.wf(),
    ensures
        r is Ok <==> (d.value < host.blocks@.len() && host.blocks@[d.value as int].live
            && parse_varlena(host.blocks@[d.value as int].bytes@) is Some),
        r matches Ok(v) ==> Some(v@) == parse_varlena(host.blocks@[d.value as int].bytes@),
        r is Err ==> r == Err::<Vec<u8>, BridgeError>(BridgeError::InvariantViolation),
{
    if d.value >= host.blocks.len() as u64 {
        return Err(BridgeError::InvariantViolation);
    }
    let b: usize = d.value as usize;
    if !host.block_is_live(b) {
        return Err(BridgeError::InvariantViolation);
    }
    let bytes = host.block_bytes(b);
    let n = bytes.len();
    if n < VARHDRSZ || n > MAX_VARLENA_TOTAL {
        return Err(BridgeError::InvariantViolation);
    }
    let header = u32_from_le_bytes(vstd::slice::slice_subrange(bytes.as_slice(), 0, VARHDRSZ));
    if header != (n as u32) * 4 {
        proof {
            assert(spec_u32_from_le_bytes(host.blocks@[d.value as int].bytes@.subrange(0, 4))
                != ((n * 4) as u32));
        }
        return Err(BridgeError::InvariantViolation);
    }
    let mut payload: Vec<u8> = Vec::new();
    let mut k: usize = VARHDRSZ;
    while k < n
        invariant
            VARHDRSZ <= k <= n,
            n == bytes@.len(),
            payload@ == bytes@.subrange(VARHDRSZ as int, k as int),
        decreases n - k,
    {
        payload.push(bytes[k]);
        proof {
            assert(payload@ =~= bytes@.subrange(VARHDRSZ as int, k + 1 as int));
        }
        k = k + 1;
    }
    proof {
        assert(payload@ =~= bytes@.subrange(VARHDRSZ as int, n as int));
    }
    Ok(payload)
}

/// Encodes a text value: its UTF-8 bytes as a variable-length value
/// allocated from `arena`.
pub fn encode_text(host: &mut HostState, arena: usize, s: &str) -> (r: Result<Datum, BridgeError>)
    requires
        old(host).wf(),
        old(host).spec_arena_is_valid(arena),
    ensures
        varlena_encode_post(*old(host), *final(host), arena, encode_utf8(s@), r),
{
    let bytes = s.as_bytes_vec();
    encode_varlena(host, arena, &bytes)
}

/// Reads back the text value a datum references.  The datum must name
/// a live variable-length region holding well-formed UTF-8; anything
/// else is caller misuse of the "trust the declared tag" contract and
/// reports the violation.
pub fn decode_text(host: &HostState, d: Datum) -> (r: Result<String, BridgeError>)
    requires
        host.wf(),
    ensures
        r is Ok <==> (d.value < host.blocks@.len() && host.blocks@[d.value as int].live
            && (parse_varlena(host.blocks@[d.value as int].bytes@) matches Some(p) && valid_utf8(
            p,
        ))),
        r matches Ok(s) ==> parse_varlena(host.blocks@[d.value as int].bytes@) == Some(
            encode_utf8(s@),
        ),
        r is Err ==> r == Err::<String, BridgeError>(BridgeError::InvariantViolation),
{
    let payload = match decode_varlena(host, d) {
        Ok(p) => p,
        Err(_) => {
            return Err(BridgeError::InvariantViolation);
        },
    };
    match utf8_to_string(payload) {
        Some(s) => Ok(s),
        None => Err(BridgeError::InvariantViolation),
    }
}

/// Text values read back unchanged: decoding a datum that holds the
/// encoding of a character sequence yields that very sequence.
pub proof fn lemma_text_round_trip(s1: Seq<char>, s2: Seq<char>)
    requires
        encode_utf8(s1) == encode_utf8(s2),
    ensures
        s1 == s2,
{
    broadcast use encode_utf8_decode_utf8;

    assert(decode_utf8(encode_utf8(s1)) == s1);
    assert(decode_utf8(encode_utf8(s2)) == s2);
}

/// Round trip through the host: encoding a byte-string value from any
/// arena and decoding the datum back yields the very bytes.  The
/// decode is owed whenever the encode went through.
pub fn varlena_codec_round_trip(host: &mut HostState, arena: usize, payload: &Vec<u8>) -> (r:
    Option<Vec<u8>>)
    requires
        old(host).wf(),
        old(host).spec_arena_is_valid(arena),
    ensures
        r matches Some(v) ==> v@ == payload@,
        payload@.len() + VARHDRSZ <= MAX_VARLENA_TOTAL && payload@.len() + VARHDRSZ <= old(
            host,
        ).budget ==> r is Some,
{
    match encode_varlena(host, arena, payload) {
        Ok(d) => {
            proof {
                lemma_varlena_round_trip(payload@);
            }
            match decode_varlena(host, d) {
                Ok(v) => Some(v),
                Err(_) => None,
            }
        },
        Err(_) => None,
    }
}

/// Round trip through the host: encoding a text value from any arena
/// and decoding the datum back yields the very character sequence.
/// The decode is owed whenever the encode went through: an encoding
/// the host accepted always reads back.
pub fn text_codec_round_trip(host: &mut HostState, arena: usize, s: &str) -> (r: Option<String>)
    requires
        old(host).wf(),
        old(host).spec_arena_is_valid(arena),
    ensures
        r matches Some(t) ==> t@ == s@,
        encode_utf8(s@).len() + VARHDRSZ <= MAX_VARLENA_TOTAL && encode_utf8(s@).len() + VARHDRSZ
            <= old(host).budget ==> r is Some,
{
    broadcast use vstd::utf8::encode_utf8_valid_utf8;

    match encode_text(host, arena, s) {
        Ok(d) => {
            proof {
                lemma_varlena_round_trip(encode_utf8(s@));
            }
            match decode_text(host, d) {
                Ok(t) => {
                    proof {
                        lemma_text_round_trip(t@, s@);
                    }
                    Some(t)
                },
                Err(_) => None,
            }
        },
        Err(_) => None,
    }
}

/// Relies on String::from_utf8: it accepts exactly the valid UTF-8
/// byte sequences, and the returned string's bytes are the input.
#[verifier::external_body]
fn utf8_to_string(bytes: Vec<u8>) -> (r: Option<String>)
    ensures
        r is Some <==> valid_utf8(bytes@),
        r matches Some(s) ==> encode_utf8(s@) == bytes@,
{
    String::from_utf8(bytes).ok()
}

/// Relies on ToString for char: the result is the one-character string.
#[verifier::external_body]
fn char_to_string(c: char) -> (r: String)
    ensures
        r@ == seq![c],
{
    c.to_string()
}

/// Encodes a character as a one-character text value.
pub fn encode_char(host: &mut HostState, arena: usize, c: char) -> (r: Result<Datum, BridgeError>)
    requires
        old(host).wf(),
        old(host).spec_arena_is_valid(arena),
    ensures
        varlena_encode_post(*old(host), *final(host), arena, encode_utf8(seq![c]), r),
{
    let s = char_to_string(c);
    encode_text(host, arena, s.as_str())
}

/// Reads back a character: the datum must reference a live text value
/// of exactly one character.
pub fn decode_char(host: &HostState, d: Datum) -> (r: Result<char, BridgeError>)
    requires
        host.wf(),
    ensures
        r is Ok <==> (d.value < host.blocks@.len() && host.blocks@[d.value as int].live
            && (parse_varlena(host.blocks@[d.value as int].bytes@) matches Some(p) && valid_utf8(p)
            && decode_utf8(p).len() == 1)),
        r matches Ok(c) ==> parse_varlena(host.blocks@[d.value as int].bytes@) == Some(
            encode_utf8(seq![c]),
        ),
        r is Err ==> r == Err::<char, BridgeError>(BridgeError::InvariantViolation),
{
    broadcast use encode_utf8_decode_utf8;

    let s = match decode_text(host, d) {
        Ok(s) => s,
        Err(_) => {
            return Err(BridgeError::InvariantViolation);
        },
    };
    if s.as_str().unicode_len() == 1 {
        let c = s.as_str().get_char(0);
        proof {
            assert(seq![c] =~= s@);
        }
        Ok(c)
    } else {
        Err(BridgeError::InvariantViolation)
    }
}

/// Byte layout of a C-string value: the content bytes, which hold no
/// nul of their own, then a terminating nul.
pub open spec fn cstring_bytes(payload: Seq<u8>) -> Seq<u8> {
    payload + seq![0u8]
}

/// Encodes a C-string value (tag CSTRINGOID): the content is copied
/// into one fresh allocation from `arena` with a nul added.  There is no
/// length header, so no length to overflow; the host may still decline
/// the allocation.
pub fn encode_cstring(host: &mut HostState, arena: usize, payload: &Vec<u8>) -> (r: Result<
    Datum,
    BridgeError,
>)
    requires
        old(host).wf(),
        old(host).spec_arena_is_valid(arena),
        !payload@.contains(0u8),
    ensures
        final(host).wf(),
        final(host).arenas@ == old(host).arenas@,
        final(host).top == old(host).top,
        final(host).current == old(host).current,
        r is Err ==> *final(host) == *old(host),
        r is Ok <==> payload@.len() + 1 <= old(host).budget,
        r matches Err(e) ==> e matches BridgeError::HostSignaled(p) && p.code
            == ERRCODE_OUT_OF_MEMORY,
        r matches Ok(d) ==> {
            &&& d.value == old(host).blocks@.len()
            &&& final(host).blocks@.len() == old(host).blocks@.len() + 1
            &&& forall|j: int|
                0 <= j < old(host).blocks@.len() ==> final(host).blocks@[j] == old(
                    host,
                ).blocks@[j]
            &&& final(host).blocks@[d.value as int].arena == arena
            &&& final(host).blocks@[d.value as int].live
            &&& final(host).blocks@[d.value as int].bytes@ == cstring_bytes(payload@)
            &&& final(host).budget == old(host).budget - (payload@.len() + 1)
        },
{
    let mut bytes: Vec<u8> = Vec::new();
    let mut k: usize = 0;
    while k < payload.len()
        invariant
            k <= payload@.len(),
            bytes@ == payload@.subrange(0, k as int),
        decreases payload@.len() - k,
    {
        bytes.push(payload[k]);
        proof {
            assert(bytes@ =~= payload@.subrange(0, k + 1 as int));
        }
        k = k + 1;
    }
    bytes.push(0u8);
    proof {
        assert(bytes@ =~= cstring_bytes(payload@));
    }
    match host.alloc_bytes(arena, bytes) {
        Ok(b) => Ok(Datum { value: b as u64 }),
        Err(p) => Err(BridgeError::HostSignaled(p)),
    }
}

/// Reads back the C-string value a datum references: the bytes before
/// the first nul of a live allocation.  A datum that does not name a
/// live, nul-terminated region is caller misuse and reports the
/// violation.
/// A datum names a readable C-string: a live allocation holding a nul
/// somewhere.
pub open spec fn cstring_readable(host: HostState, d: Datum) -> bool {
    d.value < host.blocks@.len() && host.blocks@[d.value as int].live
        && host.blocks@[d.value as int].bytes@.contains(0u8)
}

/// `v` is what reading the C-string behind `d` yields: the bytes
/// before the first nul.
pub open spec fn cstring_read(host: HostState, d: Datum, v: Seq<u8>) -> bool {
    &&& !v.contains(0u8)
    &&& v.len() < host.blocks@[d.value as int].bytes@.len()
    &&& host.blocks@[d.value as int].bytes@[v.len() as int] == 0u8
    &&& v == host.blocks@[d.value as int].bytes@.subrange(0, v.len() as int)
}

pub fn decode_cstring(host: &HostState, d: Datum) -> (r: Result<Vec<u8>, BridgeError>)
    requires
        host.wf(),
    ensures
        r is Ok <==> cstring_readable(*host, d),
        r matches Ok(v) ==> cstring_read(*host, d, v@),
        r is Err ==> r == Err::<Vec<u8>, BridgeError>(BridgeError::InvariantViolation),
{
    if d.value >= host.blocks.len() as u64 {
        return Err(BridgeError::InvariantViolation);
    }
    let b: usize = d.value as usize;
    if !host.block_is_live(b) {
        return Err(BridgeError::InvariantViolation);
    }
    let bytes = host.block_bytes(b);
    let n = bytes.len();
    let mut out: Vec<u8> = Vec::new();
    let mut k: usize = 0;
    while k < n
        invariant
            k <= n,
            n == bytes@.len(),
            d.value < host.blocks@.len(),
            host.blocks@[d.value as int].live,
            bytes@ == host.blocks@[d.value as int].bytes@,
            out@ == bytes@.subrange(0, k as int),
            forall|j: int| 0 <= j < k ==> bytes@[j] != 0u8,
        decreases n - k,
    {
        let byte = bytes[k];
        if byte == 0u8 {
            proof {
                assert(bytes@.contains(0u8));
                assert(!out@.contains(0u8));
            }
            return Ok(out);
        }
        out.push(byte);
        proof {
            assert(out@ =~= bytes@.subrange(0, k + 1 as int));
        }
        k = k + 1;
    }
    proof {
        assert forall|j: int| 0 <= j < bytes@.len() implies bytes@[j] != 0u8 by {}
        assert(!bytes@.contains(0u8));
    }
    Err(BridgeError::InvariantViolation)
}

/// Round trip through the host: encoding nul-free content as a
/// C-string from any arena and decoding the datum back yields the very
/// content.  The decode is owed whenever the encode went through.
pub fn cstring_codec_round_trip(host: &mut HostState, arena: usize, payload: &Vec<u8>) -> (r:
    Option<Vec<u8>>)
    requires
        old(host).wf(),
        old(host).spec_arena_is_valid(arena),
        !payload@.contains(0u8),
    ensures
        r matches Some(v) ==> v@ == payload@,
        payload@.len() + 1 <= old(host).budget ==> r is Some,
{
    match encode_cstring(host, arena, payload) {
        Ok(d) => {
            proof {
                assert(cstring_bytes(payload@)[payload@.len() as int] == 0u8);
                assert(cstring_readable(*host, d));
            }
            match decode_cstring(host, d) {
                Ok(v) => {
                    proof {
                        lemma_cstring_round_trip(payload@, v@);
                    }
                    Some(v)
                },
                Err(_) => None,
            }
        },
        Err(_) => None,
    }
}

/// Content read back unchanged: a C-string datum holding the encoding
/// of nul-free content parses back to that very content.
pub proof fn lemma_cstring_round_trip(payload: Seq<u8>, v: Seq<u8>)
    requires
        !payload.contains(0u8),
        !v.contains(0u8),
        v.len() < cstring_bytes(payload).len(),
        cstring_bytes(payload)[v.len() as int] == 0u8,
        v == cstring_bytes(payload).subrange(0, v.len() as int),
    ensures
        v == payload,
{
    let stored = cstring_bytes(payload);
    if v.len() < payload.len() {
        assert(stored[v.len() as int] == payload[v.len() as int]);
        assert(payload.contains(0u8)) by {
            assert(payload[v.len() as int] == 0u8);
        }
    } else {
        assert(v.len() == payload.len());
        assert(v =~= payload);
    }
}

} // verus!
