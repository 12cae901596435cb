//! The host's value word and the fixed-width scalar encodings.
//!
//! A datum is the host's universal value word: a small scalar is packed
//! directly into it (a direct bit or numeric representation, no
//! allocation), while a variable-length value is a reference to a
//! host-allocated byte region (see `codec`).  Each host-visible type is
//! named by a stable numeric tag, and each type declares which other
//! tags it accepts in its place — a one-directional relation.

use vstd::prelude::*;
use vstd::utf8::encode_utf8;

use crate::bridge::{BridgeError, SignalPayload, ERRCODE_OUT_OF_MEMORY};
use crate::codec::{
    encode_char, encode_text, encode_varlena, varlena_alloc_ok, MAX_VARLENA_TOTAL, VARHDRSZ,
};
use crate::host::HostState;

verus! {

/// The host's universal value word.
#[derive(Clone, Copy, Debug, PartialEq, Eq, Hash, Structural)]
pub struct Datum {
    pub value: u64,
}

impl Datum {
    pub fn from_u64(value: u64) -> (d: Datum)
        ensures
            d.value == value,
    {
        Datum { value }
    }
}

/// Stable type tags of the host-visible types the codec supports.
pub const BOOLOID: u32 = 16;

pub const BYTEAOID: u32 = 17;

pub const CHAROID: u32 = 18;

pub const INT8OID: u32 = 20;

pub const INT2OID: u32 = 21;

pub const INT4OID: u32 = 23;

pub const TEXTOID: u32 = 25;

pub const OIDOID: u32 = 26;

pub const FLOAT4OID: u32 = 700;

pub const FLOAT8OID: u32 = 701;

pub const VARCHAROID: u32 = 1043;

pub const CSTRINGOID: u32 = 2275;

pub const VOIDOID: u32 = 2278;

/// The tag value the host uses for "no such type".
pub const INVALID_OID: u32 = 0;

/// A host object identifier.  The invalid identifier encodes as "no
/// value".
#[derive(Clone, Copy, Debug, PartialEq, Eq, Structural)]
pub struct Oid {
    pub value: u32,
}

/// An object identifier the embedding runtime distinguishes by kind:
/// either the invalid one or a concrete identifier.
#[derive(Clone, Copy, Debug, PartialEq, Eq, Structural)]
pub enum PgOid {
    Invalid,
    Custom(u32),
}

impl PgOid {
    pub open spec fn spec_value(self) -> u32 {
        match self {
            PgOid::Invalid => INVALID_OID,
            PgOid::Custom(v) => v,
        }
    }

    pub fn value(&self) -> (r: u32)
        ensures
            r == self.spec_value(),
    {
        match self {
            PgOid::Invalid => INVALID_OID,
            PgOid::Custom(v) => *v,
        }
    }
}

// Fixed-width scalars pack directly into the value word: signed values
// by sign extension, unsigned values as they are.  Decoding truncates
// the word back to the scalar's width.
pub open spec fn bool_to_datum(v: bool) -> u64 {
    if v {
        1u64
    } else {
        0u64
    }
}

pub open spec fn datum_to_bool(x: u64) -> bool {
    x != 0
}

pub open spec fn i8_to_datum(v: i8) -> u64 {
    v as u64
}

pub open spec fn datum_to_i8(x: u64) -> i8 {
    (x as u8) as i8
}

pub open spec fn i16_to_datum(v: i16) -> u64 {
    v as u64
}

pub open spec fn datum_to_i16(x: u64) -> i16 {
    (x as u16) as i16
}

pub open spec fn i32_to_datum(v: i32) -> u64 {
    v as u64
}

pub open spec fn datum_to_i32(x: u64) -> i32 {
    (x as u32) as i32
}

pub open spec fn i64_to_datum(v: i64) -> u64 {
    v as u64
}

pub open spec fn datum_to_i64(x: u64) -> i64 {
    x as i64
}

pub open spec fn u32_to_datum(v: u32) -> u64 {
    v as u64
}

pub open spec fn datum_to_u32(x: u64) -> u32 {
    x as u32
}

pub fn encode_bool(v: bool) -> (d: Datum)
    ensures
        d.value == bool_to_datum(v),
{
    Datum { value: if v { 1 } else { 0 } }
}

pub fn decode_bool(d: Datum) -> (r: bool)
    ensures
        r == datum_to_bool(d.value),
{
    d.value != 0
}

pub fn encode_i8(v: i8) -> (d: Datum)
    ensures
        d.value == i8_to_datum(v),
{
    Datum { value: v as u64 }
}

pub fn decode_i8(d: Datum) -> (r: i8)
    ensures
        r == datum_to_i8(d.value),
{
    (d.value as u8) as i8
}

pub fn encode_i16(v: i16) -> (d: Datum)
    ensures
        d.value == i16_to_datum(v),
{
    Datum { value: v as u64 }
}

pub fn decode_i16(d: Datum) -> (r: i16)
    ensures
        r == datum_to_i16(d.value),
{
    (d.value as u16) as i16
}

pub fn encode_i32(v: i32) -> (d: Datum)
    ensures
        d.value == i32_to_datum(v),
{
    Datum { value: v as u64 }
}

pub fn decode_i32(d: Datum) -> (r: i32)
    ensures
        r == datum_to_i32(d.value),
{
    (d.value as u32) as i32
}

pub fn encode_i64(v: i64) -> (d: Datum)
    ensures
        d.value == i64_to_datum(v),
{
    Datum { value: v as u64 }
}

pub fn decode_i64(d: Datum) -> (r: i64)
    ensures
        r == datum_to_i64(d.value),
{
    d.value as i64
}

pub fn encode_u32(v: u32) -> (d: Datum)
    ensures
        d.value == u32_to_datum(v),
{
    Datum { value: v as u64 }
}

pub fn decode_u32(d: Datum) -> (r: u32)
    ensures
        r == datum_to_u32(d.value),
{
    d.value as u32
}

// Round-trip laws of the fixed-width scalar encodings: decoding the
// encoded word gives back the value, for every in-range value.
pub proof fn lemma_bool_round_trip(v: bool)
    ensures
        datum_to_bool(bool_to_datum(v)) == v,
{
}

pub proof fn lemma_i8_round_trip(v: i8)
    ensures
        datum_to_i8(i8_to_datum(v)) == v,
{
    assert(((v as u64) as u8) as i8 == v) by (bit_vector);
}

pub proof fn lemma_i16_round_trip(v: i16)
    ensures
        datum_to_i16(i16_to_datum(v)) == v,
{
    assert(((v as u64) as u16) as i16 == v) by (bit_vector);
}

pub proof fn lemma_i32_round_trip(v: i32)
    ensures
        datum_to_i32(i32_to_datum(v)) == v,
{
    assert(((v as u64) as u32) as i32 == v) by (bit_vector);
}

pub proof fn lemma_i64_round_trip(v: i64)
    ensures
        datum_to_i64(i64_to_datum(v)) == v,
{
    assert((v as u64) as i64 == v) by (bit_vector);
}

pub proof fn lemma_u32_round_trip(v: u32)
    ensures
        datum_to_u32(u32_to_datum(v)) == v,
{
    assert(((v as u64) as u32) == v) by (bit_vector);
}

/// Whether a variable-length payload can be encoded from the state
/// `pre`: it must fit the host's representable length and the host's
/// remaining budget.
pub open spec fn varlena_fits(payload: Seq<u8>, pre: HostState) -> bool {
    payload.len() + VARHDRSZ <= MAX_VARLENA_TOTAL && payload.len() + VARHDRSZ <= pre.budget
}

/// The datum referencing the next block allocated from `pre`.
pub open spec fn next_block_datum(pre: HostState) -> Datum {
    Datum { value: pre.blocks@.len() as u64 }
}

/// Converts a native value into the host's value word.
///
/// Each supported type carries a stable type tag and declares which
/// other tags it accepts in its place (one direction only).  When a
/// value's tag is accepted by more than one candidate expected tag,
/// callers take the narrowest compatible candidate.  Encoding
/// allocates from the arena the active-arena register names when a
/// variable-length region is needed; a small scalar packs in place.
/// "No value" stands for the host's null marker and never allocates;
/// an error (an unrepresentable length, or the host declining an
/// allocation) leaves the host untouched — no partial allocation.
pub trait IntoDatum: Sized {
    /// The stable tag of this type.
    spec fn spec_type_oid() -> u32;

    /// The tags whose values this type accepts where its own tag is
    /// expected.
    spec fn spec_compatible(other: u32) -> bool;

    /// What encoding this value from the state `pre` returns when it
    /// succeeds: the encoded word, or the null marker; `None` when it
    /// reports an error from that state.
    spec fn spec_into_datum(self, pre: HostState) -> Option<Option<Datum>>;

    /// How the host's observed state after the encode relates to the
    /// state before it.  A small scalar, the null marker, and every
    /// error leave the host bit-identical; a variable-length value
    /// appends exactly one block, holding its encoding, to the arena
    /// the register names.
    spec fn spec_host_post(self, pre: HostState, post: HostState) -> bool;

    /// Which structured error a failed encode from the state `pre` may
    /// report: an unrepresentable length is exactly `EncodingOverflow`,
    /// a declined allocation carries the host's out-of-memory signal,
    /// and a failed result re-raises its own payload.
    spec fn spec_into_datum_err(self, pre: HostState, e: BridgeError) -> bool;

    fn type_oid() -> (r: u32)
        ensures
            r == Self::spec_type_oid(),
    ;

    fn is_compatible_with(other: u32) -> (r: bool)
        ensures
            r == Self::spec_compatible(other),
    ;

    /// Composite types are out of scope for this codec: they are
    /// layered on top by the metadata collaborator.
    fn composite_type_oid(&self) -> (r: Option<u32>)
        ensures
            r is None,
    {
        None
    }

    fn into_datum(self, host: &mut HostState) -> (r: Result<Option<Datum>, BridgeError>)
        requires
            old(host).wf(),
        ensures
            final(host).wf(),
            final(host).arenas@ == old(host).arenas@,
            final(host).top == old(host).top,
            final(host).current == old(host).current,
            final(host).blocks@.len() >= old(host).blocks@.len(),
            forall|j: int|
                0 <= j < old(host).blocks@.len() ==> final(host).blocks@[j] == old(
                    host,
                ).blocks@[j],
            forall|j: int|
                old(host).blocks@.len() <= j < final(host).blocks@.len()
                    ==> (#[trigger] final(host).blocks@[j]).arena == old(host).current,
            r is Ok <==> self.spec_into_datum(*old(host)) is Some,
            r matches Ok(v) ==> Some(v) == self.spec_into_datum(*old(host)),
            r matches Ok(v) ==> (v is None ==> *final(host) == *old(host)),
            self.spec_host_post(*old(host), *final(host)),
            r matches Err(e) ==> *final(host) == *old(host) && !(e is InvariantViolation)
                && self.spec_into_datum_err(*old(host), e),
    ;
}

impl IntoDatum for bool {
    open spec fn spec_type_oid() -> u32 {
        BOOLOID
    }

    open spec fn spec_compatible(other: u32) -> bool {
        other == BOOLOID
    }

    open spec fn spec_into_datum(self, pre: HostState) -> Option<Option<Datum>> {
        Some(Some(Datum { value: bool_to_datum(self) }))
    }

    open spec fn spec_host_post(self, pre: HostState, post: HostState) -> bool {
        post == pre
    }

    open spec fn spec_into_datum_err(self, pre: HostState, e: BridgeError) -> bool {
        false
    }

    fn type_oid() -> u32 {
        BOOLOID
    }

    fn is_compatible_with(other: u32) -> bool {
        other == BOOLOID
    }

    fn into_datum(self, host: &mut HostState) -> Result<Option<Datum>, BridgeError> {
        Ok(Some(encode_bool(self)))
    }
}

impl IntoDatum for i8 {
    open spec fn spec_type_oid() -> u32 {
        CHAROID
    }

    open spec fn spec_compatible(other: u32) -> bool {
        other == CHAROID
    }

    open spec fn spec_into_datum(self, pre: HostState) -> Option<Option<Datum>> {
        Some(Some(Datum { value: i8_to_datum(self) }))
    }

    open spec fn spec_host_post(self, pre: HostState, post: HostState) -> bool {
        post == pre
    }

    open spec fn spec_into_datum_err(self, pre: HostState, e: BridgeError) -> bool {
        false
    }

    fn type_oid() -> u32 {
        CHAROID
    }

    fn is_compatible_with(other: u32) -> bool {
        other == CHAROID
    }

    fn into_datum(self, host: &mut HostState) -> Result<Option<Datum>, BridgeError> {
        Ok(Some(encode_i8(self)))
    }
}

impl IntoDatum for i16 {
    open spec fn spec_type_oid() -> u32 {
        INT2OID
    }

    open spec fn spec_compatible(other: u32) -> bool {
        other == INT2OID || other == CHAROID
    }

    open spec fn spec_into_datum(self, pre: HostState) -> Option<Option<Datum>> {
        Some(Some(Datum { value: i16_to_datum(self) }))
    }

    open spec fn spec_host_post(self, pre: HostState, post: HostState) -> bool {
        post == pre
    }

    open spec fn spec_into_datum_err(self, pre: HostState, e: BridgeError) -> bool {
        false
    }

    fn type_oid() -> u32 {
        INT2OID
    }

    fn is_compatible_with(other: u32) -> bool {
        other == INT2OID || other == CHAROID
    }

    fn into_datum(self, host: &mut HostState) -> Result<Option<Datum>, BridgeError> {
        Ok(Some(encode_i16(self)))
    }
}

impl IntoDatum for i32 {
    open spec fn spec_type_oid() -> u32 {
        INT4OID
    }

    open spec fn spec_compatible(other: u32) -> bool {
        other == INT4OID || other == CHAROID || other == INT2OID
    }

    open spec fn spec_into_datum(self, pre: HostState) -> Option<Option<Datum>> {
        Some(Some(Datum { value: i32_to_datum(self) }))
    }

    open spec fn spec_host_post(self, pre: HostState, post: HostState) -> bool {
        post == pre
    }

    open spec fn spec_into_datum_err(self, pre: HostState, e: BridgeError) -> bool {
        false
    }

    fn type_oid() -> u32 {
        INT4OID
    }

    fn is_compatible_with(other: u32) -> bool {
        other == INT4OID || other == CHAROID || other == INT2OID
    }

    fn into_datum(self, host: &mut HostState) -> Result<Option<Datum>, BridgeError> {
        Ok(Some(encode_i32(self)))
    }
}

impl IntoDatum for i64 {
    open spec fn spec_type_oid() -> u32 {
        INT8OID
    }

    open spec fn spec_compatible(other: u32) -> bool {
        other == INT8OID || other == CHAROID || other == INT2OID || other == INT4OID
    }

    open spec fn spec_into_datum(self, pre: HostState) -> Option<Option<Datum>> {
        Some(Some(Datum { value: i64_to_datum(self) }))
    }

    open spec fn spec_host_post(self, pre: HostState, post: HostState) -> bool {
        post == pre
    }

    open spec fn spec_into_datum_err(self, pre: HostState, e: BridgeError) -> bool {
        false
    }

    fn type_oid() -> u32 {
        INT8OID
    }

    fn is_compatible_with(other: u32) -> bool {
        other == INT8OID || other == CHAROID || other == INT2OID || other == INT4OID
    }

    fn into_datum(self, host: &mut HostState) -> Result<Option<Datum>, BridgeError> {
        Ok(Some(encode_i64(self)))
    }
}

impl IntoDatum for u32 {
    open spec fn spec_type_oid() -> u32 {
        OIDOID
    }

    open spec fn spec_compatible(other: u32) -> bool {
        other == OIDOID || other == CHAROID || other == INT2OID || other == INT4OID
    }

    open spec fn spec_into_datum(self, pre: HostState) -> Option<Option<Datum>> {
        Some(Some(Datum { value: u32_to_datum(self) }))
    }

    open spec fn spec_host_post(self, pre: HostState, post: HostState) -> bool {
        post == pre
    }

    open spec fn spec_into_datum_err(self, pre: HostState, e: BridgeError) -> bool {
        false
    }

    fn type_oid() -> u32 {
        OIDOID
    }

    fn is_compatible_with(other: u32) -> bool {
        other == OIDOID || other == CHAROID || other == INT2OID || other == INT4OID
    }

    fn into_datum(self, host: &mut HostState) -> Result<Option<Datum>, BridgeError> {
        Ok(Some(encode_u32(self)))
    }
}

impl IntoDatum for Oid {
    open spec fn spec_type_oid() -> u32 {
        OIDOID
    }

    open spec fn spec_compatible(other: u32) -> bool {
        other == OIDOID
    }

    open spec fn spec_into_datum(self, pre: HostState) -> Option<Option<Datum>> {
        if self.value == INVALID_OID {
            Some(None)
        } else {
            Some(Some(Datum { value: u32_to_datum(self.value) }))
        }
    }

    open spec fn spec_host_post(self, pre: HostState, post: HostState) -> bool {
        post == pre
    }

    open spec fn spec_into_datum_err(self, pre: HostState, e: BridgeError) -> bool {
        false
    }

    fn type_oid() -> u32 {
        OIDOID
    }

    fn is_compatible_with(other: u32) -> bool {
        other == OIDOID
    }

    fn into_datum(self, host: &mut HostState) -> Result<Option<Datum>, BridgeError> {
        if self.value == INVALID_OID {
            Ok(None)
        } else {
            Ok(Some(encode_u32(self.value)))
        }
    }
}

impl IntoDatum for PgOid {
    open spec fn spec_type_oid() -> u32 {
        OIDOID
    }

    open spec fn spec_compatible(other: u32) -> bool {
        other == OIDOID
    }

    open spec fn spec_into_datum(self, pre: HostState) -> Option<Option<Datum>> {
        match self {
            PgOid::Invalid => Some(None),
            PgOid::Custom(v) => Some(Some(Datum { value: u32_to_datum(v) })),
        }
    }

    open spec fn spec_host_post(self, pre: HostState, post: HostState) -> bool {
        post == pre
    }

    open spec fn spec_into_datum_err(self, pre: HostState, e: BridgeError) -> bool {
        false
    }

    fn type_oid() -> u32 {
        OIDOID
    }

    fn is_compatible_with(other: u32) -> bool {
        other == OIDOID
    }

    fn into_datum(self, host: &mut HostState) -> Result<Option<Datum>, BridgeError> {
        match self {
            PgOid::Invalid => Ok(None),
            PgOid::Custom(v) => Ok(Some(encode_u32(v))),
        }
    }
}

impl<'a> IntoDatum for &'a str {
    open spec fn spec_type_oid() -> u32 {
        TEXTOID
    }

    open spec fn spec_compatible(other: u32) -> bool {
        other == TEXTOID || other == VARCHAROID
    }

    open spec fn spec_into_datum(self, pre: HostState) -> Option<Option<Datum>> {
        if varlena_fits(encode_utf8(self@), pre) {
            Some(Some(next_block_datum(pre)))
        } else {
            None
        }
    }

    open spec fn spec_host_post(self, pre: HostState, post: HostState) -> bool {
        if varlena_fits(encode_utf8(self@), pre) {
            varlena_alloc_ok(pre, post, pre.current, encode_utf8(self@))
        } else {
            post == pre
        }
    }

    open spec fn spec_into_datum_err(self, pre: HostState, e: BridgeError) -> bool {
        if encode_utf8(self@).len() + VARHDRSZ > MAX_VARLENA_TOTAL {
            e == BridgeError::EncodingOverflow
        } else {
            e matches BridgeError::HostSignaled(p) && p.code == ERRCODE_OUT_OF_MEMORY
        }
    }

    fn type_oid() -> u32 {
        TEXTOID
    }

    fn is_compatible_with(other: u32) -> bool {
        other == TEXTOID || other == VARCHAROID
    }

    fn into_datum(self, host: &mut HostState) -> Result<Option<Datum>, BridgeError> {
        let arena = host.current_arena();
        match encode_text(host, arena, self) {
            Ok(d) => Ok(Some(d)),
            Err(e) => Err(e),
        }
    }
}

impl IntoDatum for String {
    open spec fn spec_type_oid() -> u32 {
        TEXTOID
    }

    open spec fn spec_compatible(other: u32) -> bool {
        other == TEXTOID || other == VARCHAROID
    }

    open spec fn spec_into_datum(self, pre: HostState) -> Option<Option<Datum>> {
        if varlena_fits(encode_utf8(self@), pre) {
            Some(Some(next_block_datum(pre)))
        } else {
            None
        }
    }

    open spec fn spec_host_post(self, pre: HostState, post: HostState) -> bool {
        if varlena_fits(encode_utf8(self@), pre) {
            varlena_alloc_ok(pre, post, pre.current, encode_utf8(self@))
        } else {
            post == pre
        }
    }

    open spec fn spec_into_datum_err(self, pre: HostState, e: BridgeError) -> bool {
        if encode_utf8(self@).len() + VARHDRSZ > MAX_VARLENA_TOTAL {
            e == BridgeError::EncodingOverflow
        } else {
            e matches BridgeError::HostSignaled(p) && p.code == ERRCODE_OUT_OF_MEMORY
        }
    }

    fn type_oid() -> u32 {
        TEXTOID
    }

    fn is_compatible_with(other: u32) -> bool {
        other == TEXTOID || other == VARCHAROID
    }

    fn into_datum(self, host: &mut HostState) -> Result<Option<Datum>, BridgeError> {
        let arena = host.current_arena();
        match encode_text(host, arena, self.as_str()) {
            Ok(d) => Ok(Some(d)),
            Err(e) => Err(e),
        }
    }
}

impl<'a> IntoDatum for &'a String {
    open spec fn spec_type_oid() -> u32 {
        TEXTOID
    }

    open spec fn spec_compatible(other: u32) -> bool {
        other == TEXTOID || other == VARCHAROID
    }

    open spec fn spec_into_datum(self, pre: HostState) -> Option<Option<Datum>> {
        if varlena_fits(encode_utf8(self@), pre) {
            Some(Some(next_block_datum(pre)))
        } else {
            None
        }
    }

    open spec fn spec_host_post(self, pre: HostState, post: HostState) -> bool {
        if varlena_fits(encode_utf8(self@), pre) {
            varlena_alloc_ok(pre, post, pre.current, encode_utf8(self@))
        } else {
            post == pre
        }
    }

    open spec fn spec_into_datum_err(self, pre: HostState, e: BridgeError) -> bool {
        if encode_utf8(self@).len() + VARHDRSZ > MAX_VARLENA_TOTAL {
            e == BridgeError::EncodingOverflow
        } else {
            e matches BridgeError::HostSignaled(p) && p.code == ERRCODE_OUT_OF_MEMORY
        }
    }

    fn type_oid() -> u32 {
        TEXTOID
    }

    fn is_compatible_with(other: u32) -> bool {
        other == TEXTOID || other == VARCHAROID
    }

    fn into_datum(self, host: &mut HostState) -> Result<Option<Datum>, BridgeError> {
        let arena = host.current_arena();
        match encode_text(host, arena, self.as_str()) {
            Ok(d) => Ok(Some(d)),
            Err(e) => Err(e),
        }
    }
}

impl IntoDatum for char {
    open spec fn spec_type_oid() -> u32 {
        VARCHAROID
    }

    open spec fn spec_compatible(other: u32) -> bool {
        other == VARCHAROID
    }

    open spec fn spec_into_datum(self, pre: HostState) -> Option<Option<Datum>> {
        if varlena_fits(encode_utf8(seq![self]), pre) {
            Some(Some(next_block_datum(pre)))
        } else {
            None
        }
    }

    open spec fn spec_host_post(self, pre: HostState, post: HostState) -> bool {
        if varlena_fits(encode_utf8(seq![self]), pre) {
            varlena_alloc_ok(pre, post, pre.current, encode_utf8(seq![self]))
        } else {
            post == pre
        }
    }

    open spec fn spec_into_datum_err(self, pre: HostState, e: BridgeError) -> bool {
        if encode_utf8(seq![self]).len() + VARHDRSZ > MAX_VARLENA_TOTAL {
            e == BridgeError::EncodingOverflow
        } else {
            e matches BridgeError::HostSignaled(p) && p.code == ERRCODE_OUT_OF_MEMORY
        }
    }

    fn type_oid() -> u32 {
        VARCHAROID
    }

    fn is_compatible_with(other: u32) -> bool {
        other == VARCHAROID
    }

    fn into_datum(self, host: &mut HostState) -> Result<Option<Datum>, BridgeError> {
        let arena = host.current_arena();
        match encode_char(host, arena, self) {
            Ok(d) => Ok(Some(d)),
            Err(e) => Err(e),
        }
    }
}

impl<'a> IntoDatum for &'a [u8] {
    open spec fn spec_type_oid() -> u32 {
        BYTEAOID
    }

    open spec fn spec_compatible(other: u32) -> bool {
        other == BYTEAOID
    }

    open spec fn spec_into_datum(self, pre: HostState) -> Option<Option<Datum>> {
        if varlena_fits(self@, pre) {
            Some(Some(next_block_datum(pre)))
        } else {
            None
        }
    }

    open spec fn spec_host_post(self, pre: HostState, post: HostState) -> bool {
        if varlena_fits(self@, pre) {
            varlena_alloc_ok(pre, post, pre.current, self@)
        } else {
            post == pre
        }
    }

    open spec fn spec_into_datum_err(self, pre: HostState, e: BridgeError) -> bool {
        if self@.len() + VARHDRSZ > MAX_VARLENA_TOTAL {
            e == BridgeError::EncodingOverflow
        } else {
            e matches BridgeError::HostSignaled(p) && p.code == ERRCODE_OUT_OF_MEMORY
        }
    }

    fn type_oid() -> u32 {
        BYTEAOID
    }

    fn is_compatible_with(other: u32) -> bool {
        other == BYTEAOID
    }

    fn into_datum(self, host: &mut HostState) -> Result<Option<Datum>, BridgeError> {
        let arena = host.current_arena();
        let owned = vstd::slice::slice_to_vec(self);
        match encode_varlena(host, arena, &owned) {
            Ok(d) => Ok(Some(d)),
            Err(e) => Err(e),
        }
    }
}

impl IntoDatum for Vec<u8> {
    open spec fn spec_type_oid() -> u32 {
        BYTEAOID
    }

    open spec fn spec_compatible(other: u32) -> bool {
        other == BYTEAOID
    }

    open spec fn spec_into_datum(self, pre: HostState) -> Option<Option<Datum>> {
        if varlena_fits(self@, pre) {
            Some(Some(next_block_datum(pre)))
        } else {
            None
        }
    }

    open spec fn spec_host_post(self, pre: HostState, post: HostState) -> bool {
        if varlena_fits(self@, pre) {
            varlena_alloc_ok(pre, post, pre.current, self@)
        } else {
            post == pre
        }
    }

    open spec fn spec_into_datum_err(self, pre: HostState, e: BridgeError) -> bool {
        if self@.len() + VARHDRSZ > MAX_VARLENA_TOTAL {
            e == BridgeError::EncodingOverflow
        } else {
            e matches BridgeError::HostSignaled(p) && p.code == ERRCODE_OUT_OF_MEMORY
        }
    }

    fn type_oid() -> u32 {
        BYTEAOID
    }

    fn is_compatible_with(other: u32) -> bool {
        other == BYTEAOID
    }

    fn into_datum(self, host: &mut HostState) -> Result<Option<Datum>, BridgeError> {
        let arena = host.current_arena();
        match encode_varlena(host, arena, &self) {
            Ok(d) => Ok(Some(d)),
            Err(e) => Err(e),
        }
    }
}

impl IntoDatum for () {
    open spec fn spec_type_oid() -> u32 {
        VOIDOID
    }

    open spec fn spec_compatible(other: u32) -> bool {
        other == VOIDOID
    }

    open spec fn spec_into_datum(self, pre: HostState) -> Option<Option<Datum>> {
        Some(Some(Datum { value: 0u64 }))
    }

    open spec fn spec_host_post(self, pre: HostState, post: HostState) -> bool {
        post == pre
    }

    open spec fn spec_into_datum_err(self, pre: HostState, e: BridgeError) -> bool {
        false
    }

    fn type_oid() -> u32 {
        VOIDOID
    }

    fn is_compatible_with(other: u32) -> bool {
        other == VOIDOID
    }

    fn into_datum(self, host: &mut HostState) -> Result<Option<Datum>, BridgeError> {
        Ok(Some(Datum { value: 0 }))
    }
}

impl IntoDatum for Datum {
    open spec fn spec_type_oid() -> u32 {
        INT8OID
    }

    open spec fn spec_compatible(other: u32) -> bool {
        other == INT8OID
    }

    open spec fn spec_into_datum(self, pre: HostState) -> Option<Option<Datum>> {
        Some(Some(self))
    }

    open spec fn spec_host_post(self, pre: HostState, post: HostState) -> bool {
        post == pre
    }

    open spec fn spec_into_datum_err(self, pre: HostState, e: BridgeError) -> bool {
        false
    }

    fn type_oid() -> u32 {
        INT8OID
    }

    fn is_compatible_with(other: u32) -> bool {
        other == INT8OID
    }

    fn into_datum(self, host: &mut HostState) -> Result<Option<Datum>, BridgeError> {
        Ok(Some(self))
    }
}

/// The null marker of an optional value encodes as "no value" without
/// touching the host.
impl<T: IntoDatum> IntoDatum for Option<T> {
    open spec fn spec_type_oid() -> u32 {
        T::spec_type_oid()
    }

    open spec fn spec_compatible(other: u32) -> bool {
        other == T::spec_type_oid()
    }

    open spec fn spec_into_datum(self, pre: HostState) -> Option<Option<Datum>> {
        match self {
            Some(t) => t.spec_into_datum(pre),
            None => Some(None),
        }
    }

    open spec fn spec_host_post(self, pre: HostState, post: HostState) -> bool {
        match self {
            Some(t) => t.spec_host_post(pre, post),
            None => post == pre,
        }
    }

    open spec fn spec_into_datum_err(self, pre: HostState, e: BridgeError) -> bool {
        match self {
            Some(t) => t.spec_into_datum_err(pre, e),
            None => false,
        }
    }

    fn type_oid() -> u32 {
        T::type_oid()
    }

    fn is_compatible_with(other: u32) -> bool {
        T::type_oid() == other
    }

    fn into_datum(self, host: &mut HostState) -> Result<Option<Datum>, BridgeError> {
        match self {
            Some(t) => t.into_datum(host),
            None => Ok(None),
        }
    }
}

/// A failed result raises its payload through the bridge as the
/// structured form of the host's signal instead of encoding anything.
impl<T: IntoDatum> IntoDatum for Result<T, SignalPayload> {
    open spec fn spec_type_oid() -> u32 {
        T::spec_type_oid()
    }

    open spec fn spec_compatible(other: u32) -> bool {
        other == T::spec_type_oid()
    }

    open spec fn spec_into_datum(self, pre: HostState) -> Option<Option<Datum>> {
        match self {
            Ok(t) => t.spec_into_datum(pre),
            Err(_) => None,
        }
    }

    open spec fn spec_host_post(self, pre: HostState, post: HostState) -> bool {
        match self {
            Ok(t) => t.spec_host_post(pre, post),
            Err(_) => post == pre,
        }
    }

    open spec fn spec_into_datum_err(self, pre: HostState, e: BridgeError) -> bool {
        match self {
            Ok(t) => t.spec_into_datum_err(pre, e),
            Err(p) => e == BridgeError::HostSignaled(p),
        }
    }

    fn type_oid() -> u32 {
        T::type_oid()
    }

    fn is_compatible_with(other: u32) -> bool {
        T::type_oid() == other
    }

    fn into_datum(self, host: &mut HostState) -> Result<Option<Datum>, BridgeError> {
        match self {
            Ok(t) => t.into_datum(host),
            Err(p) => Err(BridgeError::HostSignaled(p)),
        }
    }
}

// The host encodes floating-point values (tags FLOAT4OID and
// FLOAT8OID) by their raw bit pattern, not by reparsing; the bridge
// moves those patterns as plain words.
pub fn encode_float4_bits(bits: u32) -> (d: Datum)
    ensures
        d.value == u32_to_datum(bits),
{
    Datum { value: bits as u64 }
}

pub fn decode_float4_bits(d: Datum) -> (r: u32)
    ensures
        r == datum_to_u32(d.value),
{
    d.value as u32
}

pub fn encode_float8_bits(bits: u64) -> (d: Datum)
    ensures
        d.value == bits,
{
    Datum { value: bits }
}

pub fn decode_float8_bits(d: Datum) -> (r: u64)
    ensures
        r == d.value,
{
    d.value
}

} // verus!

