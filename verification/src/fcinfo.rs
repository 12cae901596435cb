//! Access to the host's function-call frame.
//!
//! When the host calls an exposed function it hands over a frame that
//! carries each argument as a value word with a null flag, and a slot
//! through which the function marks its own result null.  These
//! accessors read the frame; the codec then decodes the words.

use vstd::prelude::*;

use crate::codec::{cstring_read, cstring_readable, decode_cstring};
use crate::datum::Datum;
use crate::host::HostState;

verus! {

/// One argument slot: a value word and its null flag.
#[derive(Clone, Copy, Debug, PartialEq, Eq, Structural)]
pub struct NullableDatum {
    pub value: Datum,
    pub isnull: bool,
}

/// The call frame the host hands an exposed function: the argument
/// slots, and the flag the function sets to return the null marker.
#[derive(Debug)]
pub struct FunctionCallInfo {
    pub args: Vec<NullableDatum>,
    pub isnull: bool,
}

impl FunctionCallInfo {
    /// The frame as the host builds it before the call: the arguments,
    /// and a result not yet marked null.
    pub fn new(args: Vec<NullableDatum>) -> (r: FunctionCallInfo)
        ensures
            r.args@ == args@,
            !r.isnull,
    {
        FunctionCallInfo { args, isnull: false }
    }
}

/// An argument as the bridge hands it on: the value word together with
/// the null flag the host declared for it.
#[derive(Clone, Copy, Debug, PartialEq, Eq, Structural)]
pub struct PgDatum {
    pub value: Datum,
    pub isnull: bool,
}

impl PgDatum {
    pub fn new(value: Datum, isnull: bool) -> (r: PgDatum)
        ensures
            r.value == value,
            r.isnull == isnull,
    {
        PgDatum { value, isnull }
    }
}

/// One argument slot of the frame.
fn get_nullable_datum(fcinfo: &FunctionCallInfo, num: usize) -> (r: NullableDatum)
    requires
        num < fcinfo.args@.len(),
    ensures
        r == fcinfo.args@[num as int],
{
    fcinfo.args[num]
}

/// Argument `num` with its null flag.
pub fn pg_getarg(fcinfo: &FunctionCallInfo, num: usize) -> (r: PgDatum)
    requires
        num < fcinfo.args@.len(),
    ensures
        r.value == fcinfo.args@[num as int].value,
        r.isnull == fcinfo.args@[num as int].isnull,
{
    let nd = get_nullable_datum(fcinfo, num);
    PgDatum::new(nd.value, nd.isnull)
}

/// Whether the host declared argument `num` null.
pub fn pg_arg_is_null(fcinfo: &FunctionCallInfo, num: usize) -> (r: bool)
    requires
        num < fcinfo.args@.len(),
    ensures
        r == fcinfo.args@[num as int].isnull,
{
    get_nullable_datum(fcinfo, num).isnull
}

/// Argument `num` as a value word, or nothing when the host declared
/// it null.
pub fn pg_getarg_datum(fcinfo: &FunctionCallInfo, num: usize) -> (r: Option<Datum>)
    requires
        num < fcinfo.args@.len(),
    ensures
        r is Some <==> !fcinfo.args@[num as int].isnull,
        r matches Some(d) ==> d == fcinfo.args@[num as int].value,
{
    if pg_arg_is_null(fcinfo, num) {
        None
    } else {
        Some(get_nullable_datum(fcinfo, num).value)
    }
}

/// Argument `num` as a value word, the null flag ignored.
pub fn pg_getarg_datum_raw(fcinfo: &FunctionCallInfo, num: usize) -> (r: Datum)
    requires
        num < fcinfo.args@.len(),
    ensures
        r == fcinfo.args@[num as int].value,
{
    get_nullable_datum(fcinfo, num).value
}

/// Argument `num` read as a reference into host memory, or nothing
/// when the host declared it null.
pub fn pg_getarg_pointer(fcinfo: &FunctionCallInfo, num: usize) -> (r: Option<u64>)
    requires
        num < fcinfo.args@.len(),
    ensures
        r is Some <==> !fcinfo.args@[num as int].isnull,
        r matches Some(v) ==> v == fcinfo.args@[num as int].value.value,
{
    match pg_getarg_datum(fcinfo, num) {
        Some(datum) => Some(datum.value),
        None => None,
    }
}

/// Argument `num` read as a C-string: the bytes before the first nul
/// of the allocation its word references.  This is for host functions
/// declared to take an actual C-string argument, not for reading a
/// variable-length value; a non-null argument must reference a live,
/// nul-terminated allocation (the host's declaration is trusted).
pub fn pg_getarg_cstr(fcinfo: &FunctionCallInfo, host: &HostState, num: usize) -> (r: Option<
    Vec<u8>,
>)
    requires
        host.wf(),
        num < fcinfo.args@.len(),
        !fcinfo.args@[num as int].isnull ==> cstring_readable(
            *host,
            fcinfo.args@[num as int].value,
        ),
    ensures
        r is Some <==> !fcinfo.args@[num as int].isnull,
        r matches Some(v) ==> cstring_read(*host, fcinfo.args@[num as int].value, v@),
{
    match pg_getarg_datum(fcinfo, num) {
        Some(datum) => match decode_cstring(host, datum) {
            Ok(v) => Some(v),
            Err(_) => None,
        },
        None => None,
    }
}

/// Marks the frame's result as the null marker and yields the zero
/// word the host expects alongside it.
pub fn pg_return_null(fcinfo: &mut FunctionCallInfo) -> (r: Datum)
    ensures
        final(fcinfo).isnull,
        final(fcinfo).args@ == old(fcinfo).args@,
        r.value == 0,
{
    fcinfo.isnull = true;
    Datum { value: 0 }
}

/// The zero word an exposed function with no result hands back.
pub fn pg_return_void() -> (r: Datum)
    ensures
        r.value == 0,
{
    Datum { value: 0 }
}

} // verus!
