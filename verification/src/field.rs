//! The generic field accessor.
//!
//! Every piece of native object state is one field in a byte-addressed
//! space, reached by a (handle, slot, field identifier) triple.  The
//! functions here are the one primitive every concrete accessor in the
//! crate instantiates: they size a buffer exactly for the wire shape,
//! issue the native call, pass the status through the decode chokepoint,
//! and reinterpret the bytes as the requested type.  String variants
//! additionally validate UTF-8 and NUL termination, surfacing their own
//! errors rather than conflating them with native failure.

use vstd::bytes::{
    lemma_auto_spec_u16_to_from_le_bytes, lemma_auto_spec_u32_to_from_le_bytes,
    lemma_auto_spec_u64_to_from_le_bytes, spec_u16_from_le_bytes, spec_u16_to_le_bytes,
    spec_u32_from_le_bytes, spec_u32_to_le_bytes, spec_u64_from_le_bytes, spec_u64_to_le_bytes,
    u16_from_le_bytes, u16_to_le_bytes, u32_from_le_bytes, u32_to_le_bytes, u64_from_le_bytes,
    u64_to_le_bytes,
};
use vstd::prelude::*;
use vstd::slice::slice_to_vec;
use vstd::utf8::{decode_utf8, encode_utf8, valid_utf8};

use crate::appliance::{spec_lookup, Appliance};
use crate::error::{decode, spec_decode, Error, ExegyError};
use crate::object::Wrapper;

verus! {

/// The pseudo-slot under which session-level fields live.
pub const XC_SESSION: u32 = 0xFFFF_FFFF;

/// The pseudo-slot under which container-level fields live.
pub const XC_CONTAINER: u32 = 0xFFFF_FFFE;

/// The pseudo-slot under which event-level fields live.
pub const XC_EVENT: u32 = 0xFFFF_FFFD;

/// The slot argument that asks a subscription request to allocate the
/// next available slot.
pub const XC_NEXT_AVAILABLE_SLOT: u32 = 0xFFFF_FFFF;

/// A marker trait for field identifiers: anything that names one field
/// of the native field space by a 64-bit value.
pub trait Field {
    /// The numeric field identifier.
    spec fn spec_id(&self) -> u64;

    /// Get the u64 value for a given field ID.
    fn to_u64(&self) -> (r: u64)
        ensures
            r == self.spec_id(),
    ;
}

/// The outcome of a fixed-size native read once the status has passed
/// through the decode chokepoint.
pub open spec fn spec_field_read(
    plant: Appliance,
    handle: u64,
    slot: u32,
    field: u64,
    size: u32,
) -> Result<Seq<u8>, Error> {
    let st = plant.spec_get_field(handle, slot, field, size);
    match spec_decode(st.0) {
        Ok(_) => Ok(st.1),
        Err(e) => Err(Error::Exegy(e)),
    }
}

/// The outcome of a capacity-bounded native read once the status has
/// passed through the decode chokepoint.
pub open spec fn spec_field_read_upto(
    plant: Appliance,
    handle: u64,
    slot: u32,
    field: u64,
    cap: u32,
) -> Result<Seq<u8>, Error> {
    let st = plant.spec_get_field_upto(handle, slot, field, cap);
    match spec_decode(st.0) {
        Ok(_) => Ok(st.1),
        Err(e) => Err(Error::Exegy(e)),
    }
}

/// What a successful native write leaves behind: the named field of the
/// named object holds exactly the given bytes, and nothing else moved.
pub open spec fn spec_set_effect(
    pre: Appliance,
    post: Appliance,
    handle: u64,
    slot: u32,
    field: u64,
    bytes: Seq<u8>,
) -> bool {
    &&& post.spec_has_object(handle)
    &&& post.objects@.len() == pre.objects@.len()
    &&& forall|j: int|
        0 <= j < pre.objects@.len() && j != handle - 1 ==> post.objects@[j] == pre.objects@[j]
    &&& Appliance::spec_same_shell(post.spec_object(handle), pre.spec_object(handle))
    &&& spec_lookup(post.spec_object(handle).fields@, slot, field) == Some(bytes)
    &&& forall|s2: u32, f2: u64|
        !(s2 == slot && f2 == field) ==> spec_lookup(post.spec_object(handle).fields@, s2, f2)
            == spec_lookup(pre.spec_object(handle).fields@, s2, f2)
}

/// Retrieve the contents of the given field as a `u8`.
pub fn get_u8<O: Wrapper, F: Field>(plant: &Appliance, object: &O, slot: u32, field: F) -> (r:
    Result<u8, Error>)
    ensures
        match spec_field_read(*plant, object.spec_handle(), slot, field.spec_id(), 1) {
            Ok(b) => r == Ok::<u8, Error>(b[0]),
            Err(e) => r == Err::<u8, Error>(e),
        },
{
    let (status, bytes) = plant.get_field(object.as_xhandle(), slot, field.to_u64(), 1);
    match decode(status) {
        Ok(_) => Ok(bytes[0]),
        Err(e) => Err(Error::Exegy(e)),
    }
}

/// Retrieve the contents of the given field as a `u16`.
pub fn get_u16<O: Wrapper, F: Field>(plant: &Appliance, object: &O, slot: u32, field: F) -> (r:
    Result<u16, Error>)
    ensures
        match spec_field_read(*plant, object.spec_handle(), slot, field.spec_id(), 2) {
            Ok(b) => r == Ok::<u16, Error>(spec_u16_from_le_bytes(b)),
            Err(e) => r == Err::<u16, Error>(e),
        },
{
    let (status, bytes) = plant.get_field(object.as_xhandle(), slot, field.to_u64(), 2);
    match decode(status) {
        Ok(_) => Ok(u16_from_le_bytes(bytes.as_slice())),
        Err(e) => Err(Error::Exegy(e)),
    }
}

/// Retrieve the contents of the given field as a `u32`.
pub fn get_u32<O: Wrapper, F: Field>(plant: &Appliance, object: &O, slot: u32, field: F) -> (r:
    Result<u32, Error>)
    ensures
        match spec_field_read(*plant, object.spec_handle(), slot, field.spec_id(), 4) {
            Ok(b) => r == Ok::<u32, Error>(spec_u32_from_le_bytes(b)),
            Err(e) => r == Err::<u32, Error>(e),
        },
{
    let (status, bytes) = plant.get_field(object.as_xhandle(), slot, field.to_u64(), 4);
    match decode(status) {
        Ok(_) => Ok(u32_from_le_bytes(bytes.as_slice())),
        Err(e) => Err(Error::Exegy(e)),
    }
}

/// Retrieve the contents of the given field as a `u64`.
pub fn get_u64<O: Wrapper, F: Field>(plant: &Appliance, object: &O, slot: u32, field: F) -> (r:
    Result<u64, Error>)
    ensures
        match spec_field_read(*plant, object.spec_handle(), slot, field.spec_id(), 8) {
            Ok(b) => r == Ok::<u64, Error>(spec_u64_from_le_bytes(b)),
            Err(e) => r == Err::<u64, Error>(e),
        },
{
    let (status, bytes) = plant.get_field(object.as_xhandle(), slot, field.to_u64(), 8);
    match decode(status) {
        Ok(_) => Ok(u64_from_le_bytes(bytes.as_slice())),
        Err(e) => Err(Error::Exegy(e)),
    }
}

/// Retrieve the contents of the given field as a fixed-size binary
/// record of exactly `size` bytes.
pub fn get_record<O: Wrapper, F: Field>(
    plant: &Appliance,
    object: &O,
    slot: u32,
    field: F,
    size: u32,
) -> (r: Result<Vec<u8>, Error>)
    ensures
        match spec_field_read(*plant, object.spec_handle(), slot, field.spec_id(), size) {
            Ok(b) => r is Ok && r->Ok_0@ == b,
            Err(e) => r == Err::<Vec<u8>, Error>(e),
        },
{
    let (status, bytes) = plant.get_field(object.as_xhandle(), slot, field.to_u64(), size);
    match decode(status) {
        Ok(_) => Ok(bytes),
        Err(e) => Err(Error::Exegy(e)),
    }
}

/// The unsigned 32-bit pattern that stands for a signed value on the
/// wire, in two's complement.
pub open spec fn spec_i32_to_u32(v: i32) -> u32 {
    if v >= 0 {
        v as u32
    } else {
        (v + 0x1_0000_0000) as u32
    }
}

/// The signed reading of an unsigned 32-bit wire pattern, in two's
/// complement.
pub open spec fn spec_u32_to_i32(u: u32) -> i32 {
    if u < 0x8000_0000 {
        u as i32
    } else {
        (u - 0x1_0000_0000) as i32
    }
}

/// The two's-complement readings invert each other.
pub proof fn lemma_i32_u32_roundtrip(v: i32)
    ensures
        spec_u32_to_i32(spec_i32_to_u32(v)) == v,
{
}

fn i32_to_u32(v: i32) -> (r: u32)
    ensures
        r == spec_i32_to_u32(v),
{
    if v >= 0 {
        v as u32
    } else {
        ((v as i64) + 0x1_0000_0000) as u32
    }
}

fn u32_to_i32(u: u32) -> (r: i32)
    ensures
        r == spec_u32_to_i32(u),
{
    if u < 0x8000_0000 {
        u as i32
    } else {
        ((u as i64) - 0x1_0000_0000) as i32
    }
}

/// Retrieve the contents of the given field as an `i32`.
pub fn get_i32<O: Wrapper, F: Field>(plant: &Appliance, object: &O, slot: u32, field: F) -> (r:
    Result<i32, Error>)
    ensures
        match spec_field_read(*plant, object.spec_handle(), slot, field.spec_id(), 4) {
            Ok(b) => r == Ok::<i32, Error>(spec_u32_to_i32(spec_u32_from_le_bytes(b))),
            Err(e) => r == Err::<i32, Error>(e),
        },
{
    let (status, bytes) = plant.get_field(object.as_xhandle(), slot, field.to_u64(), 4);
    match decode(status) {
        Ok(_) => Ok(u32_to_i32(u32_from_le_bytes(bytes.as_slice()))),
        Err(e) => Err(Error::Exegy(e)),
    }
}

/// Write the given `u8` into the given field.
pub fn set_u8<O: Wrapper, F: Field>(
    plant: &mut Appliance,
    object: &O,
    slot: u32,
    field: F,
    value: u8,
) -> (r: Result<(), Error>)
    ensures
        !old(plant).spec_has_object(object.spec_handle()) ==> r == Err::<(), Error>(
            Error::Exegy(ExegyError::BadHandle),
        ) && *final(plant) == *old(plant),
        old(plant).spec_has_object(object.spec_handle()) ==> r == Ok::<(), Error>(())
            && spec_set_effect(
            *old(plant),
            *final(plant),
            object.spec_handle(),
            slot,
            field.spec_id(),
            seq![value],
        ),
{
    let mut bytes: Vec<u8> = Vec::new();
    bytes.push(value);
    assert(bytes@ =~= seq![value]);
    let status = plant.set_field(object.as_xhandle(), slot, field.to_u64(), bytes);
    match decode(status) {
        Ok(_) => Ok(()),
        Err(e) => Err(Error::Exegy(e)),
    }
}

/// Write the given `u32` into the given field.
pub fn set_u32<O: Wrapper, F: Field>(
    plant: &mut Appliance,
    object: &O,
    slot: u32,
    field: F,
    value: u32,
) -> (r: Result<(), Error>)
    ensures
        !old(plant).spec_has_object(object.spec_handle()) ==> r == Err::<(), Error>(
            Error::Exegy(ExegyError::BadHandle),
        ) && *final(plant) == *old(plant),
        old(plant).spec_has_object(object.spec_handle()) ==> r == Ok::<(), Error>(())
            && spec_set_effect(
            *old(plant),
            *final(plant),
            object.spec_handle(),
            slot,
            field.spec_id(),
            spec_u32_to_le_bytes(value),
        ),
{
    let bytes = u32_to_le_bytes(value);
    let status = plant.set_field(object.as_xhandle(), slot, field.to_u64(), bytes);
    match decode(status) {
        Ok(_) => Ok(()),
        Err(e) => Err(Error::Exegy(e)),
    }
}

/// Write the given `u64` into the given field.
pub fn set_u64<O: Wrapper, F: Field>(
    plant: &mut Appliance,
    object: &O,
    slot: u32,
    field: F,
    value: u64,
) -> (r: Result<(), Error>)
    ensures
        !old(plant).spec_has_object(object.spec_handle()) ==> r == Err::<(), Error>(
            Error::Exegy(ExegyError::BadHandle),
        ) && *final(plant) == *old(plant),
        old(plant).spec_has_object(object.spec_handle()) ==> r == Ok::<(), Error>(())
            && spec_set_effect(
            *old(plant),
            *final(plant),
            object.spec_handle(),
            slot,
            field.spec_id(),
            spec_u64_to_le_bytes(value),
        ),
{
    let bytes = u64_to_le_bytes(value);
    let status = plant.set_field(object.as_xhandle(), slot, field.to_u64(), bytes);
    match decode(status) {
        Ok(_) => Ok(()),
        Err(e) => Err(Error::Exegy(e)),
    }
}

/// Whether some byte of the sequence is NUL.
pub open spec fn spec_has_nul(b: Seq<u8>) -> bool {
    exists|i: int| 0 <= i < b.len() && b[i] == 0
}

/// The index of the first NUL byte, or the length when there is none.
pub open spec fn spec_nul_index(b: Seq<u8>) -> int
    decreases b.len(),
{
    if b.len() == 0 {
        0
    } else if b[0] == 0 {
        0
    } else {
        1 + spec_nul_index(b.drop_first())
    }
}

/// The prefix before the first NUL byte; the whole sequence when no byte
/// is NUL.
pub open spec fn spec_until_nul(b: Seq<u8>) -> Seq<u8> {
    b.take(spec_nul_index(b))
}

/// A scan that saw no NUL before position `k`, and a NUL at `k` if `k`
/// is in range, has found the first NUL index.
proof fn lemma_nul_index(b: Seq<u8>, k: int)
    requires
        0 <= k <= b.len(),
        forall|j: int| 0 <= j < k ==> b[j] != 0,
        k < b.len() ==> b[k] == 0,
    ensures
        spec_nul_index(b) == k,
        spec_has_nul(b) <==> k < b.len(),
    decreases b.len(),
{
    if b.len() == 0 {
    } else if k == 0 {
        if !(k < b.len() ==> spec_has_nul(b)) {
        }
    } else {
        lemma_nul_index(b.drop_first(), k - 1);
        assert(forall|j: int|
            0 <= j < b.drop_first().len() ==> b.drop_first()[j] == b[j + 1]);
        if k < b.len() {
            assert(b.drop_first()[k - 1] == 0);
        }
        if spec_has_nul(b.drop_first()) {
            let i = choose|i: int| 0 <= i < b.drop_first().len() && b.drop_first()[i] == 0;
            assert(b[i + 1] == 0);
        }
        if spec_has_nul(b) {
            let i = choose|i: int| 0 <= i < b.len() && b[i] == 0;
            assert(i != 0);
            assert(b.drop_first()[i - 1] == 0);
        }
    }
}

/// Find the index of the first NUL byte of a vector, or its length when
/// no byte is NUL.
fn find_nul(bytes: &Vec<u8>) -> (k: usize)
    ensures
        k == spec_nul_index(bytes@),
        k <= bytes@.len(),
        spec_has_nul(bytes@) <==> k < bytes@.len(),
{
    let mut i: usize = 0;
    while i < bytes.len()
        invariant
            i <= bytes@.len(),
            forall|j: int| 0 <= j < i ==> bytes@[j] != 0,
        decreases bytes@.len() - i,
    {
        if bytes[i] == 0 {
            proof {
                lemma_nul_index(bytes@, i as int);
            }
            return i;
        }
        i += 1;
    }
    proof {
        lemma_nul_index(bytes@, i as int);
    }
    i
}

/// Whether a string's UTF-8 encoding holds an embedded NUL byte, which
/// no NUL-terminated native string argument can carry.
pub fn string_has_nul(s: &String) -> (r: bool)
    ensures
        r == spec_has_nul(encode_utf8(s@)),
{
    let bytes = slice_to_vec(s.as_str().as_bytes());
    let k = find_nul(&bytes);
    k < bytes.len()
}

/// Relies on `String::from_utf8`: it succeeds exactly on valid UTF-8
/// input, returning a string that holds exactly the given bytes — so
/// its characters are the UTF-8 decoding of those bytes.
#[verifier::external_body]
pub(crate) fn bytes_into_string(bytes: Vec<u8>) -> (r: Option<String>)
    ensures
        r is Some <==> valid_utf8(bytes@),
        r is Some ==> encode_utf8(r->Some_0@) == bytes@,
        r is Some ==> r->Some_0@ == decode_utf8(bytes@),
{
    String::from_utf8(bytes).ok()
}

/// The buffer size the NUL-terminated string read offers, as the native
/// call convention fixes it.
pub const STRING_FIELD_CAP: u32 = 512;

/// Retrieve the contents of the given field as a UTF-8 string.
///
/// The field is read as a NUL-padded buffer of [`STRING_FIELD_CAP`]
/// bytes: the value is the prefix before the first NUL.  A full buffer
/// with no NUL fails with `NoNullTerm`, and a prefix that is not valid
/// UTF-8 fails with `InvalidUtf8`; both are distinct from native
/// failure, which arrives as `Exegy`.
pub fn get_string<O: Wrapper, F: Field>(plant: &Appliance, object: &O, slot: u32, field: F) -> (r:
    Result<String, Error>)
    ensures
        match spec_field_read_upto(
            *plant,
            object.spec_handle(),
            slot,
            field.spec_id(),
            STRING_FIELD_CAP,
        ) {
            Err(e) => r == Err::<String, Error>(e),
            Ok(b) => if b.len() == STRING_FIELD_CAP && !spec_has_nul(b) {
                r == Err::<String, Error>(Error::NoNullTerm)
            } else if valid_utf8(spec_until_nul(b)) {
                r is Ok && r->Ok_0@ == decode_utf8(spec_until_nul(b))
            } else {
                r == Err::<String, Error>(Error::InvalidUtf8)
            },
        },
{
    let (status, mut bytes) = plant.get_field_upto(
        object.as_xhandle(),
        slot,
        field.to_u64(),
        STRING_FIELD_CAP,
    );
    match decode(status) {
        Err(e) => Err(Error::Exegy(e)),
        Ok(_) => {
            let k = find_nul(&bytes);
            if k == bytes.len() && bytes.len() == STRING_FIELD_CAP as usize {
                return Err(Error::NoNullTerm);
            }
            bytes.truncate(k);
            match bytes_into_string(bytes) {
                Some(s) => Ok(s),
                None => Err(Error::InvalidUtf8),
            }
        },
    }
}

/// Set the contents of a field value to the given string.
///
/// The string's UTF-8 bytes are handed to the native write exactly as
/// they are; a string whose encoding holds an embedded NUL cannot cross
/// the C calling convention and fails with `EmbeddedNull` before any
/// native call.
pub fn set_string<O: Wrapper, F: Field>(
    plant: &mut Appliance,
    object: &O,
    slot: u32,
    field: F,
    value: String,
) -> (r: Result<(), Error>)
    ensures
        spec_has_nul(encode_utf8(value@)) ==> r == Err::<(), Error>(Error::EmbeddedNull)
            && *final(plant) == *old(plant),
        !spec_has_nul(encode_utf8(value@)) && !old(plant).spec_has_object(object.spec_handle())
            ==> r == Err::<(), Error>(Error::Exegy(ExegyError::BadHandle)) && *final(plant)
            == *old(plant),
        !spec_has_nul(encode_utf8(value@)) && old(plant).spec_has_object(object.spec_handle())
            ==> r == Ok::<(), Error>(()) && spec_set_effect(
            *old(plant),
            *final(plant),
            object.spec_handle(),
            slot,
            field.spec_id(),
            encode_utf8(value@),
        ),
{
    let bytes = slice_to_vec(value.as_str().as_bytes());
    let k = find_nul(&bytes);
    if k < bytes.len() {
        return Err(Error::EmbeddedNull);
    }
    let status = plant.set_field(object.as_xhandle(), slot, field.to_u64(), bytes);
    match decode(status) {
        Ok(_) => Ok(()),
        Err(e) => Err(Error::Exegy(e)),
    }
}

/// Get the contents of a non-NUL-terminated fixed-length string field:
/// exactly `length` bytes, validated as UTF-8.
pub fn get_fixedstring<O: Wrapper, F: Field>(
    plant: &Appliance,
    object: &O,
    slot: u32,
    field: F,
    length: usize,
) -> (r: Result<String, Error>)
    requires
        length <= u32::MAX,
    ensures
        match spec_field_read(
            *plant,
            object.spec_handle(),
            slot,
            field.spec_id(),
            length as u32,
        ) {
            Err(e) => r == Err::<String, Error>(e),
            Ok(b) => if valid_utf8(b) {
                r is Ok && r->Ok_0@ == decode_utf8(b)
            } else {
                r == Err::<String, Error>(Error::InvalidUtf8)
            },
        },
{
    let (status, bytes) = plant.get_field(object.as_xhandle(), slot, field.to_u64(), length as u32);
    match decode(status) {
        Err(e) => Err(Error::Exegy(e)),
        Ok(_) => match bytes_into_string(bytes) {
            Some(s) => Ok(s),
            None => Err(Error::InvalidUtf8),
        },
    }
}

/// Writing a string and reading it back through the same (slot, field)
/// pair yields the same character sequence, for any string whose UTF-8
/// encoding has no embedded NUL and fits the read buffer.
pub proof fn lemma_set_get_string(
    pre: Appliance,
    post: Appliance,
    handle: u64,
    slot: u32,
    field: u64,
    cs: Seq<char>,
)
    requires
        !spec_has_nul(encode_utf8(cs)),
        encode_utf8(cs).len() < STRING_FIELD_CAP,
        spec_set_effect(pre, post, handle, slot, field, encode_utf8(cs)),
    ensures
        spec_field_read_upto(post, handle, slot, field, STRING_FIELD_CAP) == Ok::<Seq<u8>, Error>(
            encode_utf8(cs),
        ),
        spec_until_nul(encode_utf8(cs)) == encode_utf8(cs),
        valid_utf8(encode_utf8(cs)),
        decode_utf8(encode_utf8(cs)) == cs,
{
    broadcast use vstd::utf8::encode_utf8_valid_utf8, vstd::utf8::encode_utf8_decode_utf8;

    lemma_nul_index(encode_utf8(cs), encode_utf8(cs).len() as int);
    assert(spec_until_nul(encode_utf8(cs)) =~= encode_utf8(cs));
}

/// Writing a scalar and reading it back through the same (slot, field)
/// pair yields the written value: the backing store keeps exactly what
/// it is given, and the byte codecs invert each other.
pub proof fn lemma_set_get_u8(
    pre: Appliance,
    post: Appliance,
    handle: u64,
    slot: u32,
    field: u64,
    v: u8,
)
    requires
        spec_set_effect(pre, post, handle, slot, field, seq![v]),
    ensures
        spec_field_read(post, handle, slot, field, 1) == Ok::<Seq<u8>, Error>(seq![v]),
        spec_field_read(post, handle, slot, field, 1)->Ok_0[0] == v,
{
}

/// The `u16` instance of the write/read round trip.
pub proof fn lemma_set_get_u16(
    pre: Appliance,
    post: Appliance,
    handle: u64,
    slot: u32,
    field: u64,
    v: u16,
)
    requires
        spec_set_effect(pre, post, handle, slot, field, spec_u16_to_le_bytes(v)),
    ensures
        spec_field_read(post, handle, slot, field, 2) is Ok,
        spec_u16_from_le_bytes(spec_field_read(post, handle, slot, field, 2)->Ok_0) == v,
{
    lemma_auto_spec_u16_to_from_le_bytes();
}

/// The `u32` instance of the write/read round trip.
pub proof fn lemma_set_get_u32(
    pre: Appliance,
    post: Appliance,
    handle: u64,
    slot: u32,
    field: u64,
    v: u32,
)
    requires
        spec_set_effect(pre, post, handle, slot, field, spec_u32_to_le_bytes(v)),
    ensures
        spec_field_read(post, handle, slot, field, 4) is Ok,
        spec_u32_from_le_bytes(spec_field_read(post, handle, slot, field, 4)->Ok_0) == v,
{
    lemma_auto_spec_u32_to_from_le_bytes();
}

/// The `u64` instance of the write/read round trip.
pub proof fn lemma_set_get_u64(
    pre: Appliance,
    post: Appliance,
    handle: u64,
    slot: u32,
    field: u64,
    v: u64,
)
    requires
        spec_set_effect(pre, post, handle, slot, field, spec_u64_to_le_bytes(v)),
    ensures
        spec_field_read(post, handle, slot, field, 8) is Ok,
        spec_u64_from_le_bytes(spec_field_read(post, handle, slot, field, 8)->Ok_0) == v,
{
    lemma_auto_spec_u64_to_from_le_bytes();
}

/// The `i32` instance of the write/read round trip, through its unsigned
/// wire pattern.
pub proof fn lemma_set_get_i32(
    pre: Appliance,
    post: Appliance,
    handle: u64,
    slot: u32,
    field: u64,
    v: i32,
)
    requires
        spec_set_effect(pre, post, handle, slot, field, spec_u32_to_le_bytes(spec_i32_to_u32(v))),
    ensures
        spec_field_read(post, handle, slot, field, 4) is Ok,
        spec_u32_to_i32(
            spec_u32_from_le_bytes(spec_field_read(post, handle, slot, field, 4)->Ok_0),
        ) == v,
{
    lemma_auto_spec_u32_to_from_le_bytes();
    lemma_i32_u32_roundtrip(v);
}

} // verus!
