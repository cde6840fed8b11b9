//! Values that cross the boundary between host and wasm, and their wire form.
//!
//! Arguments of an invocation arrive as bytes and the value an invocation
//! returns leaves as bytes. The byte layout belongs to the SCALE codec and to
//! the `sp-wasm-interface` crate, which defines the wire types. The few bytes
//! of a return value are spelled out here; the decoding of an argument list is
//! named, not spelled out.

use parity_scale_codec::{Decode, Encode};
use vstd::bytes::{
    lemma_auto_spec_u32_to_from_le_bytes, lemma_auto_spec_u64_to_from_le_bytes,
    spec_u32_to_le_bytes, spec_u64_to_le_bytes,
};
use vstd::prelude::*;

verus! {

/// A wasm value. Floats are kept as their raw bit patterns.
#[derive(Clone, Copy, Debug, PartialEq, Eq)]
pub enum Value {
    /// A 32-bit integer.
    I32(i32),
    /// A 64-bit integer.
    I64(i64),
    /// The bits of a 32-bit float.
    F32(u32),
    /// The bits of a 64-bit float.
    F64(u64),
}

/// What the SCALE codec decodes from the front of `bytes` as a list of wire
/// values, or `None` where the bytes are no such list.
pub uninterp spec fn decoded_arguments(bytes: Seq<u8>) -> Option<Seq<Value>>;

/// The index of the variant of `value`, as the codec writes it.
pub open spec fn value_index(value: Value) -> u8 {
    match value {
        Value::I32(_) => 0,
        Value::I64(_) => 1,
        Value::F32(_) => 2,
        Value::F64(_) => 3,
    }
}

/// The number that `value` carries, as its four or eight little-endian bytes.
pub open spec fn number_bytes(value: Value) -> Seq<u8> {
    match value {
        Value::I32(v) => spec_u32_to_le_bytes(v as u32),
        Value::I64(v) => spec_u64_to_le_bytes(v as u64),
        Value::F32(v) => spec_u32_to_le_bytes(v),
        Value::F64(v) => spec_u64_to_le_bytes(v),
    }
}

/// The SCALE encoding of a return value that carries `value`: one byte that
/// says a value is there, one for the kind of the value, and the number.
pub open spec fn encoded_return_value(value: Value) -> Seq<u8> {
    seq![1u8, value_index(value)] + number_bytes(value)
}

/// An encoded return value takes six bytes where the number has 32 bits and
/// ten where it has 64.
pub proof fn lemma_encoded_return_value_len(value: Value)
    ensures
        encoded_return_value(value).len() == match value {
            Value::I32(_) | Value::F32(_) => 6nat,
            Value::I64(_) | Value::F64(_) => 10nat,
        },
{
    lemma_auto_spec_u32_to_from_le_bytes();
    lemma_auto_spec_u64_to_from_le_bytes();
}

/// Decodes `bytes` as a `Vec` of `sp_wasm_interface::Value` with
/// `parity_scale_codec::Decode::decode` and maps each value to its
/// counterpart here. Trusted: the result is [`decoded_arguments`] of the
/// bytes, which is to say only that decoding is a function of the bytes.
#[verifier::external_body]
pub(crate) fn decode_arguments(bytes: &[u8]) -> (decoded: Option<Vec<Value>>)
    ensures
        decoded matches Some(values) ==> decoded_arguments(bytes@) == Some(values@),
        decoded is None ==> decoded_arguments(bytes@) is None,
{
    let mut input = bytes;
    match Vec::<sp_wasm_interface::Value>::decode(&mut input) {
        Ok(values) => Some(values.into_iter().map(|value| match value {
            sp_wasm_interface::Value::I32(v) => Value::I32(v),
            sp_wasm_interface::Value::I64(v) => Value::I64(v),
            sp_wasm_interface::Value::F32(v) => Value::F32(v),
            sp_wasm_interface::Value::F64(v) => Value::F64(v),
        }).collect()),
        Err(_) => None,
    }
}

/// Wraps `value` as `sp_wasm_interface::ReturnValue::Value` and encodes it
/// with `parity_scale_codec::Encode::encode`. Trusted: the result is
/// [`encoded_return_value`] of the value, which is how the codec writes an
/// enum (the index of the variant, then its field) and a fixed-width integer
/// (little-endian).
#[verifier::external_body]
pub(crate) fn encode_return_value(value: Value) -> (encoded: Vec<u8>)
    ensures
        encoded@ == encoded_return_value(value),
{
    let wire = match value {
        Value::I32(v) => sp_wasm_interface::Value::I32(v),
        Value::I64(v) => sp_wasm_interface::Value::I64(v),
        Value::F32(v) => sp_wasm_interface::Value::F32(v),
        Value::F64(v) => sp_wasm_interface::Value::F64(v),
    };
    sp_wasm_interface::ReturnValue::Value(wire).encode()
}

} // verus!
