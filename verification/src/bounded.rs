//! The fixed-capacity buffers of the `heapless` crate that the driver builds
//! its bus frames and product codes in, with the contracts that the driver
//! relies on.
use vstd::prelude::*;
use vstd::string::StringSliceAdditionalSpecFns;

verus! {

#[verifier::external_type_specification]
#[verifier::external_body]
#[verifier::reject_recursive_types(T)]
pub struct ExBoundedVec<T, const N: usize>(heapless::Vec<T, N>);

#[verifier::external_type_specification]
#[verifier::external_body]
pub struct ExBoundedString<const N: usize>(heapless::String<N>);

/// The bytes that a write frame (a `heapless::Vec<u8, 32>`) holds, in order.
pub uninterp spec fn frame_bytes(v: heapless::Vec<u8, 32>) -> Seq<u8>;

/// The bytes that a product-code buffer (a `heapless::Vec<u8, 16>`) holds, in order.
pub uninterp spec fn code_buffer_bytes(v: heapless::Vec<u8, 16>) -> Seq<u8>;

/// The UTF-8 bytes of a product code (a `heapless::String<16>`).
pub uninterp spec fn product_code_bytes(s: heapless::String<16>) -> Seq<u8>;

/// `heapless::Vec::<u8, 32>::new`: an empty frame.
#[verifier::external_body]
pub(crate) fn frame_new() -> (v: heapless::Vec<u8, 32>)
    ensures
        frame_bytes(v) == Seq::<u8>::empty(),
{
    heapless::Vec::new()
}

/// `heapless::Vec::<u8, 32>::push`: appends `byte` when the frame holds fewer
/// than 32 bytes; otherwise hands `byte` back and leaves the frame as it was.
#[verifier::external_body]
pub(crate) fn frame_push(v: &mut heapless::Vec<u8, 32>, byte: u8) -> (r: Result<(), u8>)
    ensures
        frame_bytes(*old(v)).len() < 32 ==> (r is Ok && frame_bytes(*final(v)) == frame_bytes(*old(v)).push(byte)),
        frame_bytes(*old(v)).len() >= 32 ==> (r == Err::<(), u8>(byte) && frame_bytes(*final(v)) == frame_bytes(*old(v))),
{
    v.push(byte)
}

/// `heapless::Vec::<u8, 32>::extend_from_slice`: appends all of `data` when
/// it fits in the 32 bytes; otherwise fails and leaves the frame as it was.
#[verifier::external_body]
pub(crate) fn frame_extend(v: &mut heapless::Vec<u8, 32>, data: &[u8]) -> (r: Result<(), ()>)
    ensures
        frame_bytes(*old(v)).len() + data@.len() <= 32 ==> (r is Ok && frame_bytes(*final(v)) == frame_bytes(*old(v)) + data@),
        frame_bytes(*old(v)).len() + data@.len() > 32 ==> (r is Err && frame_bytes(*final(v)) == frame_bytes(*old(v))),
{
    v.extend_from_slice(data)
}

/// `heapless::Vec::<u8, 16>::new`: an empty product-code buffer.
#[verifier::external_body]
pub(crate) fn code_buffer_new() -> (v: heapless::Vec<u8, 16>)
    ensures
        code_buffer_bytes(v) == Seq::<u8>::empty(),
{
    heapless::Vec::new()
}

/// `heapless::Vec::<u8, 16>::extend_from_slice`: appends all of `data` when
/// it fits in the 16 bytes; otherwise fails and leaves the buffer as it was.
#[verifier::external_body]
pub(crate) fn code_buffer_extend(v: &mut heapless::Vec<u8, 16>, data: &[u8]) -> (r: Result<(), ()>)
    ensures
        code_buffer_bytes(*old(v)).len() + data@.len() <= 16 ==> (r is Ok && code_buffer_bytes(*final(v)) == code_buffer_bytes(*old(v)) + data@),
        code_buffer_bytes(*old(v)).len() + data@.len() > 16 ==> (r is Err && code_buffer_bytes(*final(v)) == code_buffer_bytes(*old(v))),
{
    v.extend_from_slice(data)
}

/// `heapless::String::<16>::new`: the empty product code.
#[verifier::external_body]
pub(crate) fn product_code_new() -> (s: heapless::String<16>)
    ensures
        product_code_bytes(s) == Seq::<u8>::empty(),
{
    heapless::String::new()
}

/// `heapless::String::<16>::from_utf8`: takes over the buffer's bytes as a
/// string when they are valid UTF-8 (it checks them with
/// `core::str::from_utf8`), and fails otherwise. The UTF-8 error itself is
/// dropped.
#[verifier::external_body]
pub(crate) fn product_code_from_utf8(v: heapless::Vec<u8, 16>) -> (r: Option<heapless::String<16>>)
    ensures
        r is Some <==> vstd::utf8::valid_utf8(code_buffer_bytes(v)),
        r is Some ==> product_code_bytes(r->0) == code_buffer_bytes(v),
{
    heapless::String::from_utf8(v).ok()
}

/// `heapless::String::<16>::try_from(&str)`: copies the string when its UTF-8
/// bytes fit in 16 bytes, and fails otherwise.
#[verifier::external_body]
pub(crate) fn product_code_from_str(s: &str) -> (r: Option<heapless::String<16>>)
    ensures
        r is Some <==> s.spec_bytes().len() <= 16,
        r is Some ==> product_code_bytes(r->0) == s.spec_bytes(),
{
    heapless::String::try_from(s).ok()
}

} // verus!
