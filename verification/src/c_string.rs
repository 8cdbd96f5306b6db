//! Text as the engine takes it: bytes that end in a 0 byte.

use vstd::prelude::*;
use vstd::slice::slice_subrange;
use vstd::string::StringSliceAdditionalSpecFns;
use vstd::utf8::{decode_utf8, encode_utf8_decode_utf8, valid_utf8};

verus! {

/// The bytes of `data` with the 0 byte that ends a string for the engine
/// behind them: what is to be written into memory that the engine then owns.
/// The engine's strings are plain ASCII.
pub fn copy_and_allocate_c_char_from_rust_str(data: &str) -> (buffer: Vec<u8>)
    requires
        data.is_ascii(),
    ensures
        buffer@ == data.spec_bytes().push(0u8),
{
    let bytes = data.as_bytes();
    let mut buffer: Vec<u8> = Vec::new();
    let mut i: usize = 0;
    while i < bytes.len()
        invariant
            i <= bytes@.len(),
            buffer@ == bytes@.take(i as int),
        decreases bytes@.len() - i,
    {
        buffer.push(bytes[i]);
        i += 1;
        assert(buffer@ =~= bytes@.take(i as int));
    }
    assert(bytes@.take(i as int) =~= bytes@);
    buffer.push(0);
    buffer
}

/// Whether `bytes` starts with `prefix`.
pub fn starts_with(bytes: &[u8], prefix: &[u8]) -> (starts: bool)
    ensures
        starts == prefix@.is_prefix_of(bytes@),
{
    if prefix.len() > bytes.len() {
        return false;
    }
    let mut i: usize = 0;
    while i < prefix.len()
        invariant
            i <= prefix@.len() <= bytes@.len(),
            forall|j: int| 0 <= j < i ==> prefix@[j] == bytes@[j],
        decreases prefix@.len() - i,
    {
        if prefix[i] != bytes[i] {
            assert(bytes@.subrange(0, prefix@.len() as int)[i as int] != prefix@[i as int]);
            return false;
        }
        i += 1;
    }
    assert(prefix@ =~= bytes@.subrange(0, prefix@.len() as int));
    true
}

/// The string that is left of `cstr` when `prefix` is taken from its front,
/// where `cstr` starts with `prefix`; both are given by their bytes before the
/// closing 0.
pub fn strip_prefix_cstr_raw<'a>(cstr: &'a [u8], prefix: &[u8]) -> (rest: Option<&'a [u8]>)
    ensures
        rest is Some <==> prefix@.is_prefix_of(cstr@),
        rest matches Some(bytes) ==> bytes@ == cstr@.subrange(
            prefix@.len() as int,
            cstr@.len() as int,
        ),
{
    if starts_with(cstr, prefix) {
        Some(slice_subrange(cstr, prefix.len(), cstr.len()))
    } else {
        None
    }
}

/// `std::str::from_utf8`: the text that `bytes` spell, where they are valid
/// UTF-8, and nothing where they are not. The text is made of those very
/// bytes.
#[verifier::external_body]
fn utf8_text<'a>(bytes: &'a [u8]) -> (text: Option<&'a str>)
    ensures
        text is Some <==> valid_utf8(bytes@),
        text matches Some(s) ==> s.spec_bytes() == bytes@,
{
    match std::str::from_utf8(bytes) {
        Ok(text) => Some(text),
        Err(_) => None,
    }
}

/// What is shown for a string of the engine: the text that its bytes spell,
/// or, where they spell none, a sentence that says so.
pub open spec fn spec_c_string_text(bytes: Seq<u8>) -> Seq<char> {
    if valid_utf8(bytes) {
        decode_utf8(bytes)
    } else {
        "Failed to convert C string to Rust string"@
    }
}

/// What is shown for a string of the engine, given by its bytes before the
/// closing 0.
pub fn c_string_text<'a>(bytes: &'a [u8]) -> (text: &'a str)
    ensures
        text@ == spec_c_string_text(bytes@),
{
    match utf8_text(bytes) {
        Some(text) => {
            proof {
                encode_utf8_decode_utf8(text@);
            }
            text
        },
        None => "Failed to convert C string to Rust string",
    }
}

} // verus!
