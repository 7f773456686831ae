//! The host side of the WebAssembly extension protocol.
//!
//! An extension exports `alloc(size: i32) -> i32`, `memory`, and
//! `handle(ptr: i32, len: i32) -> i64`. The host writes the JSON input
//! `{"event": .., "payload": ..}` at the offset `alloc` returns, calls
//! `handle`, and reads the JSON result from the region whose offset is the
//! high 32 bits and whose length is the low 32 bits of the returned word.

use vstd::prelude::*;
use vstd::string::*;
use crate::extensions::{ExtensionError, LoadedExtension};
use crate::json::{json_text, write_json, Json, JsonValue};

verus! {

/// The error of an extension without module bytes.
pub fn wasm_source_check(ext: &LoadedExtension) -> (r: Result<(), ExtensionError>)
    ensures
        r is Ok <==> ext.source@.len() > 0,
        r matches Err(e) ==> (e matches ExtensionError::LoadFailed(m) && m@ == "Extension has no WASM source"@),
{
    if ext.source.len() == 0 {
        Err(ExtensionError::LoadFailed(String::from_str("Extension has no WASM source")))
    } else {
        Ok(())
    }
}

/// The input document of a call: the event and the payload.
pub open spec fn input_doc(event: Seq<char>, payload: Json) -> Json {
    Json::Obj(seq![("event"@, Json::Str(event)), ("payload"@, payload)])
}

/// The JSON text written into the extension's memory for a call: the compact
/// text of `{"event": event, "payload": payload}`.
pub fn wasm_input(event: &str, payload: &JsonValue) -> (r: String)
    ensures
        r@ == json_text(input_doc(event@, payload@)),
{
    let mut members: Vec<(String, JsonValue)> = Vec::new();
    members.push((String::from_str("event"), JsonValue::String(String::from_str(event))));
    members.push((String::from_str("payload"), payload.copy()));
    let doc = crate::json::object_of(members);
    proof {
        reveal_strlit("event");
        reveal_strlit("payload");
        assert(crate::json::members_view(members@) =~= seq![("event"@, Json::Str(event@)), ("payload"@, payload@)]);
    }
    let mut out = String::new();
    write_json(&doc, &mut out);
    assert(out@ =~= json_text(input_doc(event@, payload@)));
    out
}

/// Where the input is written: `len` bytes at offset `ptr`, which must lie
/// within a memory of `mem_len` bytes (a negative offset never does).
pub fn wasm_input_range(ptr: i32, len: usize, mem_len: usize) -> (r: Result<(usize, usize), ExtensionError>)
    ensures
        (ptr >= 0 && ptr + len <= mem_len) ==> (r matches Ok((s, e)) && s == ptr && e == ptr + len),
        !(ptr >= 0 && ptr + len <= mem_len) ==> (r matches Err(ExtensionError::ExecutionFailed(m))
            && m@ == "WASM memory too small for input"@),
{
    if ptr < 0 || len > mem_len || (ptr as usize) > mem_len - len {
        return Err(ExtensionError::ExecutionFailed(String::from_str("WASM memory too small for input")));
    }
    let start = ptr as usize;
    Ok((start, start + len))
}

/// The low 32 bits of the word `handle` returns: the result's length.
pub open spec fn packed_len(packed: i64) -> int {
    ((packed as u64) % 0x1_0000_0000u64) as int
}

/// The high 32 bits of the word `handle` returns: the result's offset.
pub open spec fn packed_ptr(packed: i64) -> int {
    ((packed as u64) / 0x1_0000_0000u64) as int
}

/// What the word `handle` returns designates.
pub enum ResultRegion {
    /// An empty result: the call's payload stands.
    Empty,
    /// The result's bytes: `len` bytes from offset `start`.
    Bytes { start: usize, len: usize },
}

/// The result region of a call: empty when the length is 0; otherwise the
/// region, which must lie within a memory of `mem_len` bytes (an offset
/// whose top bit is set is read as negative and never does).
pub fn wasm_result_region(packed: i64, mem_len: usize) -> (r: Result<ResultRegion, ExtensionError>)
    ensures
        packed_len(packed) == 0 ==> r matches Ok(ResultRegion::Empty),
        packed_len(packed) != 0 && packed >= 0 && packed_ptr(packed) + packed_len(packed) <= mem_len ==> (
            r matches Ok(ResultRegion::Bytes { start, len }) && start == packed_ptr(packed) && len == packed_len(packed)),
        packed_len(packed) != 0 && !(packed >= 0 && packed_ptr(packed) + packed_len(packed) <= mem_len) ==> (
            r matches Err(ExtensionError::ExecutionFailed(m)) && m@ == "WASM result pointer out of bounds"@),
{
    let word: u64 = packed as u64;
    let len: u64 = word % 0x1_0000_0000u64;
    if len == 0 {
        return Ok(ResultRegion::Empty);
    }
    let ptr: u64 = word / 0x1_0000_0000u64;
    if packed < 0 || len as u128 + ptr as u128 > mem_len as u128 {
        return Err(ExtensionError::ExecutionFailed(String::from_str("WASM result pointer out of bounds")));
    }
    Ok(ResultRegion::Bytes { start: ptr as usize, len: len as usize })
}

/// What a call returns from the extension's result document: its `payload`
/// member when it has one, else the whole document.
pub fn wasm_output(result: JsonValue) -> (r: JsonValue)
    ensures
        r@ == match result@.get("payload"@) {
            Some(inner) => inner,
            None => result@,
        },
{
    match result.get("payload") {
        Some(inner) => inner.copy(),
        None => result,
    }
}

} // verus!
