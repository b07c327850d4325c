//! The fixture application: wires the runtime library together.
use vstd::prelude::*;

use crate::demo::encoding::{base64_standard, encode_standard};
use crate::demo::runtime::RuntimeGuard;
use crate::demo::writer::Writer;

verus! {

/// Default payload size for batched writes.
pub const DEFAULT_PAYLOAD_BYTES: usize = 4096;

/// Builds an encoded payload: `raw` is buffered through a [`Writer`],
/// flushed once into a staging buffer, and the staging buffer is encoded
/// with standard base64, so the payload is the encoding of `raw` itself.
pub fn build_payload(raw: &[u8]) -> (r: String)
    ensures
        r@ == base64_standard(raw@),
{
    let mut writer = Writer::new();
    writer.write_all(raw);
    let mut staged: Vec<u8> = Vec::new();
    writer.flush(&mut staged);
    assert(staged@ =~= raw@);
    encode_standard(staged.as_slice())
}

/// Reports how many live tasks the application considers healthy.
pub fn health_snapshot(guard: &RuntimeGuard) -> (r: u32)
    ensures
        r == guard.live_tasks,
{
    guard.live_tasks
}

} // verus!
