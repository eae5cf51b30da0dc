//! The canonical byte form of the two orchestrator requests, which the node
//! signs with its Ed25519 key.

use vstd::prelude::*;
use vstd::string::StringSliceAdditionalSpecFns;
use crate::difficulty::TaskDifficulty;

verus! {

/// First byte of a fetch request.
pub const FETCH_TAG: u8 = 1;
/// First byte of a submit request.
pub const SUBMIT_TAG: u8 = 2;

/// The eight little-endian bytes of `n`.
pub open spec fn le_bytes(n: u64) -> Seq<u8> {
    Seq::new(8, |i: int| ((n >> (8 * i) as u64) % 256) as u8)
}

/// One byte for an optional difficulty cap: 0 for none, else one more than
/// the rank.
pub open spec fn cap_byte(cap: Option<TaskDifficulty>) -> u8 {
    match cap {
        None => 0,
        Some(d) => (d.rank_spec() + 1) as u8,
    }
}

/// Fetch request: tag, node id, difficulty cap.
pub open spec fn fetch_payload(node_id: u64, cap: Option<TaskDifficulty>) -> Seq<u8> {
    seq![FETCH_TAG] + le_bytes(node_id) + seq![cap_byte(cap)]
}

/// Submit request: tag, node id, then the task id and the proof, each after
/// its length.
pub open spec fn submit_payload(node_id: u64, task_id: Seq<u8>, proof: Seq<u8>) -> Seq<u8> {
    seq![SUBMIT_TAG] + le_bytes(node_id) + le_bytes(task_id.len() as u64) + task_id
        + le_bytes(proof.len() as u64) + proof
}

/// Appends the little-endian bytes of `n` to `out`.
pub fn push_le_bytes(out: &mut Vec<u8>, n: u64)
    ensures
        final(out)@ == old(out)@ + le_bytes(n),
{
    let ghost start = out@;
    let mut i: u64 = 0;
    while i < 8
        invariant
            0 <= i <= 8,
            out@ =~= start + le_bytes(n).subrange(0, i as int),
        decreases 8 - i,
    {
        out.push(((n >> (8 * i)) % 256) as u8);
        i = i + 1;
    }
    assert(le_bytes(n).subrange(0, 8) =~= le_bytes(n));
}

/// Appends every byte of `bytes` to `out`.
pub fn push_all(out: &mut Vec<u8>, bytes: &[u8])
    ensures
        final(out)@ == old(out)@ + bytes@,
{
    let ghost start = out@;
    let mut i: usize = 0;
    while i < bytes.len()
        invariant
            0 <= i <= bytes@.len(),
            out@ =~= start + bytes@.subrange(0, i as int),
        decreases bytes@.len() - i,
    {
        out.push(bytes[i]);
        i = i + 1;
    }
    assert(bytes@.subrange(0, bytes@.len() as int) =~= bytes@);
}

pub fn encode_cap(cap: Option<TaskDifficulty>) -> (r: u8)
    ensures
        r == cap_byte(cap),
{
    match cap {
        None => 0,
        Some(d) => d.rank() + 1,
    }
}

pub fn fetch_request_bytes(node_id: u64, cap: Option<TaskDifficulty>) -> (r: Vec<u8>)
    ensures
        r@ == fetch_payload(node_id, cap),
{
    let mut out: Vec<u8> = Vec::new();
    out.push(FETCH_TAG);
    push_le_bytes(&mut out, node_id);
    out.push(encode_cap(cap));
    assert(out@ =~= fetch_payload(node_id, cap));
    out
}

pub fn submit_request_bytes(node_id: u64, task_id: &str, proof: &[u8]) -> (r: Vec<u8>)
    ensures
        r@ == submit_payload(node_id, task_id.spec_bytes(), proof@),
{
    let id = task_id.as_bytes();
    let mut out: Vec<u8> = Vec::new();
    out.push(SUBMIT_TAG);
    push_le_bytes(&mut out, node_id);
    push_le_bytes(&mut out, id.len() as u64);
    push_all(&mut out, id);
    push_le_bytes(&mut out, proof.len() as u64);
    push_all(&mut out, proof);
    assert(out@ =~= submit_payload(node_id, task_id.spec_bytes(), proof@));
    out
}

} // verus!
