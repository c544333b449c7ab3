//! Encoded packets: immutable byte buffers that are shared by reference count.

use bytes::Bytes;
use vstd::prelude::*;

verus! {

/// Largest packet that the codec is given room for, in bytes.
pub const MAX_PACKET_BYTES: usize = 400;

/// `bytes::Bytes`, an immutable byte buffer behind a reference count. Of a
/// value only its contents are spoken of, under the name `packet_bytes`.
#[verifier::external_type_specification]
#[verifier::external_body]
pub struct ExBytes(bytes::Bytes);

/// The bytes that a packet holds, in order.
pub uninterp spec fn packet_bytes(p: Bytes) -> Seq<u8>;

/// The contents of a packet that may be missing.
pub open spec fn maybe_packet_bytes(p: Option<Bytes>) -> Option<Seq<u8>> {
    match p {
        Some(pkt) => Some(packet_bytes(pkt)),
        None => None,
    }
}

/// The contents of each packet of a list, in the list's order.
pub open spec fn packets_bytes(ps: Seq<Bytes>) -> Seq<Seq<u8>> {
    ps.map_values(|p: Bytes| packet_bytes(p))
}

/// Calls `Bytes::copy_from_slice`, which allocates a buffer and copies
/// `data` into it: the packet holds exactly the bytes of `data`.
#[verifier::external_body]
pub(crate) fn packet_from_slice(data: &[u8]) -> (p: Bytes)
    ensures
        packet_bytes(p) == data@,
{
    Bytes::copy_from_slice(data)
}

/// Calls `Bytes::from(Vec<u8>)`, which takes the vector over as the
/// buffer: the packet holds exactly the bytes of `data`.
#[verifier::external_body]
pub(crate) fn packet_from_vec(data: Vec<u8>) -> (p: Bytes)
    ensures
        packet_bytes(p) == data@,
{
    Bytes::from(data)
}

/// `Bytes::clone` hands out a second handle to the same buffer: the copy
/// holds the same bytes.
pub assume_specification[ <Bytes as Clone>::clone ](p: &Bytes) -> (c: Bytes)
    ensures
        packet_bytes(c) == packet_bytes(*p),
;

} // verus!
