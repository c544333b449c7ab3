//! A burst as it travels over the network: its start and its packets, each
//! packet as a line of base64 text.

use crate::burst::Burst;
use crate::channels::{offers, Handoff};
use crate::packet::{packet_bytes, packet_from_vec, packets_bytes};
use crate::sinks::MpscSink;
use crate::traits::PacketSink;
use base64::engine::general_purpose::STANDARD_NO_PAD;
use base64::Engine;
use bytes::Bytes;
use vstd::prelude::*;

verus! {

/// The text that the standard base64 alphabet, without padding, gives for
/// `data`.
pub uninterp spec fn base64_no_pad(data: Seq<u8>) -> Seq<char>;

/// The bytes that `text` stands for in the standard base64 alphabet without
/// padding, or `None` where it stands for none.
pub uninterp spec fn base64_no_pad_decoded(text: Seq<char>) -> Option<Seq<u8>>;

/// Calls `Engine::encode` of the base64 crate on its `STANDARD_NO_PAD`
/// engine. The call panics only when the length of the text would not fit
/// in `usize`, which takes more bytes than a buffer can hold.
#[verifier::external_body]
pub(crate) fn base64_encode(p: &Bytes) -> (text: String)
    ensures
        text@ == base64_no_pad(packet_bytes(*p)),
{
    STANDARD_NO_PAD.encode(p)
}

/// Calls `Engine::decode` of the base64 crate on its `STANDARD_NO_PAD`
/// engine, which returns the bytes or an error; the error becomes `None`.
#[verifier::external_body]
pub(crate) fn base64_decode(text: &str) -> (data: Option<Vec<u8>>)
    ensures
        data is Some == base64_no_pad_decoded(text@) is Some,
        data is Some ==> data->Some_0@ == base64_no_pad_decoded(text@)->Some_0,
{
    STANDARD_NO_PAD.decode(text).ok()
}

/// The text of each packet, in order.
pub open spec fn encoded_packets(packets: Seq<Seq<u8>>) -> Seq<Seq<char>> {
    packets.map_values(|p: Seq<u8>| base64_no_pad(p))
}

/// The packets that a list of texts stands for, in order, without the texts
/// that stand for none.
pub open spec fn decodable_packets(texts: Seq<Seq<char>>) -> Seq<Seq<u8>>
    decreases texts.len(),
{
    if texts.len() == 0 {
        Seq::empty()
    } else {
        let earlier = decodable_packets(texts.drop_last());
        match base64_no_pad_decoded(texts.last()) {
            Some(data) => earlier.push(data),
            None => earlier,
        }
    }
}

/// A burst in its network form.
pub struct EncodedBurst {
    /// Start of capture, in seconds since the Unix epoch.
    pub started_at: i64,
    /// The packets in production order, each as base64 text in the standard
    /// alphabet without padding.
    pub packets: Vec<String>,
}

/// An encoded burst as plain values.
pub struct EncodedBurstView {
    pub started_at: i64,
    pub packets: Seq<Seq<char>>,
}

impl View for EncodedBurst {
    type V = EncodedBurstView;

    open spec fn view(&self) -> EncodedBurstView {
        EncodedBurstView {
            started_at: self.started_at,
            packets: self.packets@.map_values(|s: String| s@),
        }
    }
}

impl EncodedBurst {
    /// The network form of `b`: the same start, and the text of each packet
    /// in the same order.
    pub fn from(b: Burst) -> (e: Self)
        ensures
            e@ == (EncodedBurstView {
                started_at: b@.started_at,
                packets: encoded_packets(b@.packets),
            }),
    {
        let mut packets: Vec<String> = Vec::new();
        let mut i: usize = 0;
        while i < b.packets.len()
            invariant
                i <= b.packets.len(),
                packets.len() == i,
                forall|k: int|
                    0 <= k < i ==> (#[trigger] packets[k])@ == base64_no_pad(
                        packet_bytes(b.packets[k]),
                    ),
            decreases b.packets.len() - i,
        {
            packets.push(base64_encode(&b.packets[i]));
            i += 1;
        }
        let e = EncodedBurst { started_at: b.started_at, packets };
        assert(e@.packets =~= encoded_packets(b@.packets));
        e
    }
}

/// The listening side of the network relay.
pub struct SupabaseSource;

impl SupabaseSource {
    /// Hands the packets of a received burst to the relay in front of the
    /// player's queue, in order. A text that is not base64 is skipped; the
    /// packets after it are still handed on.
    pub fn on_broadcast(payload: &EncodedBurst, dst: &mut MpscSink)
        ensures
            final(dst).queue() == old(dst).queue(),
            final(dst).history().len() >= old(dst).history().len(),
            final(dst).history().take(old(dst).history().len() as int) == old(dst).history(),
            offers(final(dst).history().skip(old(dst).history().len() as int))
                == decodable_packets(payload@.packets),
    {
        let ghost before = dst.history();
        let ghost texts = payload@.packets;
        let mut i: usize = 0;
        proof {
            assert(dst.history().take(before.len() as int) =~= before);
            assert(offers(dst.history().skip(before.len() as int)) =~= decodable_packets(
                texts.take(0),
            ));
        }
        while i < payload.packets.len()
            invariant
                i <= payload.packets.len(),
                texts == payload@.packets,
                before == old(dst).history(),
                dst.queue() == old(dst).queue(),
                dst.history().len() >= before.len(),
                dst.history().take(before.len() as int) == before,
                offers(dst.history().skip(before.len() as int)) == decodable_packets(
                    texts.take(i as int),
                ),
            decreases payload.packets.len() - i,
        {
            let ghost earlier = dst.history();
            proof {
                assert(texts.take(i + 1).drop_last() =~= texts.take(i as int));
                assert(texts.take(i + 1).last() == payload.packets[i as int]@);
            }
            match base64_decode(payload.packets[i].as_str()) {
                Some(data) => {
                    let pkt = packet_from_vec(data);
                    dst.on_packet(pkt);
                    proof {
                        let later = dst.history();
                        assert(later.drop_last() == earlier);
                        assert(later =~= earlier.push(later.last()));
                        assert(later.take(before.len() as int) =~= earlier.take(
                            before.len() as int,
                        ));
                        assert(later.skip(before.len() as int) =~= earlier.skip(
                            before.len() as int,
                        ).push(later.last()));
                        assert(offers(earlier.skip(before.len() as int).push(later.last()))
                            =~= offers(earlier.skip(before.len() as int)).push(later.last().item));
                    }
                },
                None => {},
            }
            i += 1;
        }
        assert(texts.take(payload.packets.len() as int) =~= texts);
    }
}

} // verus!
