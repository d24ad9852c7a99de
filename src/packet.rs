//! Decoding of one 188-byte transport stream frame.
use vstd::prelude::*;
use crate::adaptation::{TsPacketAdaptationField, adaptation_field_of};
use crate::frame::{
    frame_adaptation_control, frame_cc, frame_error_bit, frame_pid, frame_priority_bit,
    frame_scrambling, frame_sync_byte, frame_unit_start_bit,
};
use crate::pes::{PESHeader, pes_header_of};
use crate::reassembly::{PESPacket, starts_unit, step};

verus! {

/// The decoded fields of one frame.
#[derive(PartialEq, Eq, Structural, Clone, Copy, Debug)]
pub struct TsPacket {
    pub sync_byte: u8,
    pub transport_error_indicator: u8,
    pub payload_unit_start: u8,
    pub transport_priority: u8,
    /// 13-bit packet identifier.
    pub packet_identifier: u16,
    pub transport_scrambling_control: u8,
    pub adaptation_field_control: u8,
    /// 4-bit continuity counter.
    pub continuity_counter: u8,
    /// Present iff `adaptation_field_control` is 2 or 3.
    pub adaptation_field: Option<TsPacketAdaptationField>,
    /// Present iff the frame starts a unit of the tracked stream.
    pub pes_header: Option<PESHeader>,
}

/// The record that frame `b` decodes to when the tracked stream is `target`.
pub open spec fn packet_of(b: Seq<u8>, target: int) -> TsPacket {
    TsPacket {
        sync_byte: frame_sync_byte(b) as u8,
        transport_error_indicator: frame_error_bit(b) as u8,
        payload_unit_start: frame_unit_start_bit(b) as u8,
        transport_priority: frame_priority_bit(b) as u8,
        packet_identifier: frame_pid(b) as u16,
        transport_scrambling_control: frame_scrambling(b) as u8,
        adaptation_field_control: frame_adaptation_control(b) as u8,
        continuity_counter: frame_cc(b) as u8,
        adaptation_field: if frame_adaptation_control(b) >= 2 {
            Some(adaptation_field_of(b))
        } else {
            None
        },
        pes_header: if starts_unit(b, target) { Some(pes_header_of(b)) } else { None },
    }
}

/// The four header bytes that a record's fields encode.
pub open spec fn header_bytes(p: TsPacket) -> Seq<u8> {
    seq![
        p.sync_byte,
        (p.transport_error_indicator * 128 + p.payload_unit_start * 64 + p.transport_priority * 32
            + p.packet_identifier / 256) as u8,
        (p.packet_identifier % 256) as u8,
        (p.transport_scrambling_control * 64 + p.adaptation_field_control * 16
            + p.continuity_counter) as u8,
    ]
}

impl TsPacket {
    /// Decodes a frame, and hands it to the reassembly state of the stream
    /// `target_pid`.
    pub fn parse(buffer: [u8; 188], pes_packet: &mut PESPacket, target_pid: u16) -> (r: TsPacket)
        requires
            old(pes_packet).wf(),
        ensures
            r == packet_of(buffer@, target_pid as int),
            final(pes_packet).wf(),
            final(pes_packet)@ == step(old(pes_packet)@, buffer@, target_pid as int),
    {
        let afc: u8 = (buffer[3] / 16) % 4;
        let af = if afc >= 2 {
            TsPacketAdaptationField::new_from_buffer(buffer)
        } else {
            None
        };
        let pes_header = pes_packet.advance(buffer, target_pid);
        TsPacket {
            sync_byte: buffer[0],
            transport_error_indicator: buffer[1] / 128,
            payload_unit_start: (buffer[1] / 64) % 2,
            transport_priority: (buffer[1] / 32) % 2,
            packet_identifier: (buffer[1] % 32) as u16 * 256 + buffer[2] as u16,
            transport_scrambling_control: buffer[3] / 64,
            adaptation_field_control: afc,
            continuity_counter: buffer[3] % 16,
            adaptation_field: af,
            pes_header,
        }
    }
}

/// Decoding keeps every bit of the four header bytes: the bytes that the
/// decoded record encodes are the frame's own.
pub proof fn lemma_header_round_trip(b: Seq<u8>, target: int)
    requires
        b.len() == 188,
    ensures
        header_bytes(packet_of(b, target)) == b.subrange(0, 4),
{
    let b1 = b[1] as int;
    let b2 = b[2] as int;
    let b3 = b[3] as int;
    assert(((b1 % 32) * 256 + b2) / 256 == b1 % 32 && ((b1 % 32) * 256 + b2) % 256 == b2)
        by (nonlinear_arith)
        requires
            0 <= b1 < 256,
            0 <= b2 < 256,
    ;
    assert(b1 / 128 * 128 + (b1 / 64) % 2 * 64 + (b1 / 32) % 2 * 32 + b1 % 32 == b1)
        by (nonlinear_arith)
        requires
            0 <= b1 < 256,
    ;
    assert(b3 / 64 * 64 + (b3 / 16) % 4 * 16 + b3 % 16 == b3) by (nonlinear_arith)
        requires
            0 <= b3 < 256,
    ;
    assert(header_bytes(packet_of(b, target)) =~= b.subrange(0, 4));
}

/// A frame whose adaptation field control is 0 or 1 decodes with no
/// adaptation field.
pub proof fn lemma_no_adaptation_field(b: Seq<u8>, target: int)
    requires
        b.len() == 188,
        frame_adaptation_control(b) < 2,
    ensures
        packet_of(b, target).adaptation_field.is_none(),
{
}

} // verus!
