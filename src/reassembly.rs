//! The state machine that gathers one elementary stream's PES payload across
//! consecutive frames.
//!
//! A unit starts on a frame of the tracked stream that sets the unit start
//! bit. Each later frame whose continuity counter is one more (modulo 16)
//! than the last accepted one extends it; the frame whose counter is 15 ends
//! it. A frame whose counter breaks the sequence is ignored: it changes
//! nothing and adds no bytes.
use vstd::prelude::*;
use crate::audio::{AudioFrameHeader, audio_header_of};
use crate::frame::{frame_cc, frame_pid, frame_unit_start_bit};
use crate::pes::{PESContent, PESHeader, frame_tail, pes_header_of};

verus! {

/// Where the tracked stream's current unit stands.
#[derive(PartialEq, Eq, Structural, Clone, Copy, Debug)]
pub enum State {
    /// No unit has started.
    Waiting,
    /// A unit started on the last accepted frame.
    Start,
    /// A unit is in progress.
    Continue,
    /// The unit is complete.
    End,
}

/// Payload offset of a unit-start frame: the TS header, the pointer byte and
/// the PES header.
pub const START_PAYLOAD_OFFSET: u8 = 20;
/// Payload offset of a frame inside a unit: the TS header alone.
pub const CONTINUE_PAYLOAD_OFFSET: u8 = 4;
/// Payload offset of the frame that ends a unit.
pub const END_PAYLOAD_OFFSET: u8 = 52;
/// The continuity counter of the frame that ends a unit.
pub const TERMINAL_CC: u8 = 15;

/// Reassembly state of the tracked stream.
pub struct PESPacket {
    pub header: PESHeader,
    pub content: PESContent,
    pub prev_cc: u8,
    pub state: State,
    /// The audio frame header decoded when the current unit started.
    pub audio_header: Option<AudioFrameHeader>,
}

/// The abstract value of a `PESPacket`.
pub struct PESPacketView {
    pub header: PESHeader,
    pub content: Seq<u8>,
    pub prev_cc: u8,
    pub state: State,
    pub audio_header: Option<AudioFrameHeader>,
}

impl View for PESPacket {
    type V = PESPacketView;

    open spec fn view(&self) -> PESPacketView {
        PESPacketView {
            header: self.header,
            content: self.content@,
            prev_cc: self.prev_cc,
            state: self.state,
            audio_header: self.audio_header,
        }
    }
}

/// The counter that the next frame of a unit must carry.
pub open spec fn next_cc(prev: u8) -> int {
    (prev as int + 1) % 16
}

/// Whether frame `b` starts a unit of stream `target`.
pub open spec fn starts_unit(b: Seq<u8>, target: int) -> bool {
    frame_pid(b) == target && frame_unit_start_bit(b) == 1
}

/// Whether frame `b` extends the unit in progress in `v`.
pub open spec fn extends_unit(v: PESPacketView, b: Seq<u8>, target: int) -> bool {
    &&& frame_pid(b) == target
    &&& frame_unit_start_bit(b) == 0
    &&& (v.state == State::Start || v.state == State::Continue)
    &&& frame_cc(b) == next_cc(v.prev_cc)
}

/// The state after frame `b` is handed to state `v`, tracking stream `target`.
pub open spec fn step(v: PESPacketView, b: Seq<u8>, target: int) -> PESPacketView {
    if starts_unit(b, target) {
        let content = frame_tail(b, START_PAYLOAD_OFFSET as int);
        PESPacketView {
            header: pes_header_of(b),
            content,
            prev_cc: frame_cc(b) as u8,
            state: State::Start,
            audio_header: audio_header_of(content),
        }
    } else if extends_unit(v, b, target) {
        if frame_cc(b) == TERMINAL_CC {
            PESPacketView {
                content: v.content + frame_tail(b, END_PAYLOAD_OFFSET as int),
                prev_cc: frame_cc(b) as u8,
                state: State::End,
                ..v
            }
        } else {
            PESPacketView {
                content: v.content + frame_tail(b, CONTINUE_PAYLOAD_OFFSET as int),
                prev_cc: frame_cc(b) as u8,
                state: State::Continue,
                ..v
            }
        }
    } else {
        v
    }
}

impl PESPacket {
    /// The last accepted counter is a 4-bit value.
    pub open spec fn wf(&self) -> bool {
        self.prev_cc < 16
    }

    /// A state waiting for its first unit, with an empty buffer.
    pub fn default() -> (r: PESPacket)
        ensures
            r.wf(),
            r@.state == State::Waiting,
            r@.header == (PESHeader {
                packet_start_code_prefix: 0,
                stream_id: 0,
                pes_packet_length: 0,
                pes_header_data_length: 0,
            }),
            r@.content == Seq::<u8>::empty(),
            r@.prev_cc == 0,
            r@.audio_header.is_none(),
    {
        PESPacket {
            header: PESHeader::default(),
            content: PESContent::default(),
            prev_cc: 0,
            state: State::Waiting,
            audio_header: None,
        }
    }

    /// Hands one frame to the state machine, tracking stream `target_pid`.
    /// Returns the PES header read when the frame starts a unit.
    pub fn advance(&mut self, buffer: [u8; 188], target_pid: u16) -> (started: Option<PESHeader>)
        requires
            old(self).wf(),
        ensures
            final(self).wf(),
            final(self)@ == step(old(self)@, buffer@, target_pid as int),
            started == if starts_unit(buffer@, target_pid as int) {
                Some(pes_header_of(buffer@))
            } else {
                None
            },
    {
        let pid: u16 = (buffer[1] % 32) as u16 * 256 + buffer[2] as u16;
        let pus: u8 = (buffer[1] / 64) % 2;
        let cc: u8 = buffer[3] % 16;
        if pid == target_pid && pus == 1 {
            let header = PESHeader::new_from_buffer(buffer);
            self.header = header;
            self.prev_cc = cc;
            self.content = PESContent::default();
            self.content.add_buffer(buffer, START_PAYLOAD_OFFSET);
            self.state = State::Start;
            self.audio_header = self.content.read_mpeg_header();
            Some(header)
        } else {
            let in_unit = self.state == State::Start || self.state == State::Continue;
            if pid == target_pid && in_unit && cc == (self.prev_cc + 1) % 16 {
                if cc == TERMINAL_CC {
                    self.content.add_buffer(buffer, END_PAYLOAD_OFFSET);
                    self.state = State::End;
                } else {
                    self.content.add_buffer(buffer, CONTINUE_PAYLOAD_OFFSET);
                    self.state = State::Continue;
                }
                self.prev_cc = cc;
            }
            None
        }
    }
}

/// Until a frame starts a new unit, the buffer only grows: every frame
/// keeps the bytes gathered so far as a prefix.
pub proof fn lemma_buffer_grows(v: PESPacketView, b: Seq<u8>, target: int)
    requires
        b.len() == 188,
        !starts_unit(b, target),
    ensures
        step(v, b, target).content.len() >= v.content.len(),
        step(v, b, target).content.subrange(0, v.content.len() as int) == v.content,
{
    assert(step(v, b, target).content.subrange(0, v.content.len() as int) =~= v.content);
}

/// The state after `frames` are handed, in order, to state `v`.
pub open spec fn run(v: PESPacketView, frames: Seq<Seq<u8>>, target: int) -> PESPacketView
    decreases frames.len(),
{
    if frames.len() == 0 {
        v
    } else {
        step(run(v, frames.drop_last(), target), frames.last(), target)
    }
}

/// Whether `frames` are the opening frames of one unit of stream `target`:
/// the first sets the unit start bit, and frame `i` carries counter `i`.
pub open spec fn unit_frames(frames: Seq<Seq<u8>>, target: int) -> bool {
    forall|i: int|
        0 <= i < frames.len() ==> {
            &&& (#[trigger] frames[i]).len() == 188
            &&& frame_pid(frames[i]) == target
            &&& frame_cc(frames[i]) == i
            &&& frame_unit_start_bit(frames[i]) == if i == 0 { 1int } else { 0int }
        }
}

/// The bytes that frame number `i` of a unit adds to the payload.
pub open spec fn frame_contribution(i: int, b: Seq<u8>) -> Seq<u8> {
    if i == 0 {
        frame_tail(b, START_PAYLOAD_OFFSET as int)
    } else if i == TERMINAL_CC {
        frame_tail(b, END_PAYLOAD_OFFSET as int)
    } else {
        frame_tail(b, CONTINUE_PAYLOAD_OFFSET as int)
    }
}

/// The payload of the opening frames of a unit: their contributions in order.
pub open spec fn unit_payload(frames: Seq<Seq<u8>>) -> Seq<u8>
    decreases frames.len(),
{
    if frames.len() == 0 {
        Seq::empty()
    } else {
        unit_payload(frames.drop_last()) + frame_contribution(frames.len() - 1, frames.last())
    }
}

/// The phase after the first `n` frames of a unit.
pub open spec fn unit_phase(n: int) -> State {
    if n == 1 {
        State::Start
    } else if n == 16 {
        State::End
    } else {
        State::Continue
    }
}

/// The payload length after the first `n` frames of a unit.
pub open spec fn unit_payload_len(n: int) -> int {
    if n == 16 {
        168int + 14 * 184 + 136
    } else {
        168 + 184 * (n - 1)
    }
}

proof fn lemma_unit_prefix(v: PESPacketView, frames: Seq<Seq<u8>>, target: int)
    requires
        1 <= frames.len() <= 16,
        unit_frames(frames, target),
    ensures
        run(v, frames, target).state == unit_phase(frames.len() as int),
        run(v, frames, target).prev_cc == frames.len() - 1,
        run(v, frames, target).content == unit_payload(frames),
        run(v, frames, target).content.len() == unit_payload_len(frames.len() as int),
    decreases frames.len(),
{
    let n = frames.len() as int;
    let last = frames.last();
    assert(last == frames[n - 1]);
    let prefix = frames.drop_last();
    if n == 1 {
        assert(prefix.len() == 0);
        assert(unit_payload(prefix) =~= Seq::<u8>::empty());
        assert(unit_payload(frames) =~= frame_tail(last, START_PAYLOAD_OFFSET as int));
    } else {
        assert forall|i: int| 0 <= i < prefix.len() implies {
            &&& (#[trigger] prefix[i]).len() == 188
            &&& frame_pid(prefix[i]) == target
            &&& frame_cc(prefix[i]) == i
            &&& frame_unit_start_bit(prefix[i]) == if i == 0 { 1int } else { 0int }
        } by {
            assert(prefix[i] == frames[i]);
        }
        lemma_unit_prefix(v, prefix, target);
    }
}

/// A unit whose sixteen frames carry counters 0 to 15 passes through Start on
/// its first frame, Continue on the next fourteen and End on the last, and
/// its payload is the frames' contributions in order: 168 bytes from the
/// first, 184 from each middle one and 136 from the last.
pub proof fn lemma_full_unit(v: PESPacketView, frames: Seq<Seq<u8>>, target: int)
    requires
        frames.len() == 16,
        unit_frames(frames, target),
    ensures
        forall|k: int|
            1 <= k <= 16 ==> (#[trigger] run(v, frames.take(k), target)).state == unit_phase(k),
        run(v, frames, target).state == State::End,
        run(v, frames, target).content == unit_payload(frames),
        run(v, frames, target).content.len() == 168 + 14 * 184 + 136,
{
    assert forall|k: int| 1 <= k <= 16 implies (#[trigger] run(v, frames.take(k), target)).state
        == unit_phase(k) by {
        let p = frames.take(k);
        assert forall|i: int| 0 <= i < p.len() implies {
            &&& (#[trigger] p[i]).len() == 188
            &&& frame_pid(p[i]) == target
            &&& frame_cc(p[i]) == i
            &&& frame_unit_start_bit(p[i]) == if i == 0 { 1int } else { 0int }
        } by {
            assert(p[i] == frames[i]);
        }
        lemma_unit_prefix(v, p, target);
    }
    lemma_unit_prefix(v, frames, target);
}

/// When the frames run out after two to fifteen frames of a unit, the unit
/// is still in progress and its buffer holds every byte those frames added.
pub proof fn lemma_partial_unit(v: PESPacketView, frames: Seq<Seq<u8>>, target: int)
    requires
        2 <= frames.len() <= 15,
        unit_frames(frames, target),
    ensures
        run(v, frames, target).state == State::Continue,
        run(v, frames, target).content == unit_payload(frames),
        run(v, frames, target).content.len() == 168 + 184 * (frames.len() - 1),
{
    lemma_unit_prefix(v, frames, target);
}

} // verus!
