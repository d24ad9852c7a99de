//! The PES header and the payload buffer of one PES unit.
use vstd::prelude::*;
use crate::audio::{AudioFrameHeader, audio_header_of, decode_audio_header};

verus! {

/// The fixed fields of a PES header, read from a frame that starts a unit.
#[derive(PartialEq, Eq, Structural, Clone, Copy, Debug)]
pub struct PESHeader {
    /// 24-bit start code prefix (bytes 6 to 8).
    pub packet_start_code_prefix: u32,
    /// Stream id (byte 9).
    pub stream_id: u8,
    /// Declared PES packet length (bytes 10 and 11).
    pub pes_packet_length: u16,
    /// Header data length (byte 14) plus the nine bytes of fixed fields before it.
    pub pes_header_data_length: u16,
}

/// The PES header that a unit-start frame holds.
pub open spec fn pes_header_of(b: Seq<u8>) -> PESHeader {
    PESHeader {
        packet_start_code_prefix: (b[6] as int * 0x10000 + b[7] as int * 0x100 + b[8] as int) as u32,
        stream_id: b[9],
        pes_packet_length: (b[10] as int * 0x100 + b[11] as int) as u16,
        pes_header_data_length: (b[14] as int + 9) as u16,
    }
}

/// The bytes of a frame from offset `from` to its end; none when `from` is
/// past the end.
pub open spec fn frame_tail(b: Seq<u8>, from: int) -> Seq<u8> {
    if from <= 188 { b.subrange(from, 188) } else { Seq::empty() }
}

impl PESHeader {
    /// A header with every field zero.
    pub fn default() -> (r: PESHeader)
        ensures
            r == (PESHeader {
                packet_start_code_prefix: 0,
                stream_id: 0,
                pes_packet_length: 0,
                pes_header_data_length: 0,
            }),
    {
        PESHeader { packet_start_code_prefix: 0, stream_id: 0, pes_packet_length: 0, pes_header_data_length: 0 }
    }

    /// Reads the PES header of a frame that starts a PES unit.
    pub fn new_from_buffer(buffer: [u8; 188]) -> (r: PESHeader)
        ensures
            r == pes_header_of(buffer@),
    {
        PESHeader {
            packet_start_code_prefix: buffer[6] as u32 * 0x10000 + buffer[7] as u32 * 0x100 + buffer[8] as u32,
            stream_id: buffer[9],
            pes_packet_length: buffer[10] as u16 * 0x100 + buffer[11] as u16,
            pes_header_data_length: buffer[14] as u16 + 9,
        }
    }
}

/// The payload bytes gathered for one PES unit.
pub struct PESContent {
    pub content: Vec<u8>,
}

impl View for PESContent {
    type V = Seq<u8>;

    open spec fn view(&self) -> Seq<u8> {
        self.content@
    }
}

impl PESContent {
    /// An empty buffer.
    pub fn default() -> (r: PESContent)
        ensures
            r@ == Seq::<u8>::empty(),
    {
        PESContent { content: Vec::new() }
    }

    /// Appends the bytes of `buffer` from offset `from` to its end.
    pub fn add_buffer(&mut self, buffer: [u8; 188], from: u8)
        ensures
            final(self)@ == old(self)@ + frame_tail(buffer@, from as int),
    {
        let mut i: usize = from as usize;
        while i < 188
            invariant
                from <= i,
                from <= 188 ==> i <= 188,
                i <= 188 ==> self@ == old(self)@ + buffer@.subrange(from as int, i as int),
                i > 188 ==> self@ == old(self)@,
            decreases 188 - i,
        {
            self.content.push(buffer[i]);
            proof {
                assert(buffer@.subrange(from as int, i + 1) =~= buffer@.subrange(from as int, i as int).push(buffer@[i as int]));
            }
            i = i + 1;
        }
        assert(self@ =~= old(self)@ + frame_tail(buffer@, from as int));
    }

    /// Decodes the audio frame header at the start of the buffer.
    pub fn read_mpeg_header(&self) -> (r: Option<AudioFrameHeader>)
        ensures
            r == audio_header_of(self@),
    {
        decode_audio_header(self.content.as_slice())
    }

    /// The number of bytes gathered.
    pub fn size(&self) -> (r: usize)
        ensures
            r == self@.len(),
    {
        self.content.len()
    }
}

} // verus!
