//! Decoding of the MPEG audio frame header that opens a reassembled payload.
use vstd::prelude::*;

verus! {

/// The bit rate that a header's bitrate index stands for.
#[derive(PartialEq, Eq, Structural, Clone, Copy, Debug)]
pub enum Bitrate {
    /// Index 0: free format, no fixed bit rate.
    Free,
    /// Index 15, or a reserved version or layer: no valid bit rate.
    Bad,
    /// A bit rate in kilobits per second.
    Kbps(u32),
}

/// The sampling rate that a header's sampling rate index stands for.
#[derive(PartialEq, Eq, Structural, Clone, Copy, Debug)]
pub enum SampleRate {
    /// Index 3, or a reserved version.
    Reserved,
    /// A sampling rate in hertz.
    Hz(u32),
}

/// The fields of an MPEG audio frame header, with the bit rate, sampling
/// rate and frame size they resolve to.
#[derive(PartialEq, Eq, Structural, Clone, Copy, Debug)]
pub struct AudioFrameHeader {
    /// The 11-bit frame sync; 0x7FF in every decoded header.
    pub frame_sync: u16,
    /// Version code: 0 = MPEG 2.5, 1 = reserved, 2 = MPEG 2, 3 = MPEG 1.
    pub version: u8,
    /// Layer code: 0 = reserved, 1 = Layer III, 2 = Layer II, 3 = Layer I.
    pub layer: u8,
    pub protection_bit: u8,
    pub bitrate_index: u8,
    pub bitrate: Bitrate,
    pub sampling_rate_index: u8,
    pub sample_rate: SampleRate,
    pub padding_bit: u8,
    pub private_bit: u8,
    pub channel_mode: u8,
    pub mode_extension: u8,
    pub copyright: u8,
    pub original: u8,
    pub emphasis: u8,
    /// Frame length in bytes; present only when both rates are numeric.
    pub frame_size: Option<u32>,
}

/// The frame sync pattern: eleven bits set.
pub const FRAME_SYNC: u16 = 0x7FF;

/// One row of the bit rate table, for bitrate index 1 to 14, in kbps:
/// (MPEG 1 Layer I, MPEG 1 Layer II, MPEG 1 Layer III,
///  MPEG 2/2.5 Layer I, MPEG 2/2.5 Layer II and III).
pub open spec fn kbps_row(index: int) -> (u32, u32, u32, u32, u32) {
    if index == 1 { (32, 32, 32, 32, 8) }
    else if index == 2 { (64, 48, 40, 48, 16) }
    else if index == 3 { (96, 56, 48, 56, 24) }
    else if index == 4 { (128, 64, 56, 64, 32) }
    else if index == 5 { (160, 80, 64, 80, 40) }
    else if index == 6 { (192, 96, 80, 96, 48) }
    else if index == 7 { (224, 112, 96, 112, 56) }
    else if index == 8 { (256, 128, 112, 128, 64) }
    else if index == 9 { (288, 160, 128, 144, 80) }
    else if index == 10 { (320, 192, 160, 160, 96) }
    else if index == 11 { (352, 224, 192, 176, 112) }
    else if index == 12 { (384, 256, 224, 192, 128) }
    else if index == 13 { (416, 320, 256, 224, 144) }
    else { (448, 384, 320, 256, 160) }
}

/// The column of the bit rate table for a (version, layer) pair, or -1 when
/// the version or the layer is reserved.
pub open spec fn kbps_column(version: int, layer: int) -> int {
    if layer == 0 || version == 1 { -1 }
    else if version == 3 { 3 - layer }
    else if layer == 3 { 3 }
    else { 4 }
}

/// Entry `column` of a table row.
pub open spec fn row_entry(row: (u32, u32, u32, u32, u32), column: int) -> u32 {
    if column == 0 { row.0 }
    else if column == 1 { row.1 }
    else if column == 2 { row.2 }
    else if column == 3 { row.3 }
    else { row.4 }
}

/// What a bitrate index resolves to under a version and a layer.
pub open spec fn bitrate_of(index: int, version: int, layer: int) -> Bitrate {
    if index == 0 { Bitrate::Free }
    else if index >= 15 || kbps_column(version, layer) < 0 { Bitrate::Bad }
    else { Bitrate::Kbps(row_entry(kbps_row(index), kbps_column(version, layer))) }
}

/// What a sampling rate index resolves to under a version.
pub open spec fn sample_rate_of(index: int, version: int) -> SampleRate {
    if index >= 3 || version == 1 || version > 3 { SampleRate::Reserved }
    else {
        let base: int = if index == 0 { 44100 } else if index == 1 { 48000 } else { 32000 };
        let divisor: int = if version == 3 { 1 } else if version == 2 { 2 } else { 4 };
        SampleRate::Hz((base / divisor) as u32)
    }
}

/// 144 × bit rate (bits per second) / sampling rate + padding, truncated;
/// defined only when both rates are numeric.
pub open spec fn frame_size_of(bitrate: Bitrate, rate: SampleRate, padding: int) -> Option<u32> {
    match (bitrate, rate) {
        (Bitrate::Kbps(k), SampleRate::Hz(h)) => Some(((144 * k * 1000) / (h as int) + padding) as u32),
        _ => None,
    }
}

/// Whether the first bytes of a payload carry the frame sync.
pub open spec fn has_frame_sync(c: Seq<u8>) -> bool {
    c.len() >= 4 && c[0] == 0xFF && c[1] / 32 == 7
}

/// The header that the first four bytes of `c` decode to, if they open with
/// the frame sync.
pub open spec fn audio_header_of(c: Seq<u8>) -> Option<AudioFrameHeader> {
    if !has_frame_sync(c) {
        None
    } else {
        let version = (c[1] / 8) % 4;
        let layer = (c[1] / 2) % 4;
        let bitrate_index = c[2] / 16;
        let sampling_rate_index = (c[2] / 4) % 4;
        let padding_bit = (c[2] / 2) % 2;
        let bitrate = bitrate_of(bitrate_index as int, version as int, layer as int);
        let sample_rate = sample_rate_of(sampling_rate_index as int, version as int);
        Some(AudioFrameHeader {
            frame_sync: FRAME_SYNC,
            version,
            layer,
            protection_bit: c[1] % 2,
            bitrate_index,
            bitrate,
            sampling_rate_index,
            sample_rate,
            padding_bit,
            private_bit: c[2] % 2,
            channel_mode: c[3] / 64,
            mode_extension: (c[3] / 16) % 4,
            copyright: (c[3] / 8) % 2,
            original: (c[3] / 4) % 2,
            emphasis: c[3] % 4,
            frame_size: frame_size_of(bitrate, sample_rate, padding_bit as int),
        })
    }
}

/// The name of a version code.
pub open spec fn version_name_of(version: u8) -> Seq<char> {
    if version == 0 { "MPEG Version 2.5"@ }
    else if version == 1 { "reserved"@ }
    else if version == 2 { "MPEG Version 2"@ }
    else { "MPEG Version 1"@ }
}

/// The name of a layer code.
pub open spec fn layer_name_of(layer: u8) -> Seq<char> {
    if layer == 0 { "reserved"@ }
    else if layer == 1 { "Layer III"@ }
    else if layer == 2 { "Layer II"@ }
    else { "Layer I"@ }
}

fn kbps_table_row(index: u8) -> (r: (u32, u32, u32, u32, u32))
    requires
        1 <= index <= 14,
    ensures
        r == kbps_row(index as int),
        8 <= r.0 <= 448 && 8 <= r.1 <= 448 && 8 <= r.2 <= 448,
        8 <= r.3 <= 448 && 8 <= r.4 <= 448,
{
    if index == 1 { (32, 32, 32, 32, 8) }
    else if index == 2 { (64, 48, 40, 48, 16) }
    else if index == 3 { (96, 56, 48, 56, 24) }
    else if index == 4 { (128, 64, 56, 64, 32) }
    else if index == 5 { (160, 80, 64, 80, 40) }
    else if index == 6 { (192, 96, 80, 96, 48) }
    else if index == 7 { (224, 112, 96, 112, 56) }
    else if index == 8 { (256, 128, 112, 128, 64) }
    else if index == 9 { (288, 160, 128, 144, 80) }
    else if index == 10 { (320, 192, 160, 160, 96) }
    else if index == 11 { (352, 224, 192, 176, 112) }
    else if index == 12 { (384, 256, 224, 192, 128) }
    else if index == 13 { (416, 320, 256, 224, 144) }
    else { (448, 384, 320, 256, 160) }
}

/// Resolves a bitrate index under a version and a layer code.
pub fn resolve_bitrate(index: u8, version: u8, layer: u8) -> (r: Bitrate)
    requires
        version < 4,
        layer < 4,
    ensures
        r == bitrate_of(index as int, version as int, layer as int),
        r matches Bitrate::Kbps(k) ==> 8 <= k <= 448,
{
    if index == 0 {
        return Bitrate::Free;
    }
    if index >= 15 || layer == 0 || version == 1 {
        return Bitrate::Bad;
    }
    let row = kbps_table_row(index);
    let column: u8 = if version == 3 { 3 - layer } else if layer == 3 { 3 } else { 4 };
    let k = if column == 0 { row.0 } else if column == 1 { row.1 } else if column == 2 { row.2 }
        else if column == 3 { row.3 } else { row.4 };
    Bitrate::Kbps(k)
}

/// Resolves a sampling rate index under a version code.
pub fn resolve_sample_rate(index: u8, version: u8) -> (r: SampleRate)
    ensures
        r == sample_rate_of(index as int, version as int),
        r matches SampleRate::Hz(h) ==> 8000 <= h <= 48000,
{
    if index >= 3 || version == 1 || version > 3 {
        return SampleRate::Reserved;
    }
    let base: u32 = if index == 0 { 44100 } else if index == 1 { 48000 } else { 32000 };
    let divisor: u32 = if version == 3 { 1 } else if version == 2 { 2 } else { 4 };
    SampleRate::Hz(base / divisor)
}

/// Computes the frame length in bytes when both rates are numeric.
pub fn frame_size(bitrate: Bitrate, rate: SampleRate, padding: u8) -> (r: Option<u32>)
    requires
        bitrate matches Bitrate::Kbps(k) ==> k <= 448,
        rate matches SampleRate::Hz(h) ==> h >= 8000,
        padding <= 1,
    ensures
        r == frame_size_of(bitrate, rate, padding as int),
{
    match (bitrate, rate) {
        (Bitrate::Kbps(k), SampleRate::Hz(h)) => {
            let bits: u32 = 144 * k * 1000;
            let q: u32 = bits / h;
            assert(q <= bits) by (nonlinear_arith)
                requires
                    q == bits / h,
                    h >= 8000,
            ;
            Some(q + padding as u32)
        },
        _ => None,
    }
}

/// Decodes the audio frame header that opens `payload`; `None` when the
/// payload is shorter than a header or does not open with the frame sync.
pub fn decode_audio_header(payload: &[u8]) -> (r: Option<AudioFrameHeader>)
    ensures
        r == audio_header_of(payload@),
{
    if payload.len() < 4 {
        return None;
    }
    let c0 = payload[0];
    let c1 = payload[1];
    let c2 = payload[2];
    let c3 = payload[3];
    let frame_sync: u16 = (c0 as u16) * 8 + (c1 as u16) / 32;
    if frame_sync != FRAME_SYNC {
        return None;
    }
    let version = (c1 / 8) % 4;
    let layer = (c1 / 2) % 4;
    let bitrate_index = c2 / 16;
    let sampling_rate_index = (c2 / 4) % 4;
    let padding_bit = (c2 / 2) % 2;
    let bitrate = resolve_bitrate(bitrate_index, version, layer);
    let sample_rate = resolve_sample_rate(sampling_rate_index, version);
    Some(AudioFrameHeader {
        frame_sync,
        version,
        layer,
        protection_bit: c1 % 2,
        bitrate_index,
        bitrate,
        sampling_rate_index,
        sample_rate,
        padding_bit,
        private_bit: c2 % 2,
        channel_mode: c3 / 64,
        mode_extension: (c3 / 16) % 4,
        copyright: (c3 / 8) % 2,
        original: (c3 / 4) % 2,
        emphasis: c3 % 4,
        frame_size: frame_size(bitrate, sample_rate, padding_bit),
    })
}

impl AudioFrameHeader {
    /// The name of the header's MPEG version.
    pub fn version_name(&self) -> (r: &'static str)
        ensures
            r@ == version_name_of(self.version),
    {
        if self.version == 0 { "MPEG Version 2.5" }
        else if self.version == 1 { "reserved" }
        else if self.version == 2 { "MPEG Version 2" }
        else { "MPEG Version 1" }
    }

    /// The name of the header's layer.
    pub fn layer_name(&self) -> (r: &'static str)
        ensures
            r@ == layer_name_of(self.layer),
    {
        if self.layer == 0 { "reserved" }
        else if self.layer == 1 { "Layer III" }
        else if self.layer == 2 { "Layer II" }
        else { "Layer I" }
    }
}

/// Bitrate index 0 means free format under every version and layer: a
/// header that carries it has no numeric bit rate and no frame size.
pub proof fn lemma_free_bitrate(c: Seq<u8>)
    requires
        has_frame_sync(c),
        c[2] / 16 == 0,
    ensures
        audio_header_of(c) matches Some(h) && h.bitrate == Bitrate::Free && h.frame_size.is_none(),
        forall|version: int, layer: int| bitrate_of(0, version, layer) == Bitrate::Free,
{
}

} // verus!
