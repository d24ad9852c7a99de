//! The optional adaptation field of a transport stream frame.
use vstd::prelude::*;

verus! {

/// System clock frequency of the program clock reference, in ticks per second.
pub const PCR_CLOCK_HZ: u64 = 27_000_000;

/// The adaptation field that starts at byte 4 of a frame.
#[derive(PartialEq, Eq, Structural, Clone, Copy, Debug)]
pub struct TsPacketAdaptationField {
    pub adaptation_field_length: u8,
    pub discontinuity_ind: u8,
    pub random_access_ind: u8,
    pub elementary_stream_priority_ind: u8,
    pub program_clock_ref_flag: u8,
    pub original_program_clock_ref_flag: u8,
    pub splicing_point_flag: u8,
    pub transport_private_data_flag: u8,
    pub adaptation_field_ext_flag: u8,
    /// 33-bit PCR base, present iff `program_clock_ref_flag` is set.
    pub program_clock_ref_base: Option<u64>,
    /// 9-bit PCR extension, present iff `program_clock_ref_flag` is set.
    pub program_clock_ref_ext: Option<u16>,
    /// Declared length less the flags byte, less the six PCR bytes when present.
    pub stuffing: i32,
}

/// The 33-bit PCR base held in bytes 6 to 10 of a frame.
pub open spec fn pcr_base_of(b: Seq<u8>) -> int {
    b[6] as int * 0x2000000 + b[7] as int * 0x20000 + b[8] as int * 0x200 + b[9] as int * 2
        + b[10] as int / 128
}

/// The 9-bit PCR extension held in bytes 10 and 11 of a frame.
pub open spec fn pcr_ext_of(b: Seq<u8>) -> int {
    (b[10] as int % 2) * 256 + b[11] as int
}

/// The adaptation field that a frame holds from byte 4 on.
pub open spec fn adaptation_field_of(b: Seq<u8>) -> TsPacketAdaptationField {
    let flags = b[5];
    let pcr = (flags / 16) % 2 == 1;
    TsPacketAdaptationField {
        adaptation_field_length: b[4],
        discontinuity_ind: flags / 128,
        random_access_ind: (flags / 64) % 2,
        elementary_stream_priority_ind: (flags / 32) % 2,
        program_clock_ref_flag: (flags / 16) % 2,
        original_program_clock_ref_flag: (flags / 8) % 2,
        splicing_point_flag: (flags / 4) % 2,
        transport_private_data_flag: (flags / 2) % 2,
        adaptation_field_ext_flag: flags % 2,
        program_clock_ref_base: if pcr { Some(pcr_base_of(b) as u64) } else { None },
        program_clock_ref_ext: if pcr { Some(pcr_ext_of(b) as u16) } else { None },
        stuffing: (b[4] as int - 1 - if pcr { 6int } else { 0int }) as i32,
    }
}

impl TsPacketAdaptationField {
    /// An adaptation field with every field zero and no PCR.
    pub fn default() -> (r: TsPacketAdaptationField)
        ensures
            r.adaptation_field_length == 0 && r.stuffing == 0,
            r.discontinuity_ind == 0 && r.random_access_ind == 0,
            r.elementary_stream_priority_ind == 0 && r.program_clock_ref_flag == 0,
            r.original_program_clock_ref_flag == 0 && r.splicing_point_flag == 0,
            r.transport_private_data_flag == 0 && r.adaptation_field_ext_flag == 0,
            r.program_clock_ref_base.is_none() && r.program_clock_ref_ext.is_none(),
    {
        TsPacketAdaptationField {
            adaptation_field_length: 0,
            discontinuity_ind: 0,
            random_access_ind: 0,
            elementary_stream_priority_ind: 0,
            program_clock_ref_flag: 0,
            original_program_clock_ref_flag: 0,
            splicing_point_flag: 0,
            transport_private_data_flag: 0,
            adaptation_field_ext_flag: 0,
            program_clock_ref_base: None,
            program_clock_ref_ext: None,
            stuffing: 0,
        }
    }

    /// Decodes the adaptation field of a frame; it always succeeds.
    pub fn new_from_buffer(buffer: [u8; 188]) -> (r: Option<TsPacketAdaptationField>)
        ensures
            r == Some(adaptation_field_of(buffer@)),
    {
        let flags = buffer[5];
        let pcr = (flags / 16) % 2 == 1;
        let mut stuffing: i32 = buffer[4] as i32 - 1;
        let mut base: Option<u64> = None;
        let mut ext: Option<u16> = None;
        if pcr {
            base = Some(
                buffer[6] as u64 * 0x2000000 + buffer[7] as u64 * 0x20000 + buffer[8] as u64 * 0x200
                    + buffer[9] as u64 * 2 + buffer[10] as u64 / 128,
            );
            ext = Some((buffer[10] as u16 % 2) * 256 + buffer[11] as u16);
            stuffing = stuffing - 6;
        }
        Some(TsPacketAdaptationField {
            adaptation_field_length: buffer[4],
            discontinuity_ind: flags / 128,
            random_access_ind: (flags / 64) % 2,
            elementary_stream_priority_ind: (flags / 32) % 2,
            program_clock_ref_flag: (flags / 16) % 2,
            original_program_clock_ref_flag: (flags / 8) % 2,
            splicing_point_flag: (flags / 4) % 2,
            transport_private_data_flag: (flags / 2) % 2,
            adaptation_field_ext_flag: flags % 2,
            program_clock_ref_base: base,
            program_clock_ref_ext: ext,
            stuffing,
        })
    }

    /// The program clock reference in 27 MHz ticks: base × 300 + extension.
    pub fn pcr_ticks(&self) -> (r: Option<u64>)
        ensures
            match (self.program_clock_ref_base, self.program_clock_ref_ext) {
                (Some(b), Some(e)) => r == if b < 0x200000000 { Some((b * 300 + e) as u64) } else { None },
                _ => r.is_none(),
            },
    {
        match (self.program_clock_ref_base, self.program_clock_ref_ext) {
            (Some(b), Some(e)) => {
                if b < 0x200000000 {
                    Some(b * 300 + e as u64)
                } else {
                    None
                }
            },
            _ => None,
        }
    }

    /// The program clock reference as whole seconds and the ticks of the
    /// 27 MHz clock left over.
    pub fn pcr_time(&self) -> (r: Option<(u64, u64)>)
        ensures
            match (self.program_clock_ref_base, self.program_clock_ref_ext) {
                (Some(b), Some(e)) => r == if b < 0x200000000 {
                    Some((((b * 300 + e) / 27_000_000) as u64, ((b * 300 + e) % 27_000_000) as u64))
                } else {
                    None
                },
                _ => r.is_none(),
            },
    {
        match self.pcr_ticks() {
            Some(t) => Some((t / PCR_CLOCK_HZ, t % PCR_CLOCK_HZ)),
            None => None,
        }
    }
}

} // verus!
