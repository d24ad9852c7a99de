//! Field extraction from fixed-size transport stream frames.
use vstd::prelude::*;

verus! {

/// Size in bytes of one transport stream frame.
pub const FRAME_SIZE: usize = 188;

/// Byte 0: the sync byte.
pub open spec fn frame_sync_byte(b: Seq<u8>) -> int {
    b[0] as int
}

/// Byte 1, bit 7: transport error indicator.
pub open spec fn frame_error_bit(b: Seq<u8>) -> int {
    b[1] as int / 128
}

/// Byte 1, bit 6: payload unit start indicator.
pub open spec fn frame_unit_start_bit(b: Seq<u8>) -> int {
    (b[1] as int / 64) % 2
}

/// Byte 1, bit 5: transport priority.
pub open spec fn frame_priority_bit(b: Seq<u8>) -> int {
    (b[1] as int / 32) % 2
}

/// Low five bits of byte 1 followed by byte 2: the 13-bit packet identifier.
pub open spec fn frame_pid(b: Seq<u8>) -> int {
    (b[1] as int % 32) * 256 + b[2] as int
}

/// Byte 3, bits 7..6: transport scrambling control.
pub open spec fn frame_scrambling(b: Seq<u8>) -> int {
    b[3] as int / 64
}

/// Byte 3, bits 5..4: adaptation field control.
pub open spec fn frame_adaptation_control(b: Seq<u8>) -> int {
    (b[3] as int / 16) % 4
}

/// Byte 3, bits 3..0: continuity counter.
pub open spec fn frame_cc(b: Seq<u8>) -> int {
    b[3] as int % 16
}

} // verus!
