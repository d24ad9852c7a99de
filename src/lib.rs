//! Decoding of MPEG transport stream frames, reassembly of one elementary
//! stream's PES payload, and decoding of the MPEG audio frame header found at
//! the start of that payload.
pub mod adaptation;
pub mod audio;
pub mod frame;
pub mod packet;
pub mod pes;
pub mod reassembly;
