use tsdecode::adaptation::TsPacketAdaptationField;
use tsdecode::audio::{decode_audio_header, resolve_bitrate, resolve_sample_rate, Bitrate, SampleRate};
use tsdecode::packet::TsPacket;
use tsdecode::pes::{PESContent, PESHeader};
use tsdecode::reassembly::{PESPacket, State};

const PID: u16 = 136;

fn frame(pid: u16, unit_start: bool, cc: u8, afc: u8) -> [u8; 188] {
    let mut b = [0u8; 188];
    b[0] = 0x47;
    b[1] = ((pid >> 8) as u8 & 0x1F) | if unit_start { 0x40 } else { 0 };
    b[2] = (pid & 0xFF) as u8;
    b[3] = (afc << 4) | (cc & 0x0F);
    for i in 4..188 {
        b[i] = (i as u8).wrapping_mul(7).wrapping_add(cc);
    }
    b
}

#[test]
fn header_fields_round_trip() {
    let mut b = [0u8; 188];
    b[0] = 0x47;
    b[1] = 0xB5;
    b[2] = 0x6C;
    b[3] = 0x9E;
    let mut st = PESPacket::default();
    let p = TsPacket::parse(b, &mut st, PID);
    assert_eq!(p.sync_byte, 0x47);
    assert_eq!(p.transport_error_indicator, 1);
    assert_eq!(p.payload_unit_start, 0);
    assert_eq!(p.transport_priority, 1);
    assert_eq!(p.packet_identifier, 0x156C);
    assert_eq!(p.transport_scrambling_control, 2);
    assert_eq!(p.adaptation_field_control, 1);
    assert_eq!(p.continuity_counter, 14);
    let b1 = p.transport_error_indicator * 128 + p.payload_unit_start * 64 + p.transport_priority * 32
        + (p.packet_identifier >> 8) as u8;
    let b2 = (p.packet_identifier & 0xFF) as u8;
    let b3 = p.transport_scrambling_control * 64 + p.adaptation_field_control * 16 + p.continuity_counter;
    assert_eq!([p.sync_byte, b1, b2, b3], [b[0], b[1], b[2], b[3]]);
}

#[test]
fn sixteen_frames_make_one_unit() {
    let mut st = PESPacket::default();
    let mut expected: Vec<u8> = Vec::new();
    for cc in 0..16u8 {
        let f = frame(PID, cc == 0, cc, 1);
        let p = TsPacket::parse(f, &mut st, PID);
        let from = if cc == 0 { 20 } else if cc == 15 { 52 } else { 4 };
        expected.extend_from_slice(&f[from..]);
        let want = if cc == 0 { State::Start } else if cc == 15 { State::End } else { State::Continue };
        assert_eq!(st.state, want);
        assert_eq!(p.pes_header.is_some(), cc == 0);
    }
    assert_eq!(st.content.size(), 168 + 14 * 184 + 136);
    assert_eq!(st.content.content, expected);
}

#[test]
fn frames_run_out_mid_unit() {
    let mut st = PESPacket::default();
    let mut expected: Vec<u8> = Vec::new();
    for cc in 0..5u8 {
        let f = frame(PID, cc == 0, cc, 1);
        TsPacket::parse(f, &mut st, PID);
        let from = if cc == 0 { 20 } else { 4 };
        expected.extend_from_slice(&f[from..]);
    }
    assert_eq!(st.state, State::Continue);
    assert_eq!(st.content.size(), 168 + 4 * 184);
    assert_eq!(st.content.content, expected);
}

#[test]
fn out_of_sequence_and_other_streams_are_ignored() {
    let mut st = PESPacket::default();
    TsPacket::parse(frame(PID, true, 0, 1), &mut st, PID);
    TsPacket::parse(frame(PID, false, 3, 1), &mut st, PID);
    TsPacket::parse(frame(PID + 1, false, 1, 1), &mut st, PID);
    assert_eq!(st.state, State::Start);
    assert_eq!(st.prev_cc, 0);
    assert_eq!(st.content.size(), 168);
    TsPacket::parse(frame(PID, false, 1, 1), &mut st, PID);
    assert_eq!(st.state, State::Continue);
    assert_eq!(st.content.size(), 168 + 184);
}

#[test]
fn waiting_state_ignores_continuation_frames() {
    let mut st = PESPacket::default();
    TsPacket::parse(frame(PID, false, 1, 1), &mut st, PID);
    assert_eq!(st.state, State::Waiting);
    assert_eq!(st.content.size(), 0);
}

#[test]
fn no_adaptation_field_below_control_two() {
    let mut st = PESPacket::default();
    for afc in 0..2u8 {
        let p = TsPacket::parse(frame(100, false, 0, afc), &mut st, PID);
        assert!(p.adaptation_field.is_none());
    }
    for afc in 2..4u8 {
        let p = TsPacket::parse(frame(100, false, 0, afc), &mut st, PID);
        assert!(p.adaptation_field.is_some());
    }
}

#[test]
fn adaptation_field_with_pcr() {
    let mut b = [0u8; 188];
    b[4] = 7;
    b[5] = 0x50;
    b[6] = 0x80;
    let af = TsPacketAdaptationField::new_from_buffer(b).unwrap();
    assert_eq!(af.adaptation_field_length, 7);
    assert_eq!(af.random_access_ind, 1);
    assert_eq!(af.program_clock_ref_flag, 1);
    assert_eq!(af.discontinuity_ind, 0);
    assert_eq!(af.program_clock_ref_base, Some(0x100000000));
    assert_eq!(af.program_clock_ref_ext, Some(0));
    assert_eq!(af.stuffing, 0);
    assert_eq!(af.pcr_ticks(), Some(0x100000000u64 * 300));
    let (secs, rest) = af.pcr_time().unwrap();
    let seconds = secs as f64 + rest as f64 / 27_000_000.0;
    let expected = 4294967296.0f64 * 300.0 / 27_000_000.0;
    assert!((seconds - expected).abs() < 1e-9);
    assert_eq!(secs, 47721);
}

#[test]
fn adaptation_field_without_pcr() {
    let mut b = [0u8; 188];
    b[4] = 0;
    b[5] = 0x8B;
    b[10] = 0xFF;
    b[11] = 0xFF;
    let af = TsPacketAdaptationField::new_from_buffer(b).unwrap();
    assert_eq!(af.discontinuity_ind, 1);
    assert_eq!(af.original_program_clock_ref_flag, 1);
    assert_eq!(af.transport_private_data_flag, 1);
    assert_eq!(af.adaptation_field_ext_flag, 1);
    assert_eq!(af.program_clock_ref_base, None);
    assert_eq!(af.pcr_ticks(), None);
    assert_eq!(af.stuffing, -1);
    let d = TsPacketAdaptationField::default();
    assert_eq!(d.adaptation_field_length, 0);
    assert_eq!(d.program_clock_ref_ext, None);
}

#[test]
fn pcr_extension_and_stuffing() {
    let mut b = [0u8; 188];
    b[4] = 183;
    b[5] = 0x10;
    b[6] = 0x00;
    b[9] = 0x01;
    b[10] = 0x81;
    b[11] = 0x2C;
    let af = TsPacketAdaptationField::new_from_buffer(b).unwrap();
    assert_eq!(af.program_clock_ref_base, Some(3));
    assert_eq!(af.program_clock_ref_ext, Some(300));
    assert_eq!(af.pcr_ticks(), Some(1200));
    assert_eq!(af.stuffing, 176);
}

#[test]
fn pes_header_fields() {
    let mut b = [0u8; 188];
    b[6] = 0x00;
    b[7] = 0x00;
    b[8] = 0x01;
    b[9] = 0xC0;
    b[10] = 0x12;
    b[11] = 0x34;
    b[14] = 250;
    let h = PESHeader::new_from_buffer(b);
    assert_eq!(h.packet_start_code_prefix, 1);
    assert_eq!(h.stream_id, 0xC0);
    assert_eq!(h.pes_packet_length, 0x1234);
    assert_eq!(h.pes_header_data_length, 259);
    assert_eq!(PESHeader::default().stream_id, 0);
}

#[test]
fn add_buffer_appends_tail() {
    let mut c = PESContent::default();
    let b = frame(1, false, 2, 1);
    c.add_buffer(b, 180);
    assert_eq!(c.content, b[180..].to_vec());
    c.add_buffer(b, 200);
    assert_eq!(c.size(), 8);
}

#[test]
fn audio_header_mpeg1_layer3() {
    let h = decode_audio_header(&[0xFF, 0xFB, 0x90, 0x64]).unwrap();
    assert_eq!(h.frame_sync, 0x7FF);
    assert_eq!(h.version_name(), "MPEG Version 1");
    assert_eq!(h.layer_name(), "Layer III");
    assert_eq!(h.protection_bit, 1);
    assert_eq!(h.bitrate_index, 9);
    assert_eq!(h.bitrate, Bitrate::Kbps(128));
    assert_eq!(h.sample_rate, SampleRate::Hz(44100));
    assert_eq!(h.padding_bit, 0);
    assert_eq!(h.channel_mode, 1);
    assert_eq!(h.mode_extension, 2);
    assert_eq!(h.copyright, 0);
    assert_eq!(h.original, 1);
    assert_eq!(h.emphasis, 0);
    assert_eq!(h.frame_size, Some(144 * 128 * 1000 / 44100));
    assert_eq!(h.frame_size, Some(417));
}

#[test]
fn audio_header_sync_miss() {
    assert!(decode_audio_header(&[0x00, 0x00, 0x90, 0x64]).is_none());
    assert!(decode_audio_header(&[0xFF, 0xFB, 0x90]).is_none());
    assert!(decode_audio_header(&[0xFF, 0xDB, 0x90, 0x64]).is_none());
}

#[test]
fn audio_header_padding_and_mpeg2() {
    let h = decode_audio_header(&[0xFF, 0xF3, 0x82, 0x00]).unwrap();
    assert_eq!(h.version_name(), "MPEG Version 2");
    assert_eq!(h.bitrate, Bitrate::Kbps(64));
    assert_eq!(h.sample_rate, SampleRate::Hz(22050));
    assert_eq!(h.frame_size, Some(144 * 64 * 1000 / 22050 + 1));
}

#[test]
fn free_bitrate_for_every_version_and_layer() {
    for version in 0..4u8 {
        for layer in 0..4u8 {
            assert_eq!(resolve_bitrate(0, version, layer), Bitrate::Free);
            let b1 = 0xE0 | (version << 3) | (layer << 1);
            let h = decode_audio_header(&[0xFF, b1, 0x00, 0x00]).unwrap();
            assert_eq!(h.bitrate, Bitrate::Free);
            assert_eq!(h.frame_size, None);
        }
    }
}

#[test]
fn bad_and_reserved_entries() {
    assert_eq!(resolve_bitrate(15, 3, 1), Bitrate::Bad);
    assert_eq!(resolve_bitrate(5, 1, 1), Bitrate::Bad);
    assert_eq!(resolve_bitrate(5, 3, 0), Bitrate::Bad);
    assert_eq!(resolve_bitrate(14, 3, 3), Bitrate::Kbps(448));
    assert_eq!(resolve_bitrate(14, 0, 1), Bitrate::Kbps(160));
    assert_eq!(resolve_sample_rate(3, 3), SampleRate::Reserved);
    assert_eq!(resolve_sample_rate(0, 1), SampleRate::Reserved);
    assert_eq!(resolve_sample_rate(2, 0), SampleRate::Hz(8000));
    let h = decode_audio_header(&[0xFF, 0xFB, 0x9C, 0x00]).unwrap();
    assert_eq!(h.sample_rate, SampleRate::Reserved);
    assert_eq!(h.frame_size, None);
}

#[test]
fn unit_start_decodes_audio_header() {
    let mut st = PESPacket::default();
    let mut f = frame(PID, true, 0, 1);
    f[20] = 0xFF;
    f[21] = 0xFB;
    f[22] = 0x90;
    f[23] = 0x64;
    let p = TsPacket::parse(f, &mut st, PID);
    assert!(p.pes_header.is_some());
    let h = st.audio_header.unwrap();
    assert_eq!(h.frame_size, Some(417));
    assert_eq!(st.content.read_mpeg_header(), Some(h));
}

#[test]
fn new_state_is_waiting_with_zero_header() {
    let st = PESPacket::default();
    assert_eq!(st.state, State::Waiting);
    assert_eq!(st.prev_cc, 0);
    assert_eq!(st.content.size(), 0);
    assert_eq!(st.header, PESHeader::default());
    assert_eq!(st.header.packet_start_code_prefix, 0);
    assert_eq!(st.header.stream_id, 0);
    assert_eq!(st.header.pes_packet_length, 0);
    assert_eq!(st.header.pes_header_data_length, 0);
    assert!(st.audio_header.is_none());
}
