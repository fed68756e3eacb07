use sidereon_core::rtcm::{
    Message, MsmHeader, MsmKind as CoreKind, MsmMessage, MsmSatellite, MsmSignal, TextMessage,
};
use sidereon_wasm::error::ErrorKind;
use sidereon_wasm::gnss::Constellation;
use sidereon_wasm::rtcm::{
    decode_rtcm, decode_rtcm_frame, decode_rtcm_stream, decode_rtcm_message, encode_rtcm, encode_rtcm_frame,
    gnss_system_from_label, gnss_system_label, msm_kind_from_label, msm_kind_label,
    rtcm_derive_lli, rtcm_lli_bits, rtcm_message_number, rtcm_minimum_lock_time_ms,
    rtcm_msm_epoch_dt_ms, rtcm_msm_signal_rinex_code, ssr_kind_label, FrameScanner, MsmKind,
    PreviousLock, RtcmLockTimeTracker, SsrKind,
};

fn text_message() -> Message {
    Message::Text(TextMessage {
        reference_station_id: 7,
        mjd: 60000,
        seconds_of_day: 3600,
        character_count: 2,
        code_units: b"hi".to_vec(),
        trailing_bits: Vec::new(),
    })
}

#[test]
fn msm_kind_labels_round_trip() {
    let kinds = [
        MsmKind::Msm1,
        MsmKind::Msm2,
        MsmKind::Msm3,
        MsmKind::Msm4,
        MsmKind::Msm5,
        MsmKind::Msm6,
        MsmKind::Msm7,
    ];
    for k in kinds {
        assert_eq!(msm_kind_from_label(msm_kind_label(k)).unwrap(), k);
    }
    assert_eq!(msm_kind_label(MsmKind::Msm7), "msm7");
    assert_eq!(msm_kind_from_label("msm8").unwrap_err().kind, ErrorKind::Type);
}

#[test]
fn ssr_kind_labels() {
    assert_eq!(ssr_kind_label(SsrKind::Orbit), "orbit");
    assert_eq!(ssr_kind_label(SsrKind::CombinedOrbitClock), "combinedOrbitClock");
    assert_eq!(ssr_kind_label(SsrKind::HighRateClock), "highRateClock");
}

#[test]
fn lower_case_constellation_labels() {
    assert_eq!(gnss_system_from_label("gps").unwrap(), Constellation::Gps);
    assert_eq!(gnss_system_from_label("navic").unwrap(), Constellation::Navic);
    assert_eq!(gnss_system_label(Constellation::Qzss), "QZSS");
    let e = gnss_system_from_label("GPS").unwrap_err();
    assert_eq!(e.kind, ErrorKind::Type);
    assert_eq!(e.message, "invalid GNSS system label \"GPS\"");
}

#[test]
fn lli_bits_are_bit_zero_and_one() {
    let bits = rtcm_lli_bits();
    assert_eq!(bits.loss_of_lock, 1);
    assert_eq!(bits.half_cycle, 2);
}

#[test]
fn minimum_lock_time_tables() {
    assert_eq!(rtcm_minimum_lock_time_ms("msm1", 3).unwrap(), None);
    assert_eq!(rtcm_minimum_lock_time_ms("msm4", 0).unwrap(), Some(0));
    assert_eq!(rtcm_minimum_lock_time_ms("msm4", 1).unwrap(), Some(32));
    assert_eq!(rtcm_minimum_lock_time_ms("msm5", 15).unwrap(), Some(524_288));
    assert_eq!(rtcm_minimum_lock_time_ms("msm5", 16).unwrap(), None);
    assert_eq!(rtcm_minimum_lock_time_ms("msm7", 63).unwrap(), Some(63));
    assert_eq!(rtcm_minimum_lock_time_ms("msm7", 64).unwrap(), Some(64));
    assert_eq!(rtcm_minimum_lock_time_ms("msm7", 96).unwrap(), Some(128));
    assert_eq!(rtcm_minimum_lock_time_ms("msm6", 704).unwrap(), Some(67_108_864));
    assert_eq!(rtcm_minimum_lock_time_ms("msm6", 705).unwrap(), None);
    assert_eq!(rtcm_minimum_lock_time_ms("msm9", 1).unwrap_err().kind, ErrorKind::Type);
}

#[test]
fn derived_lli_flags() {
    assert_eq!(rtcm_derive_lli(None, Some(100), false), 0);
    assert_eq!(rtcm_derive_lli(None, Some(100), true), 2);
    let steady = PreviousLock { min_lock_time_ms: Some(100), elapsed_ms: 1000 };
    assert_eq!(rtcm_derive_lli(Some(steady), Some(2000), false), 0);
    assert_eq!(rtcm_derive_lli(Some(steady), Some(50), false), 1);
    assert_eq!(rtcm_derive_lli(Some(steady), Some(500), true), 3);
    assert_eq!(rtcm_derive_lli(Some(steady), None, false), 1);
}

#[test]
fn msm_epoch_differences_wrap() {
    assert_eq!(rtcm_msm_epoch_dt_ms("gps", 1000, 2000).unwrap(), 1000);
    assert_eq!(rtcm_msm_epoch_dt_ms("gps", 604_799_000, 1000).unwrap(), 2000);
    let day = 134_217_728u32;
    assert_eq!(rtcm_msm_epoch_dt_ms("glonass", day + 86_399_000, 2 * day + 1000).unwrap(), 2000);
    assert_eq!(rtcm_msm_epoch_dt_ms("glonass", 7 * day + 86_399_000, 7 * day + 500).unwrap(), 1500);
    assert_eq!(rtcm_msm_epoch_dt_ms("mars", 0, 0).unwrap_err().kind, ErrorKind::Type);
}

#[test]
fn msm_signal_codes() {
    assert_eq!(rtcm_msm_signal_rinex_code("gps", 2).unwrap(), Some("1C"));
    assert_eq!(rtcm_msm_signal_rinex_code("gps", 0).unwrap(), None);
    assert_eq!(rtcm_msm_signal_rinex_code("gps", 33).unwrap(), None);
    assert_eq!(rtcm_msm_signal_rinex_code("x", 2).unwrap_err().kind, ErrorKind::Type);
}

#[test]
fn message_number_reads_twelve_bits() {
    assert_eq!(rtcm_message_number(&[0x3E, 0xD0]).unwrap(), 1005);
    assert_eq!(rtcm_message_number(&[0x40, 0x5F, 0xFF]).unwrap(), 1029);
    assert_eq!(rtcm_message_number(&[0x3E]).unwrap_err().kind, ErrorKind::Engine);
}

#[test]
fn encoded_frame_decodes_to_the_same_message() {
    let message = text_message();
    let frame = encode_rtcm_frame(&message).unwrap();
    assert_eq!(frame[0], 0xD3);
    let decoded = decode_rtcm_frame(&frame).unwrap();
    assert_eq!(decoded.message, message);
    assert_eq!(decoded.frame_len as usize, frame.len());
    let body = encode_rtcm(&message).unwrap();
    assert_eq!(body.len() + 6, frame.len());
    assert_eq!(decode_rtcm_message(&body).unwrap(), message);
    assert_eq!(rtcm_message_number(&body).unwrap(), 1029);
}

#[test]
fn damaged_frame_is_an_engine_error() {
    let mut frame = encode_rtcm_frame(&text_message()).unwrap();
    let last = frame.len() - 1;
    frame[last] ^= 0xFF;
    assert_eq!(decode_rtcm_frame(&frame).unwrap_err().kind, ErrorKind::Engine);
    assert_eq!(decode_rtcm_frame(&[0xD3]).unwrap_err().kind, ErrorKind::Engine);
    assert_eq!(decode_rtcm_message(&[0x40]).unwrap_err().kind, ErrorKind::Engine);
}

#[test]
fn scanner_yields_valid_frames_in_order() {
    let frame = encode_rtcm_frame(&text_message()).unwrap();
    let mut stream = vec![0x00, 0x11];
    stream.extend_from_slice(&frame);
    stream.extend_from_slice(&[0x22]);
    stream.extend_from_slice(&frame);
    let mut scanner = FrameScanner::new(&stream);
    assert_eq!(scanner.length(), 2);
    let first = scanner.next().unwrap();
    assert_eq!(first.frame_len, frame.len());
    assert_eq!(first.body, frame[3..frame.len() - 3].to_vec());
    assert!(scanner.next().is_some());
    assert!(scanner.next().is_none());
    assert!(scanner.next().is_none());
    assert_eq!(decode_rtcm(&stream), vec![text_message(), text_message()]);
    assert!(decode_rtcm(&[0xD3, 0x00]).is_empty());
    assert_eq!(decode_rtcm_stream(&stream).messages.len(), 2);
}

#[test]
fn tracker_refuses_non_msm_messages() {
    let mut tracker = RtcmLockTimeTracker::new();
    let e = tracker.observe(&text_message()).unwrap_err();
    assert_eq!(e.kind, ErrorKind::Type);
    tracker.reset();
}

#[test]
fn one_complete_frame_scans_as_itself() {
    let frame = encode_rtcm_frame(&text_message()).unwrap();
    let mut scanner = FrameScanner::new(&frame);
    assert_eq!(scanner.length(), 1);
    let only = scanner.next().unwrap();
    assert_eq!(only.frame_len, frame.len());
    assert_eq!(only.body, frame[3..frame.len() - 3].to_vec());
    assert!(scanner.next().is_none());
    assert_eq!(FrameScanner::new(&frame[..frame.len() - 1]).length(), 0);
}

fn msm4(epoch_time: u32, lock_time_indicator: u16, half_cycle: bool) -> Message {
    Message::Msm(MsmMessage {
        message_number: 1074,
        system: sidereon_core::GnssSystem::Gps,
        kind: CoreKind::Msm4,
        header: MsmHeader {
            reference_station_id: 1,
            epoch_time,
            multiple_message: false,
            iods: 0,
            reserved: 0,
            clock_steering: 0,
            external_clock: 0,
            divergence_free_smoothing: false,
            smoothing_interval: 0,
        },
        signal_mask: 1 << 30,
        satellites: vec![MsmSatellite {
            id: 5,
            rough_range_ms: Some(70),
            rough_range_mod1: 0,
            extended_info: None,
            rough_phase_range_rate_m_s: None,
        }],
        signals: vec![MsmSignal {
            satellite_id: 5,
            signal_id: 2,
            fine_pseudorange: Some(0),
            fine_phase_range: Some(0),
            lock_time_indicator: Some(lock_time_indicator),
            half_cycle_ambiguity: Some(half_cycle),
            cnr: Some(40),
            fine_phase_range_rate: None,
        }],
        trailing_bits: Vec::new(),
    })
}

#[test]
fn tracker_flags_a_lock_time_drop() {
    let mut tracker = RtcmLockTimeTracker::new();
    let first = tracker.observe(&msm4(1000, 10, false)).unwrap();
    assert_eq!(first.len(), 1);
    assert_eq!(first[0].satellite_id, 5);
    assert_eq!(first[0].signal_id, 2);
    assert_eq!(first[0].lli, 0);
    assert_eq!(first[0].min_lock_time_ms, Some(16_384));
    // One second later the lock time fell from 16384 ms to 32 ms: loss of lock.
    let second = tracker.observe(&msm4(2000, 1, true)).unwrap();
    assert_eq!(second[0].lli, 3);
    assert_eq!(second[0].min_lock_time_ms, Some(32));
    tracker.reset();
    let fresh = tracker.observe(&msm4(3000, 1, false)).unwrap();
    assert_eq!(fresh[0].lli, 0);
}
