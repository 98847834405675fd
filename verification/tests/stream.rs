//! Stream-path tests: header codec and validation, magic-word scanning,
//! stall-tolerant assembly, and the whole packet engine driven over a
//! synthetic transport.

use mmwserial::assembler::{FillState, FillStep, StallPolicy};
use mmwserial::engine::{pacing_defer, body_timeout_ms, EngineStep, PacketEngine};
use mmwserial::sync::scan_fifo;
use mmwserial::types::{
    decode_header, encode_header, magic_word, Header, MessageType, RadarPacket, TlvHeader,
};
use std::collections::VecDeque;

fn header_with(total: u32, objs: u32, tlvs: u32) -> Header {
    let mut h = Header::new();
    h.total_packet_len = total;
    h.num_detected_obj = objs;
    h.num_tlv = tlvs;
    h
}

#[test]
fn magic_word_bytes() {
    assert_eq!(magic_word(), vec![0x02, 0x01, 0x04, 0x03, 0x06, 0x05, 0x08, 0x07]);
}

#[test]
fn header_round_trip_all_fields() {
    let mut h = Header::new();
    h.version = 0x01020304;
    h.total_packet_len = u32::MAX;
    h.platform = 0;
    h.frame_number = 7;
    h.time_cpu_cycles = 0xDEADBEEF;
    h.num_detected_obj = 100;
    h.num_tlv = 10;
    let bytes = encode_header(&h);
    assert_eq!(bytes.len(), 32);
    let d = decode_header(&bytes);
    assert_eq!(d.version, h.version);
    assert_eq!(d.total_packet_len, h.total_packet_len);
    assert_eq!(d.platform, h.platform);
    assert_eq!(d.frame_number, h.frame_number);
    assert_eq!(d.time_cpu_cycles, h.time_cpu_cycles);
    assert_eq!(d.num_detected_obj, h.num_detected_obj);
    assert_eq!(d.num_tlv, h.num_tlv);
    assert_eq!(d.magic, magic_word());
}

#[test]
fn header_layout_is_little_endian() {
    let mut h = Header::new();
    h.version = 0x04030201;
    let bytes = encode_header(&h);
    assert_eq!(&bytes[0..4], &[0x01, 0x02, 0x03, 0x04]);
    // reserved tail stays zero
    assert_eq!(&bytes[28..32], &[0, 0, 0, 0]);
}

#[test]
fn validation_boundaries() {
    // The length rule demands at least 40 bytes, at most 4096, and a
    // multiple of 32. 40 itself is not a multiple of 32, so the smallest
    // length that actually passes is 64: a documented boundary of the rule
    // pair, kept as written.
    assert!(!header_with(40, 0, 0).validate());
    assert!(header_with(64, 0, 0).validate());
    assert!(!header_with(39, 0, 0).validate());
    assert!(header_with(4096, 0, 0).validate());
    assert!(!header_with(4128, 0, 0).validate());
    assert!(!header_with(41, 0, 0).validate());
    assert!(header_with(64, 100, 0).validate());
    assert!(!header_with(64, 101, 0).validate());
    assert!(header_with(64, 0, 10).validate());
    assert!(!header_with(64, 0, 11).validate());
}

#[test]
fn message_type_codes() {
    assert_eq!(MessageType::DetectedPoints.code(), 1);
    assert_eq!(MessageType::RangeProfile.code(), 2);
    assert_eq!(MessageType::TemperatureStats.code(), 9);
}

#[test]
fn message_type_labels() {
    assert_eq!(MessageType::DetectedPoints.label(), "DetectedPoints");
    assert_eq!(
        MessageType::AzimutElevationStaticHeatMap.label(),
        "AzimutElevationStaticHeatMap"
    );
}

#[test]
fn builders() {
    let t = TlvHeader::new();
    assert_eq!(t.typ, 0);
    assert_eq!(t.length, 0);
    let h = Header::new();
    assert_eq!(h.total_packet_len, 0);
    assert_eq!(h.magic, magic_word());
    let p = RadarPacket::new(h, vec![1, 2, 3]);
    assert_eq!(p.data, vec![1, 2, 3]);
    assert_eq!(p.header.total_packet_len, 0);
}

#[test]
fn scan_consumes_noise_and_finds_magic() {
    let mut fifo: VecDeque<u8> = VecDeque::new();
    fifo.extend([0xAA, 0xBB, 0xCC]);
    fifo.extend(magic_word());
    fifo.extend([0x11, 0x22]);
    let (found, matched) = scan_fifo(&mut fifo, 0);
    assert!(found);
    assert_eq!(matched, 8);
    // everything through the magic word is consumed, the payload stays
    assert_eq!(fifo.iter().copied().collect::<Vec<u8>>(), vec![0x11, 0x22]);
}

#[test]
fn scan_survives_overlapping_partial_match() {
    // A partial match (the magic word's first three bytes) immediately
    // followed by the true occurrence: the byte that breaks the partial
    // match also starts the real one and must not be lost.
    let mut fifo: VecDeque<u8> = VecDeque::new();
    fifo.extend([0x02, 0x01, 0x04]);
    fifo.extend(magic_word());
    fifo.extend([0x99]);
    let (found, _) = scan_fifo(&mut fifo, 0);
    assert!(found);
    assert_eq!(fifo.iter().copied().collect::<Vec<u8>>(), vec![0x99]);
}

#[test]
fn scan_restarts_inside_broken_match() {
    // Four good bytes, then the stream starts over with the full word: the
    // scanner must restart its counter at the repeated first byte.
    let mut fifo: VecDeque<u8> = VecDeque::new();
    fifo.extend([0x02, 0x01, 0x04, 0x03]);
    fifo.extend(magic_word());
    let (found, _) = scan_fifo(&mut fifo, 0);
    assert!(found);
    assert!(fifo.is_empty());
}

#[test]
fn scan_resumes_across_deliveries() {
    let mut fifo: VecDeque<u8> = VecDeque::new();
    fifo.extend([0x55, 0x02, 0x01, 0x04]);
    let (found, matched) = scan_fifo(&mut fifo, 0);
    assert!(!found);
    assert_eq!(matched, 3);
    assert!(fifo.is_empty());
    fifo.extend([0x03, 0x06, 0x05, 0x08, 0x07]);
    let (found2, matched2) = scan_fifo(&mut fifo, matched);
    assert!(found2);
    assert_eq!(matched2, 8);
}

#[test]
fn stall_accepted_at_145_of_150() {
    // 145 of 150 bytes is 96.7%, above the 95% tier for requests of at most
    // 200 bytes: once both quiet windows pass, the fill is accepted and the
    // tail zero-filled.
    let mut fill = FillState::new(150, 0, 100, StallPolicy::standard());
    let mut fifo: VecDeque<u8> = VecDeque::new();
    fifo.extend(std::iter::repeat(0x5Au8).take(145));
    let step1 = fill.step(&mut fifo, 0);
    assert_eq!(step1, FillStep::Poll);
    let step2 = fill.step(&mut fifo, 10);
    assert_eq!(step2, FillStep::FilledPartial);
    assert_eq!(fill.region.len(), 150);
    assert!(fill.region[..145].iter().all(|&b| b == 0x5A));
    assert!(fill.region[145..].iter().all(|&b| b == 0));
}

#[test]
fn stall_rejected_at_140_of_150() {
    // 140 of 150 bytes is 93.3%, below the 95% tier: the stalled fill is
    // not accepted, and the hard deadline eventually ends it.
    let mut fill = FillState::new(150, 0, 100, StallPolicy::standard());
    let mut fifo: VecDeque<u8> = VecDeque::new();
    fifo.extend(std::iter::repeat(0x5Au8).take(140));
    assert_eq!(fill.step(&mut fifo, 0), FillStep::Poll);
    assert_eq!(fill.step(&mut fifo, 10), FillStep::Poll);
    assert_eq!(fill.step(&mut fifo, 101), FillStep::TimedOut);
    assert_eq!(fill.region.len(), 140);
}

#[test]
fn fill_completes_exactly() {
    let mut fill = FillState::new(4, 0, 100, StallPolicy::standard());
    let mut fifo: VecDeque<u8> = VecDeque::new();
    fifo.extend([1, 2, 3, 4, 5]);
    assert_eq!(fill.step(&mut fifo, 0), FillStep::Filled);
    assert_eq!(fill.region, vec![1, 2, 3, 4]);
    assert_eq!(fifo.iter().copied().collect::<Vec<u8>>(), vec![5]);
}

#[test]
fn pacing_defers_only_inside_window() {
    assert!(!pacing_defer(None, 1000));
    assert!(pacing_defer(Some(1000), 1064));
    assert!(!pacing_defer(Some(1000), 1065));
}

#[test]
fn body_timeout_formula() {
    // 50 ms plus 10 ms per full 100 payload bytes, capped by the budget
    assert_eq!(body_timeout_ms(150, 1000), 60);
    assert_eq!(body_timeout_ms(32, 1000), 50);
    assert_eq!(body_timeout_ms(4000, 1000), 450);
    assert_eq!(body_timeout_ms(150, 30), 30);
}

fn wire_frame(total: u32, payload: &[u8]) -> Vec<u8> {
    let mut h = Header::new();
    h.version = 1;
    h.total_packet_len = total;
    h.platform = 0;
    h.frame_number = 7;
    h.time_cpu_cycles = 0;
    h.num_detected_obj = 2;
    h.num_tlv = 1;
    let mut wire = magic_word();
    wire.extend(encode_header(&h));
    wire.extend(payload.iter().copied());
    wire
}

/// Drive the engine over a synthetic transport that delivers `wire` in
/// short bursts with small time gaps.
fn run_engine(wire: &[u8], chunk: usize) -> (EngineStep, VecDeque<u8>) {
    let mut fifo: VecDeque<u8> = VecDeque::new();
    let mut eng = PacketEngine::new(0, StallPolicy::standard());
    let mut now: u64 = 0;
    let mut fed = 0;
    loop {
        match eng.step(&mut fifo, now, false) {
            EngineStep::Poll => {
                now += 2;
                if fed < wire.len() {
                    let end = usize::min(fed + chunk, wire.len());
                    fifo.extend(wire[fed..end].iter().copied());
                    fed = end;
                }
            }
            done => return (done, fifo),
        }
    }
}

#[test]
fn end_to_end_packet_over_jittery_transport() {
    // Three noise bytes, the magic word, a valid header, and a 56-byte
    // payload, delivered seven bytes at a time: the noise is discarded, the
    // header fields come back exactly, and the payload is byte-identical.
    let payload: Vec<u8> = (0u8..56).collect();
    let mut wire = vec![0xDE, 0xAD, 0x99];
    wire.extend(wire_frame(96, &payload));
    let (outcome, _) = run_engine(&wire, 7);
    match outcome {
        EngineStep::Packet(p) => {
            assert_eq!(p.header.version, 1);
            assert_eq!(p.header.total_packet_len, 96);
            assert_eq!(p.header.platform, 0);
            assert_eq!(p.header.frame_number, 7);
            assert_eq!(p.header.time_cpu_cycles, 0);
            assert_eq!(p.header.num_detected_obj, 2);
            assert_eq!(p.header.num_tlv, 1);
            assert_eq!(p.data, payload);
        }
        other => panic!("expected a packet, got {:?}", discriminant_name(&other)),
    }
}

#[test]
fn stalled_payload_is_zero_padded_into_packet() {
    // The link drops the last 2 of 56 payload bytes. 54 of 56 is 96.4%,
    // above the 95% tier, so once the stall windows pass the packet is
    // emitted with a zero-filled tail instead of being discarded.
    let payload: Vec<u8> = (0u8..56).map(|b| b + 100).collect();
    let mut wire = vec![];
    wire.extend(wire_frame(96, &payload));
    wire.truncate(wire.len() - 2);
    let (outcome, _) = run_engine(&wire, 7);
    match outcome {
        EngineStep::Packet(p) => {
            assert_eq!(p.data.len(), 56);
            assert_eq!(&p.data[..54], &payload[..54]);
            assert_eq!(&p.data[54..], &[0, 0]);
        }
        other => panic!("expected a packet, got {:?}", discriminant_name(&other)),
    }
}

#[test]
fn end_to_end_rejects_misaligned_total_length() {
    // A total length of 72 passes the minimum but is not a multiple of 32,
    // so validation rejects it and the FIFO is cleared for a clean restart.
    let payload: Vec<u8> = (0u8..32).collect();
    let wire = wire_frame(72, &payload);
    let (outcome, fifo) = run_engine(&wire, 7);
    assert!(matches!(outcome, EngineStep::NoPacket));
    assert!(fifo.is_empty());
}

#[test]
fn engine_gives_up_without_magic_word() {
    let wire = vec![0x11u8; 64];
    let (outcome, _) = run_engine(&wire, 16);
    assert!(matches!(outcome, EngineStep::NoPacket));
}

#[test]
fn engine_observes_cancellation() {
    let mut fifo: VecDeque<u8> = VecDeque::new();
    let mut eng = PacketEngine::new(0, StallPolicy::standard());
    let r = eng.step(&mut fifo, 0, true);
    assert!(matches!(r, EngineStep::Cancelled));
}

fn discriminant_name(s: &EngineStep) -> &'static str {
    match s {
        EngineStep::Poll => "Poll",
        EngineStep::NoPacket => "NoPacket",
        EngineStep::Packet(_) => "Packet",
        EngineStep::Cancelled => "Cancelled",
    }
}
