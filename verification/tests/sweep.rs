use traceprobe::checksum::verify_ipv4_checksum;
use traceprobe::sequencer::choose_dest_port_base;
use traceprobe::sequencer::encode_probe;
use traceprobe::sequencer::run;
use traceprobe::sink::ProbeRecord;
use traceprobe::sink::RecordingSink;

fn sent_packets(sink: &RecordingSink) -> Vec<(Vec<u8>, bool)> {
    let mut out = Vec::new();
    for record in &sink.log {
        if let ProbeRecord::Sent { packet, accepted } = record {
            out.push((packet.clone(), *accepted));
        }
    }
    out
}

fn pauses(sink: &RecordingSink) -> Vec<u64> {
    let mut out = Vec::new();
    for record in &sink.log {
        if let ProbeRecord::Paused { millis } = record {
            out.push(*millis);
        }
    }
    out
}

#[test]
fn three_probe_sweep_scenario() {
    let mut sink = RecordingSink::new();
    let failed = run(&mut sink, 33434, 4243, 3, 0, 0, 0);
    assert!(failed.is_empty());
    let sent = sent_packets(&sink);
    assert_eq!(sent.len(), 3);
    for (i, (packet, accepted)) in sent.iter().enumerate() {
        assert!(*accepted);
        assert_eq!(packet.len(), 28);
        // TTL fields 1, 2, 3 in the emitted IPv4 headers.
        assert_eq!(packet[8], (i + 1) as u8);
        // total_len = 28 (20 + 8, zero payload).
        assert_eq!(packet[2], 0x00);
        assert_eq!(packet[3], 28);
        // UDP length field = 8.
        assert_eq!(packet[24], 0x00);
        assert_eq!(packet[25], 8);
        // Destination ports distinguish the hops: base + probe index.
        let dest_port = (packet[22] as u16) << 8 | packet[23] as u16;
        assert_eq!(dest_port, 33434 + i as u16);
        // Source port as configured.
        let src_port = (packet[20] as u16) << 8 | packet[21] as u16;
        assert_eq!(src_port, 4243);
    }
}

#[test]
fn emitted_headers_carry_valid_checksums() {
    let mut sink = RecordingSink::new();
    run(&mut sink, 33434, 4243, 5, 0, 0x0a000001, 0x5db8d822);
    for (packet, _) in sent_packets(&sink) {
        let header: Vec<u8> = packet[..20].to_vec();
        assert!(verify_ipv4_checksum(&header));
    }
}

#[test]
fn failure_at_one_ttl_does_not_stop_the_sweep() {
    // Refuse the second send (the probe at TTL 2).
    let mut sink = RecordingSink::failing_at(1);
    let failed = run(&mut sink, 33434, 4243, 3, 0, 0, 0);
    let sent = sent_packets(&sink);
    assert_eq!(sent.len(), 3);
    assert_eq!(sent[0].1, true);
    assert_eq!(sent[1].1, false);
    // The send at TTL 3 is still attempted, with the right TTL byte.
    assert_eq!(sent[2].1, true);
    assert_eq!(sent[2].0[8], 3);
    assert_eq!(failed, vec![2]);
}

#[test]
fn every_send_is_followed_by_the_configured_pause() {
    let mut sink = RecordingSink::new();
    run(&mut sink, 33434, 4243, 4, 100, 0, 0);
    assert_eq!(pauses(&sink), vec![100, 100, 100, 100]);
    // Sends and pauses alternate, starting with a send.
    for (i, record) in sink.log.iter().enumerate() {
        match record {
            ProbeRecord::Sent { .. } => assert_eq!(i % 2, 0),
            ProbeRecord::Paused { .. } => assert_eq!(i % 2, 1),
        }
    }
}

#[test]
fn full_sweep_ttls_are_monotone_with_no_skips() {
    let mut sink = RecordingSink::new();
    let failed = run(&mut sink, 33434, 4243, 255, 0, 0, 0);
    assert!(failed.is_empty());
    let sent = sent_packets(&sink);
    assert_eq!(sent.len(), 255);
    for (i, (packet, _)) in sent.iter().enumerate() {
        assert_eq!(packet[8] as usize, i + 1);
    }
}

#[test]
fn encode_probe_matches_the_sweep_output() {
    let mut sink = RecordingSink::new();
    run(&mut sink, 34255, 4243, 2, 0, 0, 0);
    let sent = sent_packets(&sink);
    assert_eq!(sent[0].0, encode_probe(1, 34255, 4243, 0, 0));
    assert_eq!(sent[1].0, encode_probe(2, 34255, 4243, 0, 0));
}

#[test]
fn chosen_port_base_stays_in_the_conventional_range() {
    for _ in 0..50 {
        let base = choose_dest_port_base();
        assert!(base > 33434);
        assert!(base <= 33534);
    }
}

#[test]
fn dest_port_wraps_around_the_port_space() {
    let packet = encode_probe(10, 0xfffd, 4243, 0, 0);
    // 0xfffd + 9 wraps to 0x0006.
    let dest_port = (packet[22] as u16) << 8 | packet[23] as u16;
    assert_eq!(dest_port, 0x0006);
}
