//! The TTL-sweep probe driver.
//!
//! For each TTL from 1 up to a configured maximum, one probe packet is
//! built — an IPv4 header with that TTL and a freshly computed checksum,
//! followed by a UDP header whose destination port distinguishes the hop —
//! and handed to a sink, with a pause of the configured delay after every
//! send. A refused send is recorded and the sweep goes on: one bad probe
//! does not abort the remaining hops.

use crate::checksum::compute_ipv4_checksum;
use crate::checksum::spec_ipv4_checksum;
use crate::headers::encode_ipv4;
use crate::headers::encode_udp;
use crate::headers::ipv4_header_length_consistent;
use crate::headers::spec_encode_ipv4;
use crate::headers::spec_encode_udp;
use crate::headers::IPv4Header;
use crate::headers::UdpHeader;
use crate::sink::is_pause_of;
use crate::sink::is_send_of;
use crate::sink::send_accepted;
use crate::sink::ProbeSink;
use crate::sink::SinkEvent;
use rand::Rng;
use vstd::prelude::*;

verus! {

/// The version nibble 4 packed with the header-length nibble 5: the fixed
/// first byte of every probe's IPv4 header.
pub const VERSION_IHL_NO_OPTIONS: u8 = 0x45;

/// The IPv4 protocol number of UDP.
pub const PROTOCOL_UDP: u8 = 17;

/// Bytes of an IPv4 header with no options.
pub const IPV4_HEADER_LEN: u16 = 20;

/// Bytes of a UDP header with no payload.
pub const UDP_HEADER_LEN: u16 = 8;

/// The lowest destination port conventionally probed by traceroute; the
/// randomized base is drawn from just above it.
pub const DEST_PORT_FLOOR: u16 = 33434;

/// The probe's IPv4 header before its checksum is filled in: version 4,
/// header length 5 words, 28-byte total length (no payload), UDP protocol,
/// no fragmentation, and the probe's TTL.
pub open spec fn spec_base_header(ttl: u8, src_addr: u32, dest_addr: u32) -> IPv4Header {
    IPv4Header {
        version_ihl: VERSION_IHL_NO_OPTIONS,
        dscp_ecn: 0,
        total_len: (IPV4_HEADER_LEN + UDP_HEADER_LEN) as u16,
        id: 0,
        flags_fragment_offset: 0,
        ttl,
        protocol: PROTOCOL_UDP,
        header_checksum: 0,
        src_addr,
        dest_addr,
    }
}

/// The probe's finished IPv4 header: the base header with its checksum
/// freshly computed over its own byte image.
pub open spec fn spec_probe_header(ttl: u8, src_addr: u32, dest_addr: u32) -> IPv4Header {
    IPv4Header {
        header_checksum: spec_ipv4_checksum(spec_encode_ipv4(spec_base_header(ttl, src_addr, dest_addr))),
        ..spec_base_header(ttl, src_addr, dest_addr)
    }
}

/// The destination port of the probe at `ttl`: the base advanced by the
/// probe's position in the sweep, wrapping around the 16-bit port space, so
/// each hop's probe is distinguishable at the receiver.
pub open spec fn spec_probe_dest_port(dest_port_base: u16, ttl: u8) -> u16 {
    ((dest_port_base + ttl - 1) % 0x10000) as u16
}

/// The probe's UDP header: fixed source port, per-TTL destination port,
/// bare 8-byte length, checksum unused (zero, valid under IPv4).
pub open spec fn spec_probe_udp(ttl: u8, dest_port_base: u16, src_port: u16) -> UdpHeader {
    UdpHeader {
        src_port,
        dest_port: spec_probe_dest_port(dest_port_base, ttl),
        length: UDP_HEADER_LEN as u16,
        checksum: 0,
    }
}

/// The full 28-byte wire image of the probe at `ttl`: the finished IPv4
/// header followed by the UDP header.
pub open spec fn spec_probe_packet(
    ttl: u8,
    dest_port_base: u16,
    src_port: u16,
    src_addr: u32,
    dest_addr: u32,
) -> Seq<u8> {
    spec_encode_ipv4(spec_probe_header(ttl, src_addr, dest_addr)) + spec_encode_udp(
        spec_probe_udp(ttl, dest_port_base, src_port),
    )
}

/// Builds the probe's IPv4 header for one TTL, recomputing the checksum
/// after the TTL is set, as every mutation of the header demands.
pub fn build_probe_header(ttl: u8, src_addr: u32, dest_addr: u32) -> (h: IPv4Header)
    ensures
        h == spec_probe_header(ttl, src_addr, dest_addr),
        ipv4_header_length_consistent(h),
{
    let mut header = IPv4Header {
        version_ihl: VERSION_IHL_NO_OPTIONS,
        dscp_ecn: 0,
        total_len: IPV4_HEADER_LEN + UDP_HEADER_LEN,
        id: 0,
        flags_fragment_offset: 0,
        ttl,
        protocol: PROTOCOL_UDP,
        header_checksum: 0,
        src_addr,
        dest_addr,
    };
    let bytes = match encode_ipv4(&header) {
        Ok(b) => b,
        Err(_) => vstd::pervasive::unreached(),
    };
    header.header_checksum = compute_ipv4_checksum(&bytes);
    header
}

/// Computes the probe's destination port for one TTL.
pub fn probe_dest_port(dest_port_base: u16, ttl: u8) -> (p: u16)
    requires
        ttl >= 1,
    ensures
        p == spec_probe_dest_port(dest_port_base, ttl),
{
    (((dest_port_base as u32) + (ttl as u32 - 1)) % 0x10000) as u16
}

/// Builds the complete wire image of the probe at `ttl`: encoded IPv4
/// header (checksum filled in) followed by the encoded UDP header.
pub fn encode_probe(
    ttl: u8,
    dest_port_base: u16,
    src_port: u16,
    src_addr: u32,
    dest_addr: u32,
) -> (packet: Vec<u8>)
    requires
        ttl >= 1,
    ensures
        packet@ == spec_probe_packet(ttl, dest_port_base, src_port, src_addr, dest_addr),
{
    let header = build_probe_header(ttl, src_addr, dest_addr);
    let mut packet = match encode_ipv4(&header) {
        Ok(b) => b,
        Err(_) => vstd::pervasive::unreached(),
    };
    let udp = UdpHeader {
        src_port,
        dest_port: probe_dest_port(dest_port_base, ttl),
        length: UDP_HEADER_LEN,
        checksum: 0,
    };
    let mut udp_bytes = encode_udp(&udp);
    packet.append(&mut udp_bytes);
    packet
}

/// The send event of the probe at position `k` (0-based) in a sweep whose
/// events start at `base`.
pub open spec fn sweep_send_at(events: Seq<SinkEvent>, base: int, k: int) -> SinkEvent {
    events[base + 2 * k]
}

/// The pause event after the probe at position `k` (0-based) in a sweep
/// whose events start at `base`.
pub open spec fn sweep_pause_at(events: Seq<SinkEvent>, base: int, k: int) -> SinkEvent {
    events[base + 2 * k + 1]
}

/// What one full sweep leaves in a sink's history: the history it found,
/// then, for each TTL from 1 to `max_ttl` in order, the handing over of
/// exactly that TTL's probe packet followed by a pause of the configured
/// delay — whether or not the sink accepted the send.
pub open spec fn spec_run_trace(
    pre: Seq<SinkEvent>,
    post: Seq<SinkEvent>,
    dest_port_base: u16,
    src_port: u16,
    max_ttl: u8,
    delay_ms: u64,
    src_addr: u32,
    dest_addr: u32,
) -> bool {
    &&& post.len() == pre.len() + 2 * (max_ttl as int)
    &&& (forall|i: int| 0 <= i < pre.len() ==> post[i] == pre[i])
    &&& (forall|k: int|
        0 <= k < max_ttl as int ==> is_send_of(
            #[trigger] sweep_send_at(post, pre.len() as int, k),
            spec_probe_packet((k + 1) as u8, dest_port_base, src_port, src_addr, dest_addr),
        ))
    &&& (forall|k: int|
        0 <= k < max_ttl as int ==> is_pause_of(
            #[trigger] sweep_pause_at(post, pre.len() as int, k),
            delay_ms,
        ))
}

proof fn lemma_push_contains_iff(s: Seq<u8>, x: u8, y: u8)
    ensures
        s.push(x).contains(y) <==> (s.contains(y) || x == y),
{
    if s.push(x).contains(y) {
        let i = choose|i: int| 0 <= i < s.push(x).len() && s.push(x)[i] == y;
        if i < s.len() {
            assert(s[i] == y);
        }
    }
    if s.contains(y) {
        let i = choose|i: int| 0 <= i < s.len() && s[i] == y;
        assert(s.push(x)[i] == y);
    }
    if x == y {
        assert(s.push(x)[s.len() as int] == y);
    }
}

/// Drives one full sweep: for each TTL from 1 to `max_ttl` inclusive,
/// builds that TTL's probe packet, hands it to the sink, and pauses for
/// `delay_ms`. A refused send does not abort the sweep; the TTLs whose
/// sends the sink refused are returned, in increasing order.
pub fn run<S: ProbeSink>(
    sink: &mut S,
    dest_port_base: u16,
    src_port: u16,
    max_ttl: u8,
    delay_ms: u64,
    src_addr: u32,
    dest_addr: u32,
) -> (failed_ttls: Vec<u8>)
    ensures
        spec_run_trace(
            old(sink).events(),
            final(sink).events(),
            dest_port_base,
            src_port,
            max_ttl,
            delay_ms,
            src_addr,
            dest_addr,
        ),
        forall|j: int| 0 <= j < failed_ttls@.len() ==> 1 <= #[trigger] failed_ttls@[j] <= max_ttl,
        forall|j1: int, j2: int|
            0 <= j1 < j2 < failed_ttls@.len() ==> failed_ttls@[j1] < failed_ttls@[j2],
        forall|k: int|
            0 <= k < max_ttl as int ==> (failed_ttls@.contains((k + 1) as u8) <==> !send_accepted(
                #[trigger] sweep_send_at(final(sink).events(), old(sink).events().len() as int, k),
            )),
{
    let ghost pre = sink.events();
    let ghost base = pre.len() as int;
    let mut failed_ttls: Vec<u8> = Vec::new();
    let mut t: usize = 0;
    while t < max_ttl as usize
        invariant
            0 <= t <= max_ttl as int,
            pre == old(sink).events(),
            base == pre.len() as int,
            sink.events().len() == base + 2 * t,
            forall|i: int| 0 <= i < base ==> sink.events()[i] == pre[i],
            forall|k: int|
                0 <= k < t ==> is_send_of(
                    #[trigger] sweep_send_at(sink.events(), base, k),
                    spec_probe_packet((k + 1) as u8, dest_port_base, src_port, src_addr, dest_addr),
                ),
            forall|k: int|
                0 <= k < t ==> is_pause_of(#[trigger] sweep_pause_at(sink.events(), base, k), delay_ms),
            forall|j: int| 0 <= j < failed_ttls@.len() ==> 1 <= #[trigger] failed_ttls@[j] <= t,
            forall|j1: int, j2: int|
                0 <= j1 < j2 < failed_ttls@.len() ==> failed_ttls@[j1] < failed_ttls@[j2],
            forall|k: int|
                0 <= k < t ==> (failed_ttls@.contains((k + 1) as u8) <==> !send_accepted(
                    #[trigger] sweep_send_at(sink.events(), base, k),
                )),
        decreases max_ttl as int - t,
    {
        let ttl: u8 = (t + 1) as u8;
        let packet = encode_probe(ttl, dest_port_base, src_port, src_addr, dest_addr);
        let ghost ev0 = sink.events();
        let r = sink.send(&packet);
        let ghost send_ev = SinkEvent::Send { packet: packet@, accepted: r is Ok };
        let ghost old_failed = failed_ttls@;
        match r {
            Ok(_) => {},
            Err(_) => {
                failed_ttls.push(ttl);
                proof {
                    lemma_push_contains_iff(old_failed, ttl, ttl);
                }
            },
        }
        sink.pause(delay_ms);
        proof {
            let ev = sink.events();
            assert(ev == ev0.push(send_ev).push(SinkEvent::Pause { millis: delay_ms }));
            assert forall|k: int| 0 <= k < t + 1 implies is_send_of(
                #[trigger] sweep_send_at(ev, base, k),
                spec_probe_packet((k + 1) as u8, dest_port_base, src_port, src_addr, dest_addr),
            ) by {
                if k < t {
                    assert(sweep_send_at(ev, base, k) == sweep_send_at(ev0, base, k));
                } else {
                    assert(ev[base + 2 * t] == send_ev);
                }
            }
            assert forall|k: int| 0 <= k < t + 1 implies is_pause_of(
                #[trigger] sweep_pause_at(ev, base, k),
                delay_ms,
            ) by {
                if k < t {
                    assert(sweep_pause_at(ev, base, k) == sweep_pause_at(ev0, base, k));
                }
            }
            assert forall|k: int| 0 <= k < t + 1 implies (failed_ttls@.contains((k + 1) as u8)
                <==> !send_accepted(#[trigger] sweep_send_at(ev, base, k))) by {
                if k < t {
                    assert(sweep_send_at(ev, base, k) == sweep_send_at(ev0, base, k));
                    if r is Err {
                        lemma_push_contains_iff(old_failed, ttl, (k + 1) as u8);
                    }
                } else {
                    assert(sweep_send_at(ev, base, t as int) == send_ev);
                    if r is Ok {
                        if failed_ttls@.contains((t + 1) as u8) {
                            let j = choose|j: int|
                                0 <= j < failed_ttls@.len() && failed_ttls@[j] == (t + 1) as u8;
                            assert(failed_ttls@[j] <= t);
                        }
                    }
                }
            }
        }
        t = t + 1;
    }
    failed_ttls
}

/// TTL monotonicity law: the probe at position `k` of a sweep (0-based) is
/// a send of exactly the packet for TTL `k + 1`, a 28-byte image whose TTL
/// byte (offset 8) is `k + 1` — so a full sweep sends TTLs 1, 2, …,
/// `max_ttl` in order, with no skips or repeats.
pub proof fn lemma_ttl_sequence(
    pre: Seq<SinkEvent>,
    post: Seq<SinkEvent>,
    dest_port_base: u16,
    src_port: u16,
    max_ttl: u8,
    delay_ms: u64,
    src_addr: u32,
    dest_addr: u32,
    k: int,
)
    requires
        spec_run_trace(pre, post, dest_port_base, src_port, max_ttl, delay_ms, src_addr, dest_addr),
        0 <= k < max_ttl as int,
    ensures
        is_send_of(
            sweep_send_at(post, pre.len() as int, k),
            spec_probe_packet((k + 1) as u8, dest_port_base, src_port, src_addr, dest_addr),
        ),
        spec_probe_packet((k + 1) as u8, dest_port_base, src_port, src_addr, dest_addr).len() == 28,
        spec_probe_packet((k + 1) as u8, dest_port_base, src_port, src_addr, dest_addr)[8] == (k
            + 1) as u8,
{
    let ttl = (k + 1) as u8;
    let ip = spec_encode_ipv4(spec_probe_header(ttl, src_addr, dest_addr));
    assert(ip.len() == 20);
    assert(ip[8] == ttl);
    assert(spec_probe_packet(ttl, dest_port_base, src_port, src_addr, dest_addr)[8] == ip[8]);
}

/// Pacing law (structural part): after every send of a sweep, before the
/// next one, stands a pause of exactly the configured delay. That the
/// pause consumes at least that much wall-clock time is the sink's
/// obligation, outside this core.
pub proof fn lemma_pacing(
    pre: Seq<SinkEvent>,
    post: Seq<SinkEvent>,
    dest_port_base: u16,
    src_port: u16,
    max_ttl: u8,
    delay_ms: u64,
    src_addr: u32,
    dest_addr: u32,
    k: int,
)
    requires
        spec_run_trace(pre, post, dest_port_base, src_port, max_ttl, delay_ms, src_addr, dest_addr),
        0 <= k < max_ttl as int,
    ensures
        is_pause_of(sweep_pause_at(post, pre.len() as int, k), delay_ms),
{
}

/// Fault-isolation law: whatever became of the send at TTL `k` — accepted
/// or refused — the sweep still hands over the probe at TTL `k + 1`.
pub proof fn lemma_fault_isolation(
    pre: Seq<SinkEvent>,
    post: Seq<SinkEvent>,
    dest_port_base: u16,
    src_port: u16,
    max_ttl: u8,
    delay_ms: u64,
    src_addr: u32,
    dest_addr: u32,
    k: int,
)
    requires
        spec_run_trace(pre, post, dest_port_base, src_port, max_ttl, delay_ms, src_addr, dest_addr),
        1 <= k < max_ttl as int,
    ensures
        is_send_of(
            sweep_send_at(post, pre.len() as int, k - 1),
            spec_probe_packet(k as u8, dest_port_base, src_port, src_addr, dest_addr),
        ),
        is_send_of(
            sweep_send_at(post, pre.len() as int, k),
            spec_probe_packet((k + 1) as u8, dest_port_base, src_port, src_addr, dest_addr),
        ),
{
    assert(0 <= k - 1 < max_ttl as int);
}

/// Draws the randomized offset added to the conventional traceroute port
/// floor.
///
/// Relies on `rand::thread_rng` and `rand::Rng::gen_range`: a sample drawn
/// from a non-empty inclusive range lies within that range.
#[verifier::external_body]
fn random_port_offset() -> (r: u16)
    ensures
        1 <= r <= 100,
{
    rand::thread_rng().gen_range(1u16..=100u16)
}

/// Picks the sweep's destination-port base: the conventional traceroute
/// floor advanced by a random offset of 1 to 100, so concurrent runs are
/// distinguishable at the receiver.
pub fn choose_dest_port_base() -> (r: u16)
    ensures
        DEST_PORT_FLOOR < r <= DEST_PORT_FLOOR + 100,
{
    let offset = random_port_offset();
    DEST_PORT_FLOOR + offset
}

} // verus!
