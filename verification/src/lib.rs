//! Construction of raw IPv4 and UDP headers and a TTL-sweep probe driver:
//! the packet-crafting core of a traceroute-style diagnostic tool.
//!
//! `headers` lays the two headers out byte by byte in network order,
//! `checksum` computes the Internet checksum that guards the IPv4 header,
//! and `sequencer` emits one probe per TTL value through a caller-supplied
//! sink, pacing the probes and isolating per-probe send failures.

pub mod checksum;
pub mod headers;
pub mod sequencer;
pub mod sink;
