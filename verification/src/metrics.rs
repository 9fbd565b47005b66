//! Per-device event and failure counters.
//!
//! Every failure branch in the device increments exactly one of these
//! counters; the contracts of the device, muxer and handler operations
//! state which one. Counters only ever grow, and saturate at the top of
//! the `u64` range instead of wrapping.

use vstd::prelude::*;

verus! {

/// The value of a counter after one more increment: counters are
/// monotonic and saturate rather than wrap.
pub open spec fn bumped(c: u64) -> u64 {
    if c == u64::MAX {
        c
    } else {
        (c + 1) as u64
    }
}

/// Increment a saturating monotonic counter.
pub fn bump(c: &mut u64)
    ensures
        *final(c) == bumped(*old(c)),
{
    if *c < u64::MAX {
        *c = *c + 1;
    }
}

/// Vsock-related metrics.
#[derive(Clone, Copy, Debug)]
pub struct VsockDeviceMetrics {
    /// Number of times when handling events on a vsock device.
    pub event_count: u64,
    /// Number of times when activate failed on a vsock device.
    pub activate_fails: u64,
    /// Number of times when interacting with the space config of a vsock device failed.
    pub cfg_fails: u64,
    /// Number of times when handling RX queue events on a vsock device failed.
    pub rx_queue_event_fails: u64,
    /// Number of times when handling TX queue events on a vsock device failed.
    pub tx_queue_event_fails: u64,
    /// Number of times when handling event queue events on a vsock device failed.
    pub ev_queue_event_fails: u64,
    /// Number of times when handling muxer events on a vsock device failed.
    pub muxer_event_fails: u64,
    /// Number of times when handling connection events on a vsock device failed.
    pub conn_event_fails: u64,
    /// Number of events associated with the receiving queue.
    pub rx_queue_event_count: u64,
    /// Number of events associated with the transmitting queue.
    pub tx_queue_event_count: u64,
    /// Number of events associated with the event queue.
    pub ev_queue_event_count: u64,
    /// Number of events associated with the backend.
    pub backend_event_count: u64,
    /// Number of bytes received.
    pub rx_bytes_count: u64,
    /// Number of transmitted bytes.
    pub tx_bytes_count: u64,
    /// Number of packets received.
    pub rx_packets_count: u64,
    /// Number of transmitted packets.
    pub tx_packets_count: u64,
    /// Number of added connections.
    pub conns_added: u64,
    /// Number of killed connections.
    pub conns_killed: u64,
    /// Number of removed connections.
    pub conns_removed: u64,
    /// How many times the killq has been resynced.
    pub killq_resync: u64,
    /// How many flush fails have been seen.
    pub tx_flush_fails: u64,
    /// How many write fails have been seen.
    pub tx_write_fails: u64,
    /// Number of times read() has failed.
    pub rx_read_fails: u64,
}

impl VsockDeviceMetrics {
    /// True when every counter is zero.
    pub open spec fn all_zero(self) -> bool {
        &&& self.event_count == 0
        &&& self.activate_fails == 0
        &&& self.cfg_fails == 0
        &&& self.rx_queue_event_fails == 0
        &&& self.tx_queue_event_fails == 0
        &&& self.ev_queue_event_fails == 0
        &&& self.muxer_event_fails == 0
        &&& self.conn_event_fails == 0
        &&& self.rx_queue_event_count == 0
        &&& self.tx_queue_event_count == 0
        &&& self.ev_queue_event_count == 0
        &&& self.backend_event_count == 0
        &&& self.rx_bytes_count == 0
        &&& self.tx_bytes_count == 0
        &&& self.rx_packets_count == 0
        &&& self.tx_packets_count == 0
        &&& self.conns_added == 0
        &&& self.conns_killed == 0
        &&& self.conns_removed == 0
        &&& self.killq_resync == 0
        &&& self.tx_flush_fails == 0
        &&& self.tx_write_fails == 0
        &&& self.rx_read_fails == 0
    }
}

impl Default for VsockDeviceMetrics {
    /// A fresh metrics block with every counter at zero.
    fn default() -> (r: Self)
        ensures
            r.all_zero(),
    {
        VsockDeviceMetrics {
            event_count: 0,
            activate_fails: 0,
            cfg_fails: 0,
            rx_queue_event_fails: 0,
            tx_queue_event_fails: 0,
            ev_queue_event_fails: 0,
            muxer_event_fails: 0,
            conn_event_fails: 0,
            rx_queue_event_count: 0,
            tx_queue_event_count: 0,
            ev_queue_event_count: 0,
            backend_event_count: 0,
            rx_bytes_count: 0,
            tx_bytes_count: 0,
            rx_packets_count: 0,
            tx_packets_count: 0,
            conns_added: 0,
            conns_killed: 0,
            conns_removed: 0,
            killq_resync: 0,
            tx_flush_fails: 0,
            tx_write_fails: 0,
            rx_read_fails: 0,
        }
    }
}

} // verus!
