//! The reactive event handler.
//!
//! After activation the handler owns the muxer. The surrounding event
//! loop calls one method per event: a TX-queue packet from the guest, an
//! RX-queue slot to fill, an event-queue kick (kill-queue resync), or a
//! backend readiness / failure report. Every method counts its event and
//! every failure branch counts exactly one matching counter.

use vstd::prelude::*;

use crate::connection::sat_add;
use crate::connection::sat_add64;
use crate::metrics::bump;
use crate::metrics::bumped;
use crate::metrics::VsockDeviceMetrics;
use crate::muxer::TxOutcome;
use crate::muxer::VsockMuxer;
use crate::packet::VsockPacket;

verus! {

/// Which backend operation failed, for failure accounting.
#[derive(Clone, Copy, Debug, PartialEq, Eq, Structural)]
pub enum BackendFailKind {
    /// Reading from the backend failed.
    Read,
    /// Writing to the backend failed.
    Write,
    /// Flushing buffered bytes to the backend failed.
    Flush,
}

/// The event handler: the muxer plus the context id it serves.
pub struct VsockEpollHandler {
    /// The context id of the guest.
    pub cid: u64,
    /// The connection multiplexer, owned since activation.
    pub muxer: VsockMuxer,
}

impl VsockEpollHandler {
    /// Internal invariant: the muxer is well formed and serves this cid.
    pub open spec fn wf(self) -> bool {
        &&& self.muxer.wf()
        &&& self.muxer.cid == self.cid
    }

    /// TX-queue event: one packet drained from the guest. Counts the
    /// event, the packet and its bytes, then routes it through the muxer
    /// (see `VsockMuxer::spec_tx_step` for the full effect).
    pub fn handle_txq(
        &mut self,
        pkt: &VsockPacket,
        now: u64,
        metrics: &mut VsockDeviceMetrics,
    ) -> (r: TxOutcome)
        requires
            old(self).wf(),
            pkt.wf(),
        ensures
            final(self).wf(),
            final(self).cid == old(self).cid,
            VsockMuxer::spec_tx_step(
                old(self).muxer,
                final(self).muxer,
                *pkt,
                now,
                (VsockDeviceMetrics {
                    event_count: bumped(old(metrics).event_count),
                    tx_queue_event_count: bumped(old(metrics).tx_queue_event_count),
                    tx_packets_count: bumped(old(metrics).tx_packets_count),
                    tx_bytes_count: sat_add64(old(metrics).tx_bytes_count, pkt.len as u64),
                    ..*old(metrics)
                }),
                *final(metrics),
                r,
            ),
    {
        bump(&mut metrics.event_count);
        bump(&mut metrics.tx_queue_event_count);
        bump(&mut metrics.tx_packets_count);
        metrics.tx_bytes_count = sat_add(metrics.tx_bytes_count, pkt.len as u64);
        self.muxer.send_pkt(pkt, now, metrics)
    }

    /// RX-queue event: fill one queue slot that has room for `max_len`
    /// payload bytes with the next guest-bound packet, if one is ready
    /// (see `VsockMuxer::spec_rx_step`). Counts the event, and the packet
    /// and its bytes when one goes out.
    pub fn handle_rxq(&mut self, max_len: u32, metrics: &mut VsockDeviceMetrics) -> (r: Option<
        VsockPacket,
    >)
        requires
            old(self).wf(),
        ensures
            final(self).wf(),
            final(self).cid == old(self).cid,
            VsockMuxer::spec_rx_step(old(self).muxer, final(self).muxer, r, max_len),
            r matches Some(p) ==> *final(metrics) == (VsockDeviceMetrics {
                event_count: bumped(old(metrics).event_count),
                rx_queue_event_count: bumped(old(metrics).rx_queue_event_count),
                rx_packets_count: bumped(old(metrics).rx_packets_count),
                rx_bytes_count: sat_add64(old(metrics).rx_bytes_count, p.len as u64),
                ..*old(metrics)
            }),
            r is None ==> *final(metrics) == (VsockDeviceMetrics {
                event_count: bumped(old(metrics).event_count),
                rx_queue_event_count: bumped(old(metrics).rx_queue_event_count),
                ..*old(metrics)
            }),
    {
        bump(&mut metrics.event_count);
        bump(&mut metrics.rx_queue_event_count);
        let r = self.muxer.recv_pkt(max_len);
        match &r {
            Some(p) => {
                bump(&mut metrics.rx_packets_count);
                metrics.rx_bytes_count = sat_add(metrics.rx_bytes_count, p.len as u64);
            },
            None => {},
        }
        r
    }

    /// Event-queue kick: resync the kill queue at the current tick (see
    /// `VsockMuxer::spec_sync_step`).
    pub fn handle_evq(&mut self, now: u64, metrics: &mut VsockDeviceMetrics)
        requires
            old(self).wf(),
        ensures
            final(self).wf(),
            final(self).cid == old(self).cid,
            VsockMuxer::spec_sync_step(
                old(self).muxer,
                final(self).muxer,
                now,
                (VsockDeviceMetrics {
                    event_count: bumped(old(metrics).event_count),
                    ev_queue_event_count: bumped(old(metrics).ev_queue_event_count),
                    ..*old(metrics)
                }),
                *final(metrics),
            ),
    {
        bump(&mut metrics.event_count);
        bump(&mut metrics.ev_queue_event_count);
        self.muxer.sync_killq(now, metrics);
    }

    /// Backend readiness: retry the connection's buffered flush.
    pub fn handle_backend_ready(
        &mut self,
        local_port: u32,
        peer_port: u32,
        metrics: &mut VsockDeviceMetrics,
    )
        requires
            old(self).wf(),
        ensures
            final(self).wf(),
            final(self).cid == old(self).cid,
            *final(metrics) == (VsockDeviceMetrics {
                event_count: bumped(old(metrics).event_count),
                backend_event_count: bumped(old(metrics).backend_event_count),
                ..*old(metrics)
            }),
            final(self).muxer.killq@ == old(self).muxer.killq@,
            final(self).muxer.rst_queue@ == old(self).muxer.rst_queue@,
            final(self).muxer.same_backends(old(self).muxer),
            ({
                let k = crate::muxer::spec_conn_key(local_port, peer_port);
                &&& old(self).muxer.conn_map@.contains_key(k) ==> ({
                    let c = old(self).muxer.conn_map@[k];
                    let w = c.stream.spec_accepts(c.tx_pending@.len() as int);
                    &&& old(self).muxer.conns_unchanged_except(final(self).muxer, k)
                    &&& (c.is_active() ==> {
                        &&& final(self).muxer.conn_map@[k].tx_pending@ == c.tx_pending@.skip(w)
                        &&& (c.stream is Echo ==> final(self).muxer.conn_map@[k].stream.pending()
                            == c.stream.pending() + c.tx_pending@.take(w))
                        &&& final(self).muxer.conn_map@[k].fwd_cnt == sat_add64(
                            c.fwd_cnt,
                            w as u64,
                        )
                    })
                    &&& (!c.is_active() ==> final(self).muxer.conn_map@[k] == c)
                })
                &&& !old(self).muxer.conn_map@.contains_key(k) ==> final(self).muxer.unchanged_view(old(self).muxer)
            }),
    {
        bump(&mut metrics.event_count);
        bump(&mut metrics.backend_event_count);
        self.muxer.backend_ready(local_port, peer_port);
    }

    /// Backend I/O failure: count the failing operation's own counter and
    /// degrade the connection to the closing path.
    pub fn handle_backend_failed(
        &mut self,
        local_port: u32,
        peer_port: u32,
        kind: BackendFailKind,
        now: u64,
        metrics: &mut VsockDeviceMetrics,
    )
        requires
            old(self).wf(),
        ensures
            final(self).wf(),
            final(self).cid == old(self).cid,
            final(self).muxer.rst_queue@ == old(self).muxer.rst_queue@,
            final(self).muxer.same_backends(old(self).muxer),
            ({
                let k = crate::muxer::spec_conn_key(local_port, peer_port);
                let met1 = VsockDeviceMetrics {
                    event_count: bumped(old(metrics).event_count),
                    backend_event_count: bumped(old(metrics).backend_event_count),
                    rx_read_fails: if kind == BackendFailKind::Read {
                        bumped(old(metrics).rx_read_fails)
                    } else {
                        old(metrics).rx_read_fails
                    },
                    tx_write_fails: if kind == BackendFailKind::Write {
                        bumped(old(metrics).tx_write_fails)
                    } else {
                        old(metrics).tx_write_fails
                    },
                    tx_flush_fails: if kind == BackendFailKind::Flush {
                        bumped(old(metrics).tx_flush_fails)
                    } else {
                        old(metrics).tx_flush_fails
                    },
                    ..*old(metrics)
                };
                &&& (old(self).muxer.conn_map@.contains_key(k) && old(
                    self,
                ).muxer.conn_map@[k].is_active()) ==> {
                    &&& old(self).muxer.conns_unchanged_except(final(self).muxer, k)
                    &&& final(self).muxer.conn_map@[k].state
                        == crate::connection::ConnState::LocalClosed
                    &&& final(self).muxer.conn_map@[k].pending_reply == Some(
                        crate::connection::PendingReply::Rst,
                    )
                    &&& final(self).muxer.killq@ == old(self).muxer.killq@.push(
                        crate::muxer::KillQueueEntry {
                            key: k,
                            deadline: sat_add64(now, crate::muxer::CONN_KILL_TIMEOUT),
                        },
                    )
                    &&& *final(metrics) == (VsockDeviceMetrics {
                        conns_killed: bumped(met1.conns_killed),
                        ..met1
                    })
                }
                &&& !(old(self).muxer.conn_map@.contains_key(k) && old(
                    self,
                ).muxer.conn_map@[k].is_active()) ==> (final(self).muxer.unchanged_view(
                    old(self).muxer,
                ) && *final(metrics) == met1)
            }),
    {
        bump(&mut metrics.event_count);
        bump(&mut metrics.backend_event_count);
        match kind {
            BackendFailKind::Read => {
                bump(&mut metrics.rx_read_fails);
            },
            BackendFailKind::Write => {
                bump(&mut metrics.tx_write_fails);
            },
            BackendFailKind::Flush => {
                bump(&mut metrics.tx_flush_fails);
            },
        }
        self.muxer.backend_failed(local_port, peer_port, now, metrics);
    }
}

} // verus!
