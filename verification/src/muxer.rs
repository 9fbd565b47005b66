//! The connection multiplexer.
//!
//! The muxer owns the connection table (keyed by the guest/host port
//! pair), the backend registry (destination-port bindings plus one
//! optional default), a queue of loose reset replies, and the kill queue:
//! an ordered list of (key, deadline) pairs that delays table removal of
//! closed connections past the point of logical closure, so packets still
//! in flight during a handler tick stay answerable. Routing a guest
//! packet is a direct key lookup; draining ready connections walks the
//! table in insertion order.

use std::collections::HashMap;

use vstd::prelude::*;

use crate::backend::VsockBackend;
use crate::connection::sat_add64;
use crate::connection::ConnState;
use crate::connection::PendingReply;
use crate::connection::VsockConnection;
use crate::connection::VSOCK_HOST_CID;
use crate::metrics::bump;
use crate::metrics::bumped;
use crate::metrics::VsockDeviceMetrics;
use crate::packet::VsockPacket;
use crate::packet::VSOCK_OP_CREDIT_UPDATE;
use crate::packet::VSOCK_OP_REQUEST;
use crate::packet::VSOCK_OP_RESPONSE;
use crate::packet::VSOCK_OP_RST;
use crate::packet::VSOCK_OP_RW;
use crate::packet::VSOCK_OP_SHUTDOWN;
use crate::packet::VSOCK_TYPE_STREAM;
use crate::MuxerError;

verus! {

broadcast use vstd::std_specs::hash::group_hash_axioms, vstd::std_specs::vec::axiom_spec_len;

/// How long a closed connection stays in the table before the kill queue
/// purges it, in the same time unit the caller's clock uses.
pub const CONN_KILL_TIMEOUT: u64 = 2000;

/// Receive-buffer allocation each connection declares to the guest.
pub const CONN_BUF_ALLOC: u32 = 65536;

/// The table key of a connection: guest port in the high half, host port
/// in the low half.
pub open spec fn spec_conn_key(local_port: u32, peer_port: u32) -> u64 {
    ((local_port as u64) << 32) | (peer_port as u64)
}

/// Compute a connection key.
pub fn conn_key(local_port: u32, peer_port: u32) -> (r: u64)
    ensures
        r == spec_conn_key(local_port, peer_port),
{
    ((local_port as u64) << 32) | (peer_port as u64)
}

/// Distinct port pairs have distinct table keys.
pub proof fn lemma_conn_key_injective(l1: u32, p1: u32, l2: u32, p2: u32)
    ensures
        spec_conn_key(l1, p1) == spec_conn_key(l2, p2) ==> (l1 == l2 && p1 == p2),
{
    assert((((l1 as u64) << 32) | (p1 as u64)) == (((l2 as u64) << 32) | (p2 as u64)) ==> (l1 == l2
        && p1 == p2)) by (bit_vector);
}

/// A deferred removal: the connection under `key` leaves the table once
/// `deadline` has passed.
#[derive(Clone, Copy, Debug, PartialEq, Eq, Structural)]
pub struct KillQueueEntry {
    /// Table key of the closed connection.
    pub key: u64,
    /// The tick after which the connection is purged.
    pub deadline: u64,
}

/// What became of a guest packet fed into the muxer.
#[derive(Clone, Copy, Debug, PartialEq, Eq, Structural)]
pub enum TxOutcome {
    /// A connection request created a new table entry.
    CreatedConnection,
    /// The packet was refused with a reset reply.
    RejectedWithRst,
    /// The packet was handed to the connection it addresses.
    Delivered,
    /// The packet was dropped without effect.
    Ignored,
}

/// Find the backend bound to a port in the registry.
pub open spec fn spec_lookup_backend(reg: Seq<(u32, VsockBackend)>, port: u32) -> Option<
    VsockBackend,
>
    decreases reg.len(),
{
    if reg.len() == 0 {
        None
    } else if reg[0].0 == port {
        Some(reg[0].1)
    } else {
        spec_lookup_backend(reg.skip(1), port)
    }
}

/// When the registry binds nothing to `port`, no entry carries `port`.
proof fn lemma_lookup_backend_none(reg: Seq<(u32, VsockBackend)>, port: u32)
    requires
        spec_lookup_backend(reg, port) is None,
    ensures
        forall|i: int| 0 <= i < reg.len() ==> (#[trigger] reg[i]).0 != port,
    decreases reg.len(),
{
    if reg.len() > 0 {
        lemma_lookup_backend_none(reg.skip(1), port);
        assert forall|i: int| 0 <= i < reg.len() implies (#[trigger] reg[i]).0 != port by {
            if i > 0 {
                assert(reg.skip(1)[i - 1] == reg[i]);
            }
        }
    }
}

/// The connection multiplexer: connection table, backend registry, reset
/// replies owed to the guest, and the kill queue.
pub struct VsockMuxer {
    /// The context id of the guest this device serves.
    pub cid: u64,
    /// The connection table.
    pub conn_map: HashMap<u64, VsockConnection>,
    /// Table keys in insertion order; drains walk this.
    pub conn_order: Vec<u64>,
    /// Backends bound to destination ports.
    pub backends: Vec<(u32, VsockBackend)>,
    /// The backend that catches connections to unbound ports.
    pub default_backend: Option<VsockBackend>,
    /// Deferred removals of closed connections.
    pub killq: Vec<KillQueueEntry>,
    /// Reverse index: pollable backend handle to connection key, for
    /// O(1) dispatch of backend events.
    pub rev_index: HashMap<u64, u64>,
    /// The handle registered for each connection key.
    pub handle_index: HashMap<u64, u64>,
    /// The next pollable handle to hand out.
    pub next_handle: u64,
    /// Reset replies owed to the guest for unroutable packets.
    pub rst_queue: Vec<VsockPacket>,
}

impl VsockMuxer {
    /// Internal invariant: the order list enumerates the table keys
    /// exactly once each; every table entry is well formed and sits under
    /// the key its ports dictate; every kill-queue entry points at a
    /// table entry that is on the closing path, no key twice; registry
    /// ports are distinct; owed resets are well formed.
    pub open spec fn wf(self) -> bool {
        &&& self.conn_order@.no_duplicates()
        &&& forall|i: int|
            0 <= i < self.conn_order@.len() ==> self.conn_map@.contains_key(
                #[trigger] self.conn_order@[i],
            )
        &&& forall|k: u64| #[trigger]
            self.conn_map@.contains_key(k) ==> self.conn_order@.contains(k)
        &&& forall|k: u64| #[trigger]
            self.conn_map@.contains_key(k) ==> self.conn_map@[k].wf() && spec_conn_key(
                self.conn_map@[k].local_port,
                self.conn_map@[k].peer_port,
            ) == k
        &&& forall|i: int|
            0 <= i < self.killq@.len() ==> self.conn_map@.contains_key(
                (#[trigger] self.killq@[i]).key,
            ) && self.conn_map@[self.killq@[i].key].is_closing()
        &&& forall|i: int, j: int|
            0 <= i < j < self.killq@.len() ==> (#[trigger] self.killq@[i]).key != (
            #[trigger] self.killq@[j]).key
        &&& forall|i: int, j: int|
            0 <= i < j < self.backends@.len() ==> (#[trigger] self.backends@[i]).0 != (
            #[trigger] self.backends@[j]).0
        &&& forall|i: int| 0 <= i < self.rst_queue@.len() ==> (#[trigger] self.rst_queue@[i]).wf()
        &&& forall|h: u64| #[trigger]
            self.rev_index@.contains_key(h) ==> self.conn_map@.contains_key(self.rev_index@[h])
                && self.handle_index@.contains_key(self.rev_index@[h])
                && self.handle_index@[self.rev_index@[h]] == h
        &&& forall|k: u64|
            #[trigger] self.handle_index@.contains_key(k) <==> self.conn_map@.contains_key(k)
        &&& forall|k: u64| #[trigger]
            self.handle_index@.contains_key(k) ==> (self.handle_index@[k] < self.next_handle
                && self.rev_index@.contains_key(self.handle_index@[k])
                && self.rev_index@[self.handle_index@[k]] == k)
    }

    /// Backend registry and identity untouched.
    pub open spec fn same_backends(self, o: Self) -> bool {
        &&& self.cid == o.cid
        &&& self.backends@ == o.backends@
        &&& self.default_backend == o.default_backend
    }

    /// The connection table and order untouched except possibly at `k`.
    pub open spec fn conns_unchanged_except(self, o: Self, k: u64) -> bool {
        &&& o.conn_map@.dom() == self.conn_map@.dom()
        &&& o.conn_order@ == self.conn_order@
        &&& forall|k2: u64|
            #![auto]
            self.conn_map@.contains_key(k2) && k2 != k ==> o.conn_map@[k2] == self.conn_map@[k2]
    }

    /// Which backend serves a destination port: the exact binding if one
    /// exists, else the default, else none.
    pub open spec fn spec_route(self, port: u32) -> Option<VsockBackend> {
        if spec_lookup_backend(self.backends@, port) is Some {
            spec_lookup_backend(self.backends@, port)
        } else {
            self.default_backend
        }
    }

    /// A packet the muxer will route: addressed from this guest to the
    /// host, stream type.
    pub open spec fn spec_routable(self, pkt: VsockPacket) -> bool {
        &&& pkt.src_cid == self.cid
        &&& pkt.dst_cid == VSOCK_HOST_CID
        &&& pkt.pkt_type == VSOCK_TYPE_STREAM
    }

    /// A reset reply answering a guest packet that arrived with source
    /// port `to_port` and destination port `from_port`.
    pub open spec fn spec_is_rst_reply(p: VsockPacket, cid: u64, to_port: u32, from_port: u32) -> bool {
        &&& p.op == VSOCK_OP_RST
        &&& p.wf()
        &&& p.len == 0
        &&& p.pkt_type == VSOCK_TYPE_STREAM
        &&& p.src_cid == VSOCK_HOST_CID
        &&& p.dst_cid == cid
        &&& p.src_port == from_port
        &&& p.dst_port == to_port
    }

    /// A fresh muxer for the given context id: no connections, no
    /// backends, nothing owed.
    pub fn new(cid: u64) -> (r: Self)
        ensures
            r.wf(),
            r.cid == cid,
            r.conn_map@ == Map::<u64, VsockConnection>::empty(),
            r.conn_order@ == Seq::<u64>::empty(),
            r.backends@ == Seq::<(u32, VsockBackend)>::empty(),
            r.default_backend is None,
            r.killq@ == Seq::<KillQueueEntry>::empty(),
            r.rst_queue@ == Seq::<VsockPacket>::empty(),
            r.rev_index@ == Map::<u64, u64>::empty(),
            r.next_handle == 0,
    {
        VsockMuxer {
            cid,
            conn_map: HashMap::new(),
            conn_order: Vec::new(),
            backends: Vec::new(),
            default_backend: None,
            killq: Vec::new(),
            rst_queue: Vec::new(),
            rev_index: HashMap::new(),
            handle_index: HashMap::new(),
            next_handle: 0,
        }
    }

    /// Whether the registry binds a backend to this exact port.
    fn port_bound(&self, port: u32) -> (r: bool)
        ensures
            r == (spec_lookup_backend(self.backends@, port) is Some),
    {
        proof {
            assert(self.backends@.skip(0) =~= self.backends@);
        }
        let mut i: usize = 0;
        while i < self.backends.len()
            invariant
                i <= self.backends@.len(),
                spec_lookup_backend(self.backends@.skip(i as int), port) == spec_lookup_backend(
                    self.backends@,
                    port,
                ),
            decreases self.backends@.len() - i,
        {
            if self.backends[i].0 == port {
                proof {
                    assert(self.backends@.skip(i as int)[0] == self.backends@[i as int]);
                }
                return true;
            }
            proof {
                assert(self.backends@.skip(i as int).skip(1) =~= self.backends@.skip(i as int + 1));
                assert(self.backends@.skip(i as int)[0] == self.backends@[i as int]);
            }
            i = i + 1;
        }
        proof {
            assert(self.backends@.skip(self.backends@.len() as int) =~= Seq::<(
                u32,
                VsockBackend,
            )>::empty());
        }
        false
    }

    /// The backend serving a destination port, per `spec_route`.
    fn route(&self, port: u32) -> (r: Option<VsockBackend>)
        ensures
            r == self.spec_route(port),
    {
        proof {
            assert(self.backends@.skip(0) =~= self.backends@);
        }
        let mut i: usize = 0;
        while i < self.backends.len()
            invariant
                i <= self.backends@.len(),
                spec_lookup_backend(self.backends@.skip(i as int), port) == spec_lookup_backend(
                    self.backends@,
                    port,
                ),
            decreases self.backends@.len() - i,
        {
            if self.backends[i].0 == port {
                proof {
                    assert(self.backends@.skip(i as int)[0] == self.backends@[i as int]);
                }
                return Some(self.backends[i].1);
            }
            proof {
                assert(self.backends@.skip(i as int).skip(1) =~= self.backends@.skip(i as int + 1));
                assert(self.backends@.skip(i as int)[0] == self.backends@[i as int]);
            }
            i = i + 1;
        }
        proof {
            assert(self.backends@.skip(self.backends@.len() as int) =~= Seq::<(
                u32,
                VsockBackend,
            )>::empty());
        }
        self.default_backend
    }

    /// Register a backend: either as the default (at most one) or bound
    /// to a destination port (at most one per port). A clash leaves the
    /// registry untouched.
    pub fn add_backend(&mut self, port: u32, backend: VsockBackend, is_default: bool) -> (r: Result<
        (),
        MuxerError,
    >)
        requires
            old(self).wf(),
        ensures
            final(self).wf(),
            final(self).conn_map@ == old(self).conn_map@,
            final(self).conn_order@ == old(self).conn_order@,
            final(self).killq@ == old(self).killq@,
            final(self).rst_queue@ == old(self).rst_queue@,
            final(self).cid == old(self).cid,
            (is_default && old(self).default_backend is Some) ==> ((r is Err) && *final(self)
                == *old(self)),
            (is_default && old(self).default_backend is None) ==> ((r is Ok) && final(self).default_backend == Some(backend) && final(self).backends@ == old(self).backends@),
            (!is_default && spec_lookup_backend(old(self).backends@, port) is Some) ==> ((r is Err)
                && *final(self) == *old(self)),
            (!is_default && spec_lookup_backend(old(self).backends@, port) is None) ==> ((r is Ok)
                && final(self).backends@ == old(self).backends@.push((port, backend)) && final(self).default_backend == old(self).default_backend),
            (r is Err) ==> r == Err::<(), MuxerError>(MuxerError::BackendAlreadyRegistered),
    {
        if is_default {
            match self.default_backend {
                Some(_) => Err(MuxerError::BackendAlreadyRegistered),
                None => {
                    self.default_backend = Some(backend);
                    Ok(())
                },
            }
        } else {
            if self.port_bound(port) {
                Err(MuxerError::BackendAlreadyRegistered)
            } else {
                proof {
                    lemma_lookup_backend_none(self.backends@, port);
                }
                self.backends.push((port, backend));
                Ok(())
            }
        }
    }

    /// Number of connections in the table.
    pub fn conn_count(&self) -> (n: usize)
        ensures
            n == self.conn_map@.dom().len(),
    {
        self.conn_map.len()
    }

    /// Whether a connection for this port pair is in the table.
    pub fn has_conn(&self, local_port: u32, peer_port: u32) -> (r: bool)
        ensures
            r == self.conn_map@.contains_key(spec_conn_key(local_port, peer_port)),
    {
        let key = conn_key(local_port, peer_port);
        self.conn_map.contains_key(&key)
    }

    /// The lifecycle state of the connection for this port pair, if any.
    pub fn conn_state(&self, local_port: u32, peer_port: u32) -> (r: Option<ConnState>)
        ensures
            r == if self.conn_map@.contains_key(spec_conn_key(local_port, peer_port)) {
                Some(self.conn_map@[spec_conn_key(local_port, peer_port)].state)
            } else {
                None::<ConnState>
            },
    {
        let key = conn_key(local_port, peer_port);
        match self.conn_map.get(&key) {
            Some(c) => Some(c.state),
            None => None,
        }
    }

    /// The full effect of feeding one guest packet into the muxer: how
    /// the table, the queues and the counters after (`m1`, `met1`) relate
    /// to those before (`m0`, `met0`), the packet, and the outcome.
    pub open spec fn spec_tx_step(
        m0: Self,
        m1: Self,
        pkt: VsockPacket,
        now: u64,
        met0: VsockDeviceMetrics,
        met1: VsockDeviceMetrics,
        r: TxOutcome,
    ) -> bool {
        &&& (m1.wf())
        &&& (m1.same_backends(m0))
        &&& (!m0.spec_routable(pkt) ==> (r == TxOutcome::Ignored && m1 == m0 && met1 == met0))
        &&& (({
                let k = spec_conn_key(pkt.src_port, pkt.dst_port);
                &&& (m0.spec_routable(pkt) && pkt.op == VSOCK_OP_REQUEST && !m0.conn_map@.contains_key(k) && m0.spec_route(pkt.dst_port) is Some && m0.next_handle < u64::MAX) ==> {
                    &&& r == TxOutcome::CreatedConnection
                    &&& m1.conn_map@.contains_key(k)
                    &&& m1.conn_map@.dom() == m0.conn_map@.dom().insert(k)
                    &&& forall|k2: u64|
                        #![auto]
                        m0.conn_map@.contains_key(k2) ==> m1.conn_map@[k2] == m0.conn_map@[k2]
                    &&& m1.conn_map@[k].state == ConnState::PeerInit
                    &&& m1.conn_map@[k].local_port == pkt.src_port
                    &&& m1.conn_map@[k].peer_port == pkt.dst_port
                    &&& m1.conn_map@[k].peer_buf_alloc == pkt.buf_alloc
                    &&& m1.conn_map@[k].peer_fwd_cnt == pkt.fwd_cnt as u64
                    &&& m1.conn_map@[k].buf_alloc == CONN_BUF_ALLOC
                    &&& m1.conn_map@[k].pending_reply == Some(PendingReply::Response)
                    &&& m1.conn_order@ == m0.conn_order@.push(k)
                    &&& m1.killq@ == m0.killq@
                    &&& m1.rst_queue@ == m0.rst_queue@
                    &&& m1.rev_index@ == m0.rev_index@.insert(m0.next_handle, k)
                    &&& m1.handle_index@ == m0.handle_index@.insert(k, m0.next_handle)
                    &&& m1.next_handle == m0.next_handle + 1
                    &&& met1 == VsockDeviceMetrics {
                        conns_added: bumped(met0.conns_added),
                        ..met0
                    }
                }
                &&& (m0.spec_routable(pkt) && pkt.op == VSOCK_OP_REQUEST && !m0.conn_map@.contains_key(k) && (m0.spec_route(pkt.dst_port) is None || m0.next_handle == u64::MAX)) ==> {
                    &&& r == TxOutcome::RejectedWithRst
                    &&& m1.conn_map@ == m0.conn_map@
                    &&& m1.conn_order@ == m0.conn_order@
                    &&& m1.killq@ == m0.killq@
                    &&& m1.rst_queue@.len() == m0.rst_queue@.len() + 1
                    &&& m1.rst_queue@.take(m0.rst_queue@.len() as int) == m0.rst_queue@
                    &&& Self::spec_is_rst_reply(
                        m1.rst_queue@.last(),
                        m0.cid,
                        pkt.src_port,
                        pkt.dst_port,
                    )
                    &&& met1 == met0
                }
                &&& (m0.spec_routable(pkt) && pkt.op == VSOCK_OP_REQUEST && m0.conn_map@.contains_key(k)) ==> (r == TxOutcome::Ignored && m1 == m0 && met1 == met0)
                &&& (m0.spec_routable(pkt) && pkt.op != VSOCK_OP_REQUEST && !m0.conn_map@.contains_key(k)) ==> {
                    &&& m1.conn_map@ == m0.conn_map@
                    &&& m1.conn_order@ == m0.conn_order@
                    &&& m1.killq@ == m0.killq@
                    &&& met1 == met0
                    &&& pkt.op == VSOCK_OP_RST ==> (r == TxOutcome::Ignored && m1.rst_queue@ == m0.rst_queue@)
                    &&& pkt.op != VSOCK_OP_RST ==> (r == TxOutcome::RejectedWithRst && m1.rst_queue@.len() == m0.rst_queue@.len() + 1 && m1.rst_queue@.take(m0.rst_queue@.len() as int) == m0.rst_queue@
                        && Self::spec_is_rst_reply(
                        m1.rst_queue@.last(),
                        m0.cid,
                        pkt.src_port,
                        pkt.dst_port,
                    ))
                }
                &&& (m0.spec_routable(pkt) && pkt.op != VSOCK_OP_REQUEST && m0.conn_map@.contains_key(k)) ==> ({
                    let c = m0.conn_map@[k];
                    &&& m1.rst_queue@ == m0.rst_queue@
                    &&& (pkt.op == VSOCK_OP_RW || pkt.op == VSOCK_OP_SHUTDOWN || pkt.op
                        == VSOCK_OP_RST || pkt.op == VSOCK_OP_CREDIT_UPDATE) ==> {
                        &&& r == TxOutcome::Delivered
                        &&& m0.conns_unchanged_except(m1, k)
                        &&& m1.conn_map@.contains_key(k)
                        &&& (c.is_active() && m1.conn_map@[k].is_closing()) ==> (m1.killq@ == m0.killq@.push(
                            KillQueueEntry { key: k, deadline: sat_add64(now, CONN_KILL_TIMEOUT) },
                        ) && met1 == VsockDeviceMetrics {
                            conns_killed: bumped(met0.conns_killed),
                            ..met0
                        })
                        &&& !(c.is_active() && m1.conn_map@[k].is_closing()) ==> (m1.killq@ == m0.killq@ && met1 == met0)
                        &&& pkt.op == VSOCK_OP_RST ==> (m1.conn_map@[k].state
                            == ConnState::Killed && m1.conn_map@[k].pending_reply
                            == None::<PendingReply>)
                        &&& (pkt.op == VSOCK_OP_SHUTDOWN && c.is_active() && pkt.flags
                            & crate::packet::VSOCK_FLAG_SHUTDOWN_RCV != 0 && pkt.flags
                            & crate::packet::VSOCK_FLAG_SHUTDOWN_SEND != 0) ==> m1.conn_map@[k].state == ConnState::PeerClosed
                        &&& (pkt.op == VSOCK_OP_RW && c.state == ConnState::Established
                            && c.spec_credit_ok(pkt.buf_alloc, pkt.fwd_cnt) && c.tx_pending@.len()
                            + pkt.payload@.len() <= c.buf_alloc as int) ==> ({
                            let combined = c.tx_pending@ + pkt.payload@;
                            let w = c.stream.spec_accepts(combined.len() as int);
                            &&& m1.conn_map@[k].state == ConnState::Established
                            &&& (c.stream is Echo ==> m1.conn_map@[k].stream.pending()
                                == c.stream.pending() + combined.take(w))
                            &&& m1.conn_map@[k].tx_pending@ == combined.skip(w)
                            &&& m1.conn_map@[k].fwd_cnt == sat_add64(c.fwd_cnt, w as u64)
                        })
                        &&& (pkt.op == VSOCK_OP_RW && c.state == ConnState::Established && !(
                        c.spec_credit_ok(pkt.buf_alloc, pkt.fwd_cnt) && c.tx_pending@.len()
                            + pkt.payload@.len() <= c.buf_alloc as int)) ==> (m1.conn_map@[k].state == ConnState::Killed && m1.conn_map@[k].pending_reply == Some(PendingReply::Rst))
                    }
                    &&& !(pkt.op == VSOCK_OP_RW || pkt.op == VSOCK_OP_SHUTDOWN || pkt.op
                        == VSOCK_OP_RST || pkt.op == VSOCK_OP_CREDIT_UPDATE) ==> (r
                        == TxOutcome::Ignored && m1 == m0 && met1
                        == met0)
                })
            }))
    }


    /// Every view of the muxer unchanged.
    pub open spec fn unchanged_view(self, o: Self) -> bool {
        &&& self.cid == o.cid
        &&& self.conn_map@ == o.conn_map@
        &&& self.conn_order@ == o.conn_order@
        &&& self.backends@ == o.backends@
        &&& self.default_backend == o.default_backend
        &&& self.killq@ == o.killq@
        &&& self.rst_queue@ == o.rst_queue@
        &&& self.rev_index@ == o.rev_index@
        &&& self.handle_index@ == o.handle_index@
        &&& self.next_handle == o.next_handle
    }

    /// Whether a connection has something to hand the guest: an owed
    /// control packet, or pending stream bytes under available credit.
    pub open spec fn spec_conn_ready(c: VsockConnection, max_len: u32) -> bool {
        c.pending_reply is Some || (c.state == ConnState::Established && c.spec_rx_chunk(max_len)
            > 0)
    }

    /// How one produced packet `p` and the connection afterwards (`c2`)
    /// relate to the connection before (`c`): owed resets and responses
    /// go out first, then an in-order data chunk bounded by credit.
    pub open spec fn spec_produced(
        c: VsockConnection,
        c2: VsockConnection,
        p: VsockPacket,
        cid: u64,
        max_len: u32,
    ) -> bool {
        &&& p.wf()
        &&& p.src_cid == VSOCK_HOST_CID
        &&& p.dst_cid == cid
        &&& p.src_port == c.peer_port
        &&& p.dst_port == c.local_port
        &&& c2.same_identity(c)
        &&& (c.pending_reply == Some(PendingReply::Rst) ==> p.op == VSOCK_OP_RST && c2.state
            == ConnState::Killed && (c2.pending_reply is None) && c2.same_credit(c))
        &&& (c.pending_reply == Some(PendingReply::Response) ==> p.op == VSOCK_OP_RESPONSE && (
        c2.pending_reply is None) && c2.same_credit(c) && c2.stream == c.stream && c2.state == (
        if c.state == ConnState::PeerInit {
            ConnState::Established
        } else {
            c.state
        }))
        &&& (c.pending_reply is None ==> ({
            let n = c.spec_rx_chunk(max_len);
            &&& p.op == VSOCK_OP_RW
            &&& p.len == n
            &&& p.payload@ == c.stream.pending().take(n)
            &&& p.buf_alloc == c.buf_alloc
            &&& p.fwd_cnt == c.fwd_cnt as u32
            &&& c2.rx_cnt == c.rx_cnt + n
            &&& c2.stream.pending() == c.stream.pending().skip(n)
            &&& c2.state == c.state
            &&& c2.tx_pending@ == c.tx_pending@
        }))
    }

    /// The full effect of asking the muxer for the next guest-bound
    /// packet: owed resets leave first, then the first ready connection
    /// in insertion order produces, and nothing else moves.
    pub open spec fn spec_rx_step(m0: Self, m1: Self, r: Option<VsockPacket>, max_len: u32) -> bool {
        &&& m1.wf()
        &&& m1.same_backends(m0)
        &&& m1.killq@ == m0.killq@
        &&& (m0.rst_queue@.len() > 0 ==> (r == Some(m0.rst_queue@[0]) && m1.rst_queue@
            == m0.rst_queue@.skip(1) && m1.conn_map@ == m0.conn_map@ && m1.conn_order@
            == m0.conn_order@))
        &&& ((m0.rst_queue@.len() == 0 && r is None) ==> (m1.unchanged_view(m0) && forall|i: int|
            #![auto]
            0 <= i < m0.conn_order@.len() ==> !Self::spec_conn_ready(
                m0.conn_map@[m0.conn_order@[i]],
                max_len,
            )))
        &&& ((m0.rst_queue@.len() == 0 && r is Some) ==> (r matches Some(p) && exists|i: int|
            #![trigger m0.conn_order@[i]]
            {
                let key = m0.conn_order@[i];
                let c = m0.conn_map@[key];
                &&& 0 <= i < m0.conn_order@.len()
                &&& (forall|j: int|
                    #![auto]
                    0 <= j < i ==> !Self::spec_conn_ready(
                        m0.conn_map@[m0.conn_order@[j]],
                        max_len,
                    ))
                &&& Self::spec_conn_ready(c, max_len)
                &&& Self::spec_produced(c, m1.conn_map@[key], p, m0.cid, max_len)
                &&& m0.conns_unchanged_except(m1, key)
                &&& m1.conn_map@.contains_key(key)
                &&& m1.rst_queue@ == m0.rst_queue@
            }))
    }

    /// Produce the next packet for the guest: an owed reset reply first,
    /// else the first ready connection in insertion order.
    pub fn recv_pkt(&mut self, max_len: u32) -> (r: Option<VsockPacket>)
        requires
            old(self).wf(),
        ensures
            Self::spec_rx_step(*old(self), *final(self), r, max_len),
    {
        if self.rst_queue.len() > 0 {
            let p = self.rst_queue.remove(0);
            proof {
                assert(self.rst_queue@ =~= old(self).rst_queue@.skip(1));
            }
            return Some(p);
        }
        let mut i: usize = 0;
        while i < self.conn_order.len()
            invariant
                i <= self.conn_order@.len(),
                self.wf(),
                self.conn_map@ == old(self).conn_map@,
                self.conn_order@ == old(self).conn_order@,
                self.killq@ == old(self).killq@,
                self.rst_queue@ == old(self).rst_queue@,
                self.rst_queue@.len() == 0,
                self.rev_index@ == old(self).rev_index@,
                self.handle_index@ == old(self).handle_index@,
                self.next_handle == old(self).next_handle,
                self.cid == old(self).cid,
                self.backends@ == old(self).backends@,
                self.default_backend == old(self).default_backend,
                forall|j: int|
                    #![auto]
                    0 <= j < i ==> !Self::spec_conn_ready(
                        old(self).conn_map@[old(self).conn_order@[j]],
                        max_len,
                    ),
            decreases self.conn_order@.len() - i,
        {
            let key = self.conn_order[i];
            let cid = self.cid;
            let mut conn = self.conn_map.remove(&key).unwrap();
            let ghost c0 = conn;
            let p = conn.produce_rx_packet(cid, max_len);
            let ghost c2 = conn;
            self.conn_map.insert(key, conn);
            proof {
                assert(self.conn_map@ =~= old(self).conn_map@.insert(key, c2));
            }
            match p {
                Some(pkt) => {
                    proof {
                        assert(Self::spec_conn_ready(c0, max_len));
                        assert(self.conn_map@.dom() =~= old(self).conn_map@.dom());
                        assert(self.conn_map@[key] == c2);
                        match c0.pending_reply {
                            Some(PendingReply::Rst) => {
                                assert(Self::spec_produced(c0, c2, pkt, cid, max_len));
                            },
                            Some(PendingReply::Response) => {
                                assert(Self::spec_produced(c0, c2, pkt, cid, max_len));
                            },
                            None => {
                                assert(Self::spec_produced(c0, c2, pkt, cid, max_len));
                            },
                        }
                        assert(Self::spec_produced(c0, self.conn_map@[key], pkt, cid, max_len));
                        assert forall|ki: int|
                            0 <= ki < self.killq@.len() implies self.conn_map@.contains_key(
                            (#[trigger] self.killq@[ki]).key,
                        ) && self.conn_map@[self.killq@[ki].key].is_closing() by {
                            if self.killq@[ki].key == key {
                                assert(c0.is_closing());
                            }
                        }
                        assert(self.wf());
                        let wi = i as int;
                        assert(({
                            let k2 = old(self).conn_order@[wi];
                            let c = old(self).conn_map@[k2];
                            &&& 0 <= wi < old(self).conn_order@.len()
                            &&& (forall|j: int|
                                #![auto]
                                0 <= j < wi ==> !Self::spec_conn_ready(
                                    old(self).conn_map@[old(self).conn_order@[j]],
                                    max_len,
                                ))
                            &&& Self::spec_conn_ready(c, max_len)
                            &&& Self::spec_produced(c, self.conn_map@[k2], pkt, old(self).cid, max_len)
                            &&& old(self).conns_unchanged_except(*self, k2)
                            &&& self.conn_map@.contains_key(k2)
                            &&& self.rst_queue@ == old(self).rst_queue@
                        }));
                    }
                    return Some(pkt);
                },
                None => {
                    proof {
                        assert(c2 == c0);
                        assert(self.conn_map@ =~= old(self).conn_map@);
                    }
                },
            }
            i = i + 1;
        }
        None
    }


    /// Whether some entry of the kill queue names `k` with a deadline at
    /// or before `now`.
    pub open spec fn spec_expired(q: Seq<KillQueueEntry>, k: u64, now: u64) -> bool {
        exists|j: int| 0 <= j < q.len() && (#[trigger] q[j]).key == k && q[j].deadline <= now
    }

    /// The full effect of a kill-queue resync at `now`: entries past
    /// their deadline leave the queue and take their connections with
    /// them; everything else stays put; the resync counter advances once
    /// and the removal counter only grows.
    pub open spec fn spec_sync_step(
        m0: Self,
        m1: Self,
        now: u64,
        met0: VsockDeviceMetrics,
        met1: VsockDeviceMetrics,
    ) -> bool {
        &&& m1.wf()
        &&& m1.same_backends(m0)
        &&& m1.rst_queue@ == m0.rst_queue@
        &&& forall|j: int|
            #![auto]
            0 <= j < m1.killq@.len() ==> m1.killq@[j].deadline > now && m0.killq@.contains(
                m1.killq@[j],
            )
        &&& forall|j: int|
            #![auto]
            0 <= j < m0.killq@.len() && m0.killq@[j].deadline > now ==> m1.killq@.contains(
                m0.killq@[j],
            )
        &&& forall|k: u64|
            #[trigger] m1.conn_map@.contains_key(k) <==> (m0.conn_map@.contains_key(k)
                && !Self::spec_expired(m0.killq@, k, now))
        &&& forall|k: u64|
            #[trigger] m1.conn_map@.contains_key(k) ==> m1.conn_map@[k] == m0.conn_map@[k]
        &&& forall|h: u64|
            #[trigger] m1.rev_index@.contains_key(h) <==> (m0.rev_index@.contains_key(h)
                && m1.conn_map@.contains_key(m0.rev_index@[h]))
        &&& met1 == VsockDeviceMetrics {
            killq_resync: bumped(met0.killq_resync),
            conns_removed: met1.conns_removed,
            ..met0
        }
        &&& met1.conns_removed >= met0.conns_removed
    }

    /// Resync the kill queue: purge every connection whose deadline has
    /// passed from the table and the queue; later deadlines stay.
    pub fn sync_killq(&mut self, now: u64, metrics: &mut VsockDeviceMetrics)
        requires
            old(self).wf(),
        ensures
            Self::spec_sync_step(*old(self), *final(self), now, *old(metrics), *final(metrics)),
    {
        bump(&mut metrics.killq_resync);
        let mut keep: Vec<KillQueueEntry> = Vec::new();
        let mut i: usize = 0;
        while i < self.killq.len()
            invariant
                i <= self.killq@.len(),
                self.killq@ == old(self).killq@,
                self.conn_order@ == old(self).conn_order@,
                self.rst_queue@ == old(self).rst_queue@,
                self.cid == old(self).cid,
                self.backends@ == old(self).backends@,
                self.default_backend == old(self).default_backend,
                old(self).wf(),
                forall|p: int|
                    #![auto]
                    0 <= p < keep@.len() ==> keep@[p].deadline > now && (exists|j: int|
                        0 <= j < i && old(self).killq@[j] == keep@[p]),
                forall|p: int, q: int|
                    0 <= p < q < keep@.len() ==> (#[trigger] keep@[p]).key != (
                    #[trigger] keep@[q]).key,
                forall|j: int|
                    #![auto]
                    0 <= j < i && old(self).killq@[j].deadline > now ==> keep@.contains(
                        old(self).killq@[j],
                    ),
                forall|k: u64|
                    #[trigger] self.conn_map@.contains_key(k) <==> (old(
                        self,
                    ).conn_map@.contains_key(k) && !(exists|j: int|
                        0 <= j < i && (#[trigger] old(self).killq@[j]).key == k && old(
                            self,
                        ).killq@[j].deadline <= now)),
                forall|k: u64|
                    #[trigger] self.conn_map@.contains_key(k) ==> self.conn_map@[k] == old(
                        self,
                    ).conn_map@[k],
                self.next_handle == old(self).next_handle,
                forall|k: u64|
                    #[trigger] self.handle_index@.contains_key(k) <==> self.conn_map@.contains_key(
                        k,
                    ),
                forall|k: u64| #[trigger]
                    self.handle_index@.contains_key(k) ==> self.handle_index@[k] == old(
                        self,
                    ).handle_index@[k],
                forall|h: u64|
                    #[trigger] self.rev_index@.contains_key(h) <==> (old(
                        self,
                    ).rev_index@.contains_key(h) && self.conn_map@.contains_key(
                        old(self).rev_index@[h],
                    )),
                forall|h: u64| #[trigger]
                    self.rev_index@.contains_key(h) ==> self.rev_index@[h] == old(
                        self,
                    ).rev_index@[h],
                *metrics == (VsockDeviceMetrics {
                    killq_resync: bumped(old(metrics).killq_resync),
                    conns_removed: metrics.conns_removed,
                    ..*old(metrics)
                }),
                metrics.conns_removed >= old(metrics).conns_removed,
            decreases self.killq@.len() - i,
        {
            let e = self.killq[i];
            if e.deadline <= now {
                proof {
                    assert forall|j: int| 0 <= j < i implies old(self).killq@[j].key != e.key by {
                        assert(old(self).killq@[j].key != old(self).killq@[i as int].key);
                    }
                    assert(self.conn_map@.contains_key(e.key));
                    assert(self.handle_index@.contains_key(e.key));
                }
                let ghost pre_rev = self.rev_index@;
                let ghost pre_hdl = self.handle_index@;
                let ghost pre_map = self.conn_map@;
                let h = match self.handle_index.get(&e.key) {
                    Some(h) => *h,
                    None => 0,
                };
                proof {
                    assert(h == old(self).handle_index@[e.key]);
                    assert(old(self).conn_map@.contains_key(e.key));
                    assert(old(self).handle_index@.contains_key(e.key));
                    assert(old(self).rev_index@.contains_key(h) && old(self).rev_index@[h]
                        == e.key);
                }
                self.rev_index.remove(&h);
                self.handle_index.remove(&e.key);
                self.conn_map.remove(&e.key);
                bump(&mut metrics.conns_removed);
                proof {
                    assert forall|h2: u64| #[trigger]
                        self.rev_index@.contains_key(h2) implies (old(
                        self,
                    ).rev_index@.contains_key(h2) && self.conn_map@.contains_key(
                        old(self).rev_index@[h2],
                    )) by {
                        assert(pre_rev.contains_key(h2) && h2 != h);
                        let k2 = old(self).rev_index@[h2];
                        if k2 == e.key {
                            assert(old(self).handle_index@[k2] == h2);
                        }
                        assert(k2 != e.key);
                        assert(pre_map.contains_key(k2));
                    }
                    assert forall|h2: u64|
                        (old(self).rev_index@.contains_key(h2) && self.conn_map@.contains_key(
                            old(self).rev_index@[h2],
                        )) implies #[trigger] self.rev_index@.contains_key(h2) by {
                        let k2 = old(self).rev_index@[h2];
                        assert(k2 != e.key);
                        assert(pre_map.contains_key(k2));
                        assert(pre_rev.contains_key(h2));
                        assert(old(self).handle_index@[old(self).rev_index@[h]] == h);
                        assert(h2 != h);
                    }
                }
            } else {
                proof {
                    assert forall|p: int| 0 <= p < keep@.len() implies keep@[p].key != e.key by {
                        let jw = choose|jw: int| 0 <= jw < i && old(self).killq@[jw] == keep@[p];
                        assert(old(self).killq@[jw].key != old(self).killq@[i as int].key);
                    }
                }
                let ghost keep0 = keep@;
                keep.push(e);
                proof {
                    assert forall|j: int|
                        #![auto]
                        0 <= j < i + 1 && old(self).killq@[j].deadline > now implies keep@.contains(
                        old(self).killq@[j],
                    ) by {
                        if j < i {
                            let p = choose|p: int|
                                0 <= p < keep0.len() && keep0[p] == old(self).killq@[j];
                            assert(keep@[p] == old(self).killq@[j]);
                        } else {
                            assert(keep@[keep@.len() - 1] == old(self).killq@[j]);
                        }
                    }
                }
            }
            i = i + 1;
        }
        self.killq = keep;
        let ghost m1 = self.conn_map@;
        let mut new_order: Vec<u64> = Vec::new();
        let mut j: usize = 0;
        while j < self.conn_order.len()
            invariant
                j <= self.conn_order@.len(),
                self.conn_map@ == m1,
                self.conn_order@ == old(self).conn_order@,
                old(self).wf(),
                new_order@.no_duplicates(),
                forall|p: int|
                    #![auto]
                    0 <= p < new_order@.len() ==> m1.contains_key(new_order@[p]) && (exists|l: int|
                        0 <= l < j && old(self).conn_order@[l] == new_order@[p]),
                forall|l: int|
                    #![auto]
                    0 <= l < j && m1.contains_key(old(self).conn_order@[l]) ==> new_order@.contains(
                        old(self).conn_order@[l],
                    ),
            decreases self.conn_order@.len() - j,
        {
            let k = self.conn_order[j];
            if self.conn_map.contains_key(&k) {
                proof {
                    assert forall|p: int| 0 <= p < new_order@.len() implies new_order@[p] != k by {
                        let l = choose|l: int|
                            0 <= l < j && old(self).conn_order@[l] == new_order@[p];
                        assert(old(self).conn_order@[l] != old(self).conn_order@[j as int]);
                    }
                }
                let ghost ord0 = new_order@;
                new_order.push(k);
                proof {
                    assert forall|l: int|
                        #![auto]
                        0 <= l < j + 1 && m1.contains_key(
                            old(self).conn_order@[l],
                        ) implies new_order@.contains(old(self).conn_order@[l]) by {
                        if l < j {
                            let p = choose|p: int|
                                0 <= p < ord0.len() && ord0[p] == old(self).conn_order@[l];
                            assert(new_order@[p] == old(self).conn_order@[l]);
                        } else {
                            assert(new_order@[new_order@.len() - 1] == old(self).conn_order@[l]);
                        }
                    }
                }
            }
            j = j + 1;
        }
        self.conn_order = new_order;
        proof {
            assert forall|k: u64| #[trigger]
                self.conn_map@.contains_key(k) implies self.conn_order@.contains(k) by {
                assert(old(self).conn_map@.contains_key(k));
                let l = choose|l: int|
                    0 <= l < old(self).conn_order@.len() && old(self).conn_order@[l] == k;
                assert(m1.contains_key(old(self).conn_order@[l]));
            }
            assert forall|h2: u64| #[trigger]
                self.rev_index@.contains_key(h2) implies (self.conn_map@.contains_key(
                self.rev_index@[h2],
            ) && self.handle_index@.contains_key(self.rev_index@[h2])
                && self.handle_index@[self.rev_index@[h2]] == h2) by {
                assert(old(self).rev_index@.contains_key(h2));
                let k2 = old(self).rev_index@[h2];
                assert(self.rev_index@[h2] == k2);
                assert(self.conn_map@.contains_key(k2));
                assert(self.handle_index@.contains_key(k2));
                assert(old(self).handle_index@[k2] == h2);
            }
            assert forall|k2: u64| #[trigger]
                self.handle_index@.contains_key(k2) implies (self.handle_index@[k2]
                < self.next_handle && self.rev_index@.contains_key(self.handle_index@[k2])
                && self.rev_index@[self.handle_index@[k2]] == k2) by {
                assert(self.conn_map@.contains_key(k2));
                assert(old(self).conn_map@.contains_key(k2));
                assert(old(self).handle_index@.contains_key(k2));
                let h2 = old(self).handle_index@[k2];
                assert(self.handle_index@[k2] == h2);
                assert(old(self).rev_index@.contains_key(h2) && old(self).rev_index@[h2] == k2);
                assert(self.rev_index@.contains_key(h2));
            }
            assert forall|ki: int|
                0 <= ki < self.killq@.len() implies self.conn_map@.contains_key(
                (#[trigger] self.killq@[ki]).key,
            ) && self.conn_map@[self.killq@[ki].key].is_closing() by {
                let e = self.killq@[ki];
                assert(e.deadline > now && (exists|jx: int|
                    0 <= jx < old(self).killq@.len() && old(self).killq@[jx] == e));
                let jx = choose|jx: int| 0 <= jx < old(self).killq@.len() && old(self).killq@[jx]
                    == e;
                assert(old(self).conn_map@.contains_key(e.key));
                assert(old(self).conn_map@[e.key].is_closing());
                if Self::spec_expired(old(self).killq@, e.key, now) {
                    let j2 = choose|j2: int|
                        0 <= j2 < old(self).killq@.len() && (#[trigger] old(
                            self,
                        ).killq@[j2]).key == e.key && old(self).killq@[j2].deadline <= now;
                    assert(j2 == jx);
                }
            }
        }
    }

    /// A transport reported an I/O failure or end-of-file for this
    /// connection's stream: the connection degrades to the closing path,
    /// owes the guest a reset, and is scheduled on the kill queue.
    pub fn backend_failed(
        &mut self,
        local_port: u32,
        peer_port: u32,
        now: u64,
        metrics: &mut VsockDeviceMetrics,
    )
        requires
            old(self).wf(),
        ensures
            final(self).wf(),
            final(self).same_backends(*old(self)),
            final(self).rst_queue@ == old(self).rst_queue@,
            ({
                let k = spec_conn_key(local_port, peer_port);
                &&& (old(self).conn_map@.contains_key(k) && old(self).conn_map@[k].is_active())
                    ==> {
                    &&& old(self).conns_unchanged_except(*final(self), k)
                    &&& final(self).conn_map@[k].state == ConnState::LocalClosed
                    &&& final(self).conn_map@[k].pending_reply == Some(PendingReply::Rst)
                    &&& final(self).killq@ == old(self).killq@.push(
                        KillQueueEntry { key: k, deadline: sat_add64(now, CONN_KILL_TIMEOUT) },
                    )
                    &&& *final(metrics) == VsockDeviceMetrics {
                        conns_killed: bumped(old(metrics).conns_killed),
                        ..*old(metrics)
                    }
                }
                &&& !(old(self).conn_map@.contains_key(k) && old(self).conn_map@[k].is_active())
                    ==> (final(self).unchanged_view(*old(self)) && *final(metrics) == *old(
                    metrics,
                ))
            }),
    {
        let key = conn_key(local_port, peer_port);
        if !self.conn_map.contains_key(&key) {
            return ;
        }
        let mut conn = self.conn_map.remove(&key).unwrap();
        let active = match conn.state {
            ConnState::PeerInit => true,
            ConnState::Established => true,
            _ => false,
        };
        if !active {
            self.conn_map.insert(key, conn);
            proof {
                assert(self.conn_map@ =~= old(self).conn_map@);
            }
            return ;
        }
        conn.backend_error();
        self.conn_map.insert(key, conn);
        proof {
            assert(self.conn_map@.dom() =~= old(self).conn_map@.dom());
        }
        self.killq.push(KillQueueEntry { key, deadline: crate::connection::sat_add(now, CONN_KILL_TIMEOUT) });
        bump(&mut metrics.conns_killed);
    }

    /// A transport reported room for more bytes: retry flushing the
    /// connection's buffered guest bytes into its stream.
    pub fn backend_ready(&mut self, local_port: u32, peer_port: u32)
        requires
            old(self).wf(),
        ensures
            final(self).wf(),
            final(self).same_backends(*old(self)),
            final(self).killq@ == old(self).killq@,
            final(self).rst_queue@ == old(self).rst_queue@,
            ({
                let k = spec_conn_key(local_port, peer_port);
                &&& old(self).conn_map@.contains_key(k) ==> ({
                    let c = old(self).conn_map@[k];
                    let w = c.stream.spec_accepts(c.tx_pending@.len() as int);
                    &&& old(self).conns_unchanged_except(*final(self), k)
                    &&& final(self).conn_map@.contains_key(k)
                    &&& (c.is_active() ==> {
                        &&& final(self).conn_map@[k].tx_pending@ == c.tx_pending@.skip(w)
                        &&& (c.stream is Echo ==> final(self).conn_map@[k].stream.pending()
                            == c.stream.pending() + c.tx_pending@.take(w))
                        &&& final(self).conn_map@[k].fwd_cnt == sat_add64(c.fwd_cnt, w as u64)
                        &&& final(self).conn_map@[k].state == c.state
                    })
                    &&& (!c.is_active() ==> final(self).conn_map@[k] == c)
                })
                &&& !old(self).conn_map@.contains_key(k) ==> final(self).unchanged_view(*old(self))
            }),
    {
        let key = conn_key(local_port, peer_port);
        if !self.conn_map.contains_key(&key) {
            return ;
        }
        let mut conn = self.conn_map.remove(&key).unwrap();
        let ghost c0 = conn;
        conn.flush_tx();
        self.conn_map.insert(key, conn);
        proof {
            assert(self.conn_map@.dom() =~= old(self).conn_map@.dom());
            assert forall|h2: u64| #[trigger]
                self.rev_index@.contains_key(h2) implies (self.conn_map@.contains_key(
                self.rev_index@[h2],
            ) && self.handle_index@.contains_key(self.rev_index@[h2])
                && self.handle_index@[self.rev_index@[h2]] == h2) by {
                assert(old(self).rev_index@.contains_key(h2));
                let k2 = old(self).rev_index@[h2];
                assert(self.rev_index@[h2] == k2);
                assert(self.conn_map@.contains_key(k2));
                assert(self.handle_index@.contains_key(k2));
                assert(old(self).handle_index@[k2] == h2);
            }
            assert forall|k2: u64| #[trigger]
                self.handle_index@.contains_key(k2) implies (self.handle_index@[k2]
                < self.next_handle && self.rev_index@.contains_key(self.handle_index@[k2])
                && self.rev_index@[self.handle_index@[k2]] == k2) by {
                assert(self.conn_map@.contains_key(k2));
                assert(old(self).conn_map@.contains_key(k2));
                assert(old(self).handle_index@.contains_key(k2));
                let h2 = old(self).handle_index@[k2];
                assert(self.handle_index@[k2] == h2);
                assert(old(self).rev_index@.contains_key(h2) && old(self).rev_index@[h2] == k2);
                assert(self.rev_index@.contains_key(h2));
            }
            assert forall|ki: int|
                0 <= ki < self.killq@.len() implies self.conn_map@.contains_key(
                (#[trigger] self.killq@[ki]).key,
            ) && self.conn_map@[self.killq@[ki].key].is_closing() by {
                if self.killq@[ki].key == key {
                    assert(c0.is_closing());
                }
            }
        }
    }

    /// The port pair registered for a pollable backend handle: O(1)
    /// dispatch from an epoll event to its connection. A handle in the
    /// reverse index always resolves to a live table entry.
    pub fn conn_for_handle(&self, handle: u64) -> (r: Option<(u32, u32)>)
        requires
            self.wf(),
        ensures
            match r {
                Some(ports) => {
                    &&& self.rev_index@.contains_key(handle)
                    &&& self.conn_map@.contains_key(self.rev_index@[handle])
                    &&& ports.0 == self.conn_map@[self.rev_index@[handle]].local_port
                    &&& ports.1 == self.conn_map@[self.rev_index@[handle]].peer_port
                },
                None => !self.rev_index@.contains_key(handle),
            },
    {
        match self.rev_index.get(&handle) {
            Some(k) => {
                match self.conn_map.get(k) {
                    Some(c) => Some((c.local_port, c.peer_port)),
                    None => None,
                }
            },
            None => None,
        }
    }

    /// Feed one guest packet in. A connection request for a new key
    /// either creates exactly one connection (when a backend routes its
    /// destination port) or is answered with a deterministic reset; a
    /// packet for a live connection is handed to it; a packet for an
    /// unknown connection is answered with a reset (a stray reset is
    /// dropped). A connection pushed onto the closing path by this packet
    /// is scheduled on the kill queue, once, with the deadline
    /// `now + CONN_KILL_TIMEOUT`.
    pub fn send_pkt(
        &mut self,
        pkt: &VsockPacket,
        now: u64,
        metrics: &mut VsockDeviceMetrics,
    ) -> (r: TxOutcome)
        requires
            old(self).wf(),
            pkt.wf(),
        ensures
            Self::spec_tx_step(
                *old(self),
                *final(self),
                *pkt,
                now,
                *old(metrics),
                *final(metrics),
                r,
            ),
    {
        let routable = pkt.src_cid == self.cid && pkt.dst_cid == VSOCK_HOST_CID && pkt.pkt_type
            == VSOCK_TYPE_STREAM;
        if !routable {
            return TxOutcome::Ignored;
        }
        let key = conn_key(pkt.src_port, pkt.dst_port);
        let present = self.conn_map.contains_key(&key);
        if pkt.op == VSOCK_OP_REQUEST {
            if present {
                return TxOutcome::Ignored;
            }
            let routed = self.route(pkt.dst_port);
            if let Some(b) = routed {
                if self.next_handle < u64::MAX {

                    let stream = b.connect(pkt.dst_port);
                    let conn = VsockConnection::new(
                        pkt.src_port,
                        pkt.dst_port,
                        stream,
                        CONN_BUF_ALLOC,
                        pkt.buf_alloc,
                        pkt.fwd_cnt,
                    );
                    proof {
                        if old(self).conn_order@.contains(key) {
                            let i = choose|i: int|
                                0 <= i < old(self).conn_order@.len() && old(self).conn_order@[i]
                                    == key;
                            assert(old(self).conn_map@.contains_key(key));
                        }
                        assert forall|h: u64| #[trigger]
                            old(self).rev_index@.contains_key(h) implies h < old(
                            self,
                        ).next_handle by {
                            assert(old(self).handle_index@[old(self).rev_index@[h]] == h);
                        }
                    }
                    let handle = self.next_handle;
                    self.next_handle = self.next_handle + 1;
                    self.conn_map.insert(key, conn);
                    self.conn_order.push(key);
                    self.rev_index.insert(handle, key);
                    self.handle_index.insert(key, handle);
                    bump(&mut metrics.conns_added);
                    proof {
                        let new_order = self.conn_order@;
                        let prev = old(self).conn_order@;
                        assert(new_order == prev.push(key));
                        assert(new_order[new_order.len() - 1] == key);
                        assert forall|k2: u64| #[trigger]
                            self.conn_map@.contains_key(k2) implies new_order.contains(k2) by {
                            if k2 == key {
                                assert(new_order[new_order.len() - 1] == k2);
                            } else {
                                let i = choose|i: int| 0 <= i < prev.len() && prev[i] == k2;
                                assert(new_order[i] == k2);
                            }
                        }
                        assert forall|p: int, q: int|
                            0 <= p < q < new_order.len() implies new_order[p] != new_order[q] by {
                            if q == new_order.len() - 1 {
                                assert(prev[p] == new_order[p]);
                                assert(prev.contains(new_order[p]));
                            }
                        }
                    }
                    return TxOutcome::CreatedConnection;
                }
            }
            let rst = VsockPacket::control(
                VSOCK_HOST_CID,
                self.cid,
                pkt.dst_port,
                pkt.src_port,
                VSOCK_OP_RST,
                0,
                0,
                0,
            );
            self.rst_queue.push(rst);
            proof {
                assert(self.rst_queue@.take(old(self).rst_queue@.len() as int) =~= old(
                    self,
                ).rst_queue@);
            }
            TxOutcome::RejectedWithRst
        } else if present {
            let deliverable = pkt.op == VSOCK_OP_RW || pkt.op == VSOCK_OP_SHUTDOWN || pkt.op
                == VSOCK_OP_RST || pkt.op == VSOCK_OP_CREDIT_UPDATE;
            if !deliverable {
                return TxOutcome::Ignored;
            }
            let mut conn = self.conn_map.remove(&key).unwrap();
            let was_active = match conn.state {
                ConnState::PeerInit => true,
                ConnState::Established => true,
                _ => false,
            };
            if pkt.op == VSOCK_OP_RW {
                conn.handle_rw(&pkt.payload, pkt.buf_alloc, pkt.fwd_cnt);
            } else if pkt.op == VSOCK_OP_SHUTDOWN {
                conn.handle_shutdown(pkt.flags);
            } else if pkt.op == VSOCK_OP_RST {
                conn.handle_rst();
            } else {
                conn.handle_credit_update(pkt.buf_alloc, pkt.fwd_cnt);
            }
            let closing = match conn.state {
                ConnState::PeerInit => false,
                ConnState::Established => false,
                _ => true,
            };
            self.conn_map.insert(key, conn);
            proof {
                assert(self.conn_map@.dom() =~= old(self).conn_map@.dom());
            }
            if was_active && closing {
                self.killq.push(
                    KillQueueEntry { key, deadline: crate::connection::sat_add(now, CONN_KILL_TIMEOUT) },
                );
                bump(&mut metrics.conns_killed);
            }
            TxOutcome::Delivered
        } else {
            if pkt.op == VSOCK_OP_RST {
                return TxOutcome::Ignored;
            }
            let rst = VsockPacket::control(
                VSOCK_HOST_CID,
                self.cid,
                pkt.dst_port,
                pkt.src_port,
                VSOCK_OP_RST,
                0,
                0,
                0,
            );
            self.rst_queue.push(rst);
            proof {
                assert(self.rst_queue@.take(old(self).rst_queue@.len() as int) =~= old(
                    self,
                ).rst_queue@);
            }
            TxOutcome::RejectedWithRst
        }
    }
}


/// Connection requests route deterministically: a request for a key not
/// in the table either creates exactly that one connection (when a
/// backend serves the destination port) or leaves the table untouched
/// and queues a deterministic reset reply (when none does). The table,
/// being a map, never holds a key twice.
pub proof fn lemma_request_creates_or_resets(
    m0: VsockMuxer,
    m1: VsockMuxer,
    pkt: VsockPacket,
    now: u64,
    met0: VsockDeviceMetrics,
    met1: VsockDeviceMetrics,
    r: TxOutcome,
)
    requires
        VsockMuxer::spec_tx_step(m0, m1, pkt, now, met0, met1, r),
        m0.spec_routable(pkt),
        pkt.op == VSOCK_OP_REQUEST,
        !m0.conn_map@.contains_key(spec_conn_key(pkt.src_port, pkt.dst_port)),
        m0.next_handle < u64::MAX,
    ensures
        m0.spec_route(pkt.dst_port) is Some ==> ({
            let k = spec_conn_key(pkt.src_port, pkt.dst_port);
            &&& r == TxOutcome::CreatedConnection
            &&& m1.conn_map@.dom() == m0.conn_map@.dom().insert(k)
            &&& m1.conn_map@[k].state == ConnState::PeerInit
            &&& m1.rst_queue@ == m0.rst_queue@
        }),
        m0.spec_route(pkt.dst_port) is None ==> ({
            &&& r == TxOutcome::RejectedWithRst
            &&& m1.conn_map@ == m0.conn_map@
            &&& m1.rst_queue@.len() == m0.rst_queue@.len() + 1
            &&& VsockMuxer::spec_is_rst_reply(
                m1.rst_queue@.last(),
                m0.cid,
                pkt.src_port,
                pkt.dst_port,
            )
        }),
{
}

/// Deferred teardown: a connection scheduled on the kill queue stays in
/// the table and answerable until its deadline passes, and is gone from
/// the table strictly after a resync once the deadline has elapsed.
pub proof fn lemma_kill_queue_deadline(
    m0: VsockMuxer,
    m1: VsockMuxer,
    now: u64,
    met0: VsockDeviceMetrics,
    met1: VsockDeviceMetrics,
    i: int,
)
    requires
        m0.wf(),
        VsockMuxer::spec_sync_step(m0, m1, now, met0, met1),
        0 <= i < m0.killq@.len(),
    ensures
        m0.killq@[i].deadline <= now ==> !m1.conn_map@.contains_key(m0.killq@[i].key),
        m0.killq@[i].deadline > now ==> (m1.conn_map@.contains_key(m0.killq@[i].key)
            && m1.conn_map@[m0.killq@[i].key] == m0.conn_map@[m0.killq@[i].key]
            && m1.killq@.contains(m0.killq@[i])),
{
    let k = m0.killq@[i].key;
    if m0.killq@[i].deadline <= now {
        assert(VsockMuxer::spec_expired(m0.killq@, k, now));
        assert(!m1.conn_map@.contains_key(k));
    } else {
        assert(m0.conn_map@.contains_key(k));
        if VsockMuxer::spec_expired(m0.killq@, k, now) {
            let j = choose|j: int|
                0 <= j < m0.killq@.len() && (#[trigger] m0.killq@[j]).key == k
                    && m0.killq@[j].deadline <= now;
            assert(j != i);
            assert(false);
        }
        assert(m1.conn_map@.contains_key(k));
    }
}

} // verus!
