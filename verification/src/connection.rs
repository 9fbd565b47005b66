//! The per-connection state machine.
//!
//! One instance per logical vsock stream, keyed by the (guest port, host
//! port) pair. It converts between backend byte streams and discrete
//! vsock packets while enforcing credit-based flow control: the
//! connection never emits more bytes to the guest than the guest's
//! declared buffer allocation permits, and never accepts more bytes from
//! the guest than its own declared allocation permits — a violation of
//! either rule forces an immediate reset rather than a silent drop.

use vstd::prelude::*;

use crate::backend::VsockStream;
use crate::packet::VsockPacket;
use crate::packet::VSOCK_FLAG_SHUTDOWN_RCV;
use crate::packet::VSOCK_FLAG_SHUTDOWN_SEND;
use crate::packet::VSOCK_OP_RESPONSE;
use crate::packet::VSOCK_OP_RST;
use crate::packet::VSOCK_OP_RW;
use crate::packet::VSOCK_TYPE_STREAM;

verus! {

broadcast use vstd::std_specs::vec::axiom_spec_len;

/// The well-known context id of the host side of every connection.
pub const VSOCK_HOST_CID: u64 = 2;

/// Lifecycle of a connection.
#[derive(Clone, Copy, Debug, PartialEq, Eq, Structural)]
pub enum ConnState {
    /// The guest requested the connection; the response is not out yet.
    PeerInit,
    /// Bidirectional forwarding is active.
    Established,
    /// The guest shut its side down.
    PeerClosed,
    /// The host side (backend) shut the connection down.
    LocalClosed,
    /// Terminal: awaiting removal from the connection table.
    Killed,
}

/// A control packet the connection owes the guest.
#[derive(Clone, Copy, Debug, PartialEq, Eq, Structural)]
pub enum PendingReply {
    /// Acknowledge the connection request.
    Response,
    /// Reset the connection.
    Rst,
}

/// Saturating addition on a monotonic byte counter.
pub open spec fn sat_add64(a: u64, b: u64) -> u64 {
    if a + b > u64::MAX {
        u64::MAX
    } else {
        (a + b) as u64
    }
}

/// Saturating addition on a monotonic byte counter.
pub fn sat_add(a: u64, b: u64) -> (r: u64)
    ensures
        r == sat_add64(a, b),
{
    if a <= u64::MAX - b {
        a + b
    } else {
        u64::MAX
    }
}

/// One logical vsock stream between a guest port and a host port.
#[derive(Clone, Debug)]
pub struct VsockConnection {
    /// Guest-side port of the key.
    pub local_port: u32,
    /// Host-side port of the key.
    pub peer_port: u32,
    /// Lifecycle state.
    pub state: ConnState,
    /// The backend stream this connection exclusively owns.
    pub stream: VsockStream,
    /// Receive-buffer allocation this device declares to the guest.
    pub buf_alloc: u32,
    /// Bytes accepted from the guest and flushed into the stream.
    pub fwd_cnt: u64,
    /// The guest's declared receive-buffer allocation.
    pub peer_buf_alloc: u32,
    /// The guest's forward count: bytes it has consumed from us.
    pub peer_fwd_cnt: u64,
    /// Bytes this connection has forwarded to the guest.
    pub rx_cnt: u64,
    /// Bytes accepted from the guest but not yet flushed into the stream.
    pub tx_pending: Vec<u8>,
    /// A control packet owed to the guest, sent before any data.
    pub pending_reply: Option<PendingReply>,
}

impl VsockConnection {
    /// Internal invariant. The flow-control clause is the heart of it:
    /// the bytes in flight towards the guest (forwarded but not yet
    /// consumed) never exceed the guest's declared buffer allocation.
    pub open spec fn wf(self) -> bool {
        &&& self.stream.wf()
        &&& self.peer_fwd_cnt <= self.rx_cnt
        &&& self.rx_cnt - self.peer_fwd_cnt <= self.peer_buf_alloc as u64
        &&& self.peer_fwd_cnt <= u32::MAX as u64
        &&& self.tx_pending@.len() <= self.buf_alloc as int
    }

    /// Bytes the guest can still absorb: its allocation minus what is in
    /// flight.
    pub open spec fn credit_avail(self) -> int {
        self.peer_buf_alloc as int + self.peer_fwd_cnt as int - self.rx_cnt as int
    }

    /// A connection still carrying traffic.
    pub open spec fn is_active(self) -> bool {
        self.state == ConnState::PeerInit || self.state == ConnState::Established
    }

    /// A connection on the closing path: it only finalizes cleanup and
    /// never resumes traffic.
    pub open spec fn is_closing(self) -> bool {
        !self.is_active()
    }

    /// Whether a flow-control advertisement from the guest is consistent
    /// with what this connection has sent: the guest cannot take back
    /// consumed bytes, cannot claim bytes never sent, and cannot shrink
    /// its allocation below what is already in flight.
    pub open spec fn spec_credit_ok(self, alloc: u32, fwd: u32) -> bool {
        &&& self.peer_fwd_cnt <= fwd as u64
        &&& fwd as u64 <= self.rx_cnt
        &&& self.rx_cnt - fwd as u64 <= alloc as u64
    }

    /// Ports and local allocation never change over a connection's life.
    pub open spec fn same_identity(self, o: Self) -> bool {
        &&& self.local_port == o.local_port
        &&& self.peer_port == o.peer_port
        &&& self.buf_alloc == o.buf_alloc
    }

    /// All flow-control counters unchanged.
    pub open spec fn same_credit(self, o: Self) -> bool {
        &&& self.fwd_cnt == o.fwd_cnt
        &&& self.peer_buf_alloc == o.peer_buf_alloc
        &&& self.peer_fwd_cnt == o.peer_fwd_cnt
        &&& self.rx_cnt == o.rx_cnt
    }

    /// The size of the next data chunk towards the guest: bounded by the
    /// available credit, the queue buffer space, and what the stream has.
    pub open spec fn spec_rx_chunk(self, max_len: u32) -> int {
        let credit = self.credit_avail();
        let cap = if credit <= max_len as int {
            credit
        } else {
            max_len as int
        };
        if self.stream.pending().len() <= cap {
            self.stream.pending().len() as int
        } else {
            cap
        }
    }

    /// Open a connection for a guest request: the stream is freshly
    /// connected, the guest's flow-control declaration is taken over, and
    /// a response is owed.
    pub fn new(
        local_port: u32,
        peer_port: u32,
        stream: VsockStream,
        buf_alloc: u32,
        peer_buf_alloc: u32,
        peer_fwd_cnt: u32,
    ) -> (r: Self)
        requires
            stream.wf(),
        ensures
            r.wf(),
            r.local_port == local_port,
            r.peer_port == peer_port,
            r.state == ConnState::PeerInit,
            r.stream == stream,
            r.buf_alloc == buf_alloc,
            r.fwd_cnt == 0,
            r.peer_buf_alloc == peer_buf_alloc,
            r.peer_fwd_cnt == peer_fwd_cnt as u64,
            r.rx_cnt == peer_fwd_cnt as u64,
            r.tx_pending@.len() == 0,
            r.pending_reply == Some(PendingReply::Response),
    {
        VsockConnection {
            local_port,
            peer_port,
            state: ConnState::PeerInit,
            stream,
            buf_alloc,
            fwd_cnt: 0,
            peer_buf_alloc,
            peer_fwd_cnt: peer_fwd_cnt as u64,
            rx_cnt: peer_fwd_cnt as u64,
            tx_pending: Vec::new(),
            pending_reply: Some(PendingReply::Response),
        }
    }

    /// Force the connection onto the terminal path, optionally owing the
    /// guest a reset first.
    pub fn kill(&mut self, send_rst: bool)
        requires
            old(self).wf(),
        ensures
            final(self).wf(),
            final(self).state == ConnState::Killed,
            final(self).pending_reply == if send_rst {
                Some(PendingReply::Rst)
            } else {
                None::<PendingReply>
            },
            final(self).same_identity(*old(self)),
            final(self).same_credit(*old(self)),
            final(self).stream == old(self).stream,
            final(self).tx_pending@ == old(self).tx_pending@,
    {
        self.state = ConnState::Killed;
        self.pending_reply = if send_rst {
            Some(PendingReply::Rst)
        } else {
            None
        };
    }

    /// The guest reset the connection: terminal at once, nothing owed.
    pub fn handle_rst(&mut self)
        requires
            old(self).wf(),
        ensures
            final(self).wf(),
            final(self).state == ConnState::Killed,
            final(self).pending_reply == None::<PendingReply>,
            final(self).same_identity(*old(self)),
            final(self).same_credit(*old(self)),
            final(self).stream == old(self).stream,
            final(self).tx_pending@ == old(self).tx_pending@,
    {
        self.state = ConnState::Killed;
        self.pending_reply = None;
    }

    /// The guest shut the connection down. Only a full shutdown (both
    /// directions) closes the connection; the stream is shut with it, and
    /// bytes it already holds stay deliverable.
    pub fn handle_shutdown(&mut self, flags: u32)
        requires
            old(self).wf(),
        ensures
            final(self).wf(),
            (old(self).is_active() && flags & VSOCK_FLAG_SHUTDOWN_RCV != 0 && flags
                & VSOCK_FLAG_SHUTDOWN_SEND != 0) ==> {
                &&& final(self).state == ConnState::PeerClosed
                &&& final(self).stream.is_shut()
                &&& final(self).stream.pending() == old(self).stream.pending()
                &&& final(self).same_identity(*old(self))
                &&& final(self).same_credit(*old(self))
                &&& final(self).tx_pending@ == old(self).tx_pending@
                &&& final(self).pending_reply == old(self).pending_reply
            },
            !(old(self).is_active() && flags & VSOCK_FLAG_SHUTDOWN_RCV != 0 && flags
                & VSOCK_FLAG_SHUTDOWN_SEND != 0) ==> *final(self) == *old(self),
    {
        let full = flags & VSOCK_FLAG_SHUTDOWN_RCV != 0 && flags & VSOCK_FLAG_SHUTDOWN_SEND != 0;
        let active = match self.state {
            ConnState::PeerInit => true,
            ConnState::Established => true,
            _ => false,
        };
        if full && active {
            self.state = ConnState::PeerClosed;
            self.stream.shutdown();
        }
    }

    /// The backend reported an I/O failure or EOF on this stream: degrade
    /// to the closing path and owe the guest a reset.
    pub fn backend_error(&mut self)
        requires
            old(self).wf(),
        ensures
            final(self).wf(),
            final(self).state == ConnState::LocalClosed,
            final(self).pending_reply == Some(PendingReply::Rst),
            final(self).stream.is_shut(),
            final(self).same_identity(*old(self)),
            final(self).same_credit(*old(self)),
            final(self).tx_pending@ == old(self).tx_pending@,
    {
        self.state = ConnState::LocalClosed;
        self.stream.shutdown();
        self.pending_reply = Some(PendingReply::Rst);
    }

    /// Take over a flow-control advertisement. An inconsistent one (see
    /// `spec_credit_ok`) is a protocol violation and forces a reset.
    pub fn handle_credit_update(&mut self, alloc: u32, fwd: u32)
        requires
            old(self).wf(),
        ensures
            final(self).wf(),
            !old(self).is_active() ==> *final(self) == *old(self),
            (old(self).is_active() && old(self).spec_credit_ok(alloc, fwd)) ==> {
                &&& final(self).peer_buf_alloc == alloc
                &&& final(self).peer_fwd_cnt == fwd as u64
                &&& final(self).state == old(self).state
                &&& final(self).rx_cnt == old(self).rx_cnt
                &&& final(self).fwd_cnt == old(self).fwd_cnt
                &&& final(self).stream == old(self).stream
                &&& final(self).tx_pending@ == old(self).tx_pending@
                &&& final(self).pending_reply == old(self).pending_reply
                &&& final(self).same_identity(*old(self))
            },
            (old(self).is_active() && !old(self).spec_credit_ok(alloc, fwd)) ==> {
                &&& final(self).state == ConnState::Killed
                &&& final(self).pending_reply == Some(PendingReply::Rst)
                &&& final(self).same_credit(*old(self))
                &&& final(self).same_identity(*old(self))
            },
    {
        let active = match self.state {
            ConnState::PeerInit => true,
            ConnState::Established => true,
            _ => false,
        };
        if !active {
            return ;
        }
        let ok = self.peer_fwd_cnt <= fwd as u64 && fwd as u64 <= self.rx_cnt && self.rx_cnt - (
        fwd as u64) <= alloc as u64;
        if ok {
            self.peer_buf_alloc = alloc;
            self.peer_fwd_cnt = fwd as u64;
        } else {
            self.kill(true);
        }
    }

    /// Feed a guest data packet in. The credit advertisement it carries
    /// is validated first; then the payload must fit into the declared
    /// local allocation together with what is already buffered — too much
    /// is an overrun and forces a reset. Accepted bytes are flushed into
    /// the stream as far as it will take them, the remainder stays
    /// buffered, and the forward count advances by the bytes actually
    /// flushed.
    pub fn handle_rw(&mut self, payload: &Vec<u8>, alloc: u32, fwd: u32)
        requires
            old(self).wf(),
        ensures
            final(self).wf(),
            old(self).state != ConnState::Established ==> *final(self) == *old(self),
            (old(self).state == ConnState::Established && !old(self).spec_credit_ok(alloc, fwd))
                ==> {
                &&& final(self).state == ConnState::Killed
                &&& final(self).pending_reply == Some(PendingReply::Rst)
                &&& final(self).same_credit(*old(self))
                &&& final(self).same_identity(*old(self))
                &&& final(self).stream == old(self).stream
            },
            (old(self).state == ConnState::Established && old(self).spec_credit_ok(alloc, fwd)
                && old(self).tx_pending@.len() + payload@.len() > old(self).buf_alloc as int) ==> {
                &&& final(self).state == ConnState::Killed
                &&& final(self).pending_reply == Some(PendingReply::Rst)
                &&& final(self).same_credit(*old(self))
                &&& final(self).same_identity(*old(self))
                &&& final(self).stream == old(self).stream
            },
            (old(self).state == ConnState::Established && old(self).spec_credit_ok(alloc, fwd)
                && old(self).tx_pending@.len() + payload@.len() <= old(self).buf_alloc as int)
                ==> ({
                let combined = old(self).tx_pending@ + payload@;
                let w = old(self).stream.spec_accepts(combined.len() as int);
                &&& final(self).state == ConnState::Established
                &&& final(self).peer_buf_alloc == alloc
                &&& final(self).peer_fwd_cnt == fwd as u64
                &&& final(self).rx_cnt == old(self).rx_cnt
                &&& (old(self).stream is Echo ==> final(self).stream.pending() == old(
                    self,
                ).stream.pending() + combined.take(w))
                &&& final(self).tx_pending@ == combined.skip(w)
                &&& final(self).fwd_cnt == sat_add64(old(self).fwd_cnt, w as u64)
                &&& final(self).same_identity(*old(self))
                &&& final(self).pending_reply == old(self).pending_reply
            }),
    {
        match self.state {
            ConnState::Established => {},
            _ => {
                return ;
            },
        }
        let ok = self.peer_fwd_cnt <= fwd as u64 && fwd as u64 <= self.rx_cnt && self.rx_cnt - (
        fwd as u64) <= alloc as u64;
        if !ok {
            self.kill(true);
            return ;
        }
        if payload.len() > self.buf_alloc as usize - self.tx_pending.len() {
            self.kill(true);
            return ;
        }
        self.peer_buf_alloc = alloc;
        self.peer_fwd_cnt = fwd as u64;
        self.tx_pending.extend_from_slice(payload.as_slice());
        let written = self.stream.send(&self.tx_pending);
        let rest = self.tx_pending.split_off(written);
        self.tx_pending = rest;
        if self.fwd_cnt <= u64::MAX - written as u64 {
            self.fwd_cnt = self.fwd_cnt + written as u64;
        } else {
            self.fwd_cnt = u64::MAX;
        }
    }

    /// Retry flushing buffered guest bytes into the stream, as on a
    /// backend-readiness notification. Only an active connection moves
    /// traffic; the forward count advances by the bytes the stream took.
    pub fn flush_tx(&mut self)
        requires
            old(self).wf(),
        ensures
            final(self).wf(),
            !old(self).is_active() ==> *final(self) == *old(self),
            old(self).is_active() ==> ({
                let w = old(self).stream.spec_accepts(old(self).tx_pending@.len() as int);
                &&& final(self).tx_pending@ == old(self).tx_pending@.skip(w)
                &&& (old(self).stream is Echo ==> final(self).stream.pending() == old(
                    self,
                ).stream.pending() + old(self).tx_pending@.take(w))
                &&& final(self).fwd_cnt == sat_add64(old(self).fwd_cnt, w as u64)
                &&& final(self).state == old(self).state
                &&& final(self).rx_cnt == old(self).rx_cnt
                &&& final(self).peer_buf_alloc == old(self).peer_buf_alloc
                &&& final(self).peer_fwd_cnt == old(self).peer_fwd_cnt
                &&& final(self).same_identity(*old(self))
                &&& final(self).pending_reply == old(self).pending_reply
            }),
    {
        let active = match self.state {
            ConnState::PeerInit => true,
            ConnState::Established => true,
            _ => false,
        };
        if !active {
            return ;
        }
        let written = self.stream.send(&self.tx_pending);
        let rest = self.tx_pending.split_off(written);
        self.tx_pending = rest;
        if self.fwd_cnt <= u64::MAX - written as u64 {
            self.fwd_cnt = self.fwd_cnt + written as u64;
        } else {
            self.fwd_cnt = u64::MAX;
        }
    }

    /// Produce the next packet owed to the guest, if any: first any owed
    /// control packet (a reset finalizes the connection, a response
    /// establishes it), then — only on an established connection — a data
    /// chunk bounded by the guest's available credit and the given queue
    /// buffer space. The bytes leave the stream in order, and the forward
    /// count in flight towards the guest never passes its allocation.
    pub fn produce_rx_packet(&mut self, cid: u64, max_len: u32) -> (r: Option<VsockPacket>)
        requires
            old(self).wf(),
        ensures
            final(self).wf(),
            old(self).pending_reply == Some(PendingReply::Rst) ==> {
                &&& r matches Some(p) && p.op == VSOCK_OP_RST && p.wf() && p.len == 0
                    && p.src_cid == VSOCK_HOST_CID && p.dst_cid == cid && p.src_port == old(
                    self,
                ).peer_port && p.dst_port == old(self).local_port
                &&& final(self).state == ConnState::Killed
                &&& final(self).pending_reply == None::<PendingReply>
                &&& final(self).same_credit(*old(self))
                &&& final(self).same_identity(*old(self))
            },
            old(self).pending_reply == Some(PendingReply::Response) ==> {
                &&& r matches Some(p) && p.op == VSOCK_OP_RESPONSE && p.wf() && p.len == 0
                    && p.src_cid == VSOCK_HOST_CID && p.dst_cid == cid && p.src_port == old(
                    self,
                ).peer_port && p.dst_port == old(self).local_port && p.buf_alloc == old(
                    self,
                ).buf_alloc
                &&& final(self).state == (if old(self).state == ConnState::PeerInit {
                    ConnState::Established
                } else {
                    old(self).state
                })
                &&& final(self).pending_reply == None::<PendingReply>
                &&& final(self).same_credit(*old(self))
                &&& final(self).same_identity(*old(self))
                &&& final(self).stream == old(self).stream
            },
            (old(self).pending_reply == None::<PendingReply> && old(self).state
                == ConnState::Established && old(self).spec_rx_chunk(max_len) > 0) ==> ({
                let n = old(self).spec_rx_chunk(max_len);
                &&& r matches Some(p) && p.op == VSOCK_OP_RW && p.wf() && p.len == n
                    && p.payload@ == old(self).stream.pending().take(n) && p.src_cid
                    == VSOCK_HOST_CID && p.dst_cid == cid && p.src_port == old(self).peer_port
                    && p.dst_port == old(self).local_port && p.buf_alloc == old(self).buf_alloc
                    && p.fwd_cnt == old(self).fwd_cnt as u32
                &&& final(self).rx_cnt == old(self).rx_cnt + n
                &&& final(self).stream.pending() == old(self).stream.pending().skip(n)
                &&& final(self).state == old(self).state
                &&& final(self).same_identity(*old(self))
                &&& final(self).tx_pending@ == old(self).tx_pending@
                &&& final(self).credit_avail() == old(self).credit_avail() - n
            }),
            (old(self).pending_reply == None::<PendingReply> && !(old(self).state
                == ConnState::Established && old(self).spec_rx_chunk(max_len) > 0)) ==> {
                &&& r is None
                &&& *final(self) == *old(self)
            },
    {
        match self.pending_reply {
            Some(PendingReply::Rst) => {
                self.pending_reply = None;
                self.state = ConnState::Killed;
                let p = VsockPacket::control(
                    VSOCK_HOST_CID,
                    cid,
                    self.peer_port,
                    self.local_port,
                    VSOCK_OP_RST,
                    0,
                    self.buf_alloc,
                    #[verifier::truncate] (self.fwd_cnt as u32),
                );
                Some(p)
            },
            Some(PendingReply::Response) => {
                self.pending_reply = None;
                match self.state {
                    ConnState::PeerInit => {
                        self.state = ConnState::Established;
                    },
                    _ => {},
                }
                let p = VsockPacket::control(
                    VSOCK_HOST_CID,
                    cid,
                    self.peer_port,
                    self.local_port,
                    VSOCK_OP_RESPONSE,
                    0,
                    self.buf_alloc,
                    #[verifier::truncate] (self.fwd_cnt as u32),
                );
                Some(p)
            },
            None => {
                let established = match self.state {
                    ConnState::Established => true,
                    _ => false,
                };
                if !established {
                    return None;
                }
                let credit: u64 = self.peer_buf_alloc as u64 + self.peer_fwd_cnt - self.rx_cnt;
                let want64: u64 = if credit <= max_len as u64 {
                    credit
                } else {
                    max_len as u64
                };
                let want: usize = want64 as usize;
                if want == 0 || !self.stream.has_pending() {
                    return None;
                }
                let chunk = self.stream.recv(want);
                proof {
                    assert(chunk@.len() == old(self).spec_rx_chunk(max_len));
                }
                self.rx_cnt = self.rx_cnt + chunk.len() as u64;
                let p = VsockPacket {
                    src_cid: VSOCK_HOST_CID,
                    dst_cid: cid,
                    src_port: self.peer_port,
                    dst_port: self.local_port,
                    len: chunk.len() as u32,
                    pkt_type: VSOCK_TYPE_STREAM,
                    op: VSOCK_OP_RW,
                    flags: 0,
                    buf_alloc: self.buf_alloc,
                    fwd_cnt: #[verifier::truncate] (self.fwd_cnt as u32),
                    payload: chunk,
                };
                Some(p)
            },
        }
    }
}


/// Flow control holds at every observation point: on any well-formed
/// connection, the bytes forwarded to the guest and not yet consumed
/// never exceed the guest's declared buffer allocation, and what may
/// still be sent never exceeds that allocation either.
pub proof fn lemma_flow_control_bound(c: VsockConnection)
    requires
        c.wf(),
    ensures
        c.rx_cnt - c.peer_fwd_cnt <= c.peer_buf_alloc as u64,
        0 <= c.credit_avail() <= c.peer_buf_alloc as int,
{
}

/// A data chunk towards the guest never exceeds the available credit:
/// whatever buffer space the queue offers and whatever the stream holds,
/// the chunk fits the guest's declared allocation.
pub proof fn lemma_rx_chunk_within_credit(c: VsockConnection, max_len: u32)
    requires
        c.wf(),
    ensures
        c.spec_rx_chunk(max_len) <= c.credit_avail(),
        c.spec_rx_chunk(max_len) <= max_len as int,
        c.spec_rx_chunk(max_len) <= c.stream.pending().len() as int,
{
}

} // verus!
