//! Host-side transports ("backends") and their per-connection streams.
//!
//! A backend terminates the host side of a vsock connection. The set of
//! transports is a closed set of variants behind one capability
//! interface: `connect` yields a stream, and a stream offers non-blocking
//! `send` and `recv` with explicit partial-transfer results, plus
//! `shutdown`. The echo transport buffers what it is sent, up to a fixed
//! capacity, and hands the same bytes back in order; the sink transport
//! accepts everything and produces nothing. Transports that perform real
//! I/O live outside the library and report their byte chunks and
//! failures through the event handler instead.

use vstd::prelude::*;

verus! {

broadcast use vstd::std_specs::vec::axiom_spec_len;

/// A stream endpoint owned by one connection.
#[derive(Clone, Debug)]
pub enum VsockStream {
    /// Echoes sent bytes back, through a bounded buffer.
    Echo {
        /// Bytes accepted and not yet read back.
        buf: Vec<u8>,
        /// Most bytes the stream will hold at once.
        capacity: u32,
        /// Whether the stream was shut down.
        shut: bool,
    },
    /// Accepts and discards everything; never produces bytes.
    Sink {
        /// Whether the stream was shut down.
        shut: bool,
    },
}

impl VsockStream {
    /// Internal bound: an echo stream never holds more than its capacity.
    pub open spec fn wf(self) -> bool {
        match self {
            VsockStream::Echo { buf, capacity, .. } => buf@.len() <= capacity as int,
            VsockStream::Sink { .. } => true,
        }
    }

    /// The bytes the stream has ready for the guest, oldest first.
    pub open spec fn pending(self) -> Seq<u8> {
        match self {
            VsockStream::Echo { buf, .. } => buf@,
            VsockStream::Sink { .. } => Seq::empty(),
        }
    }

    /// Whether the stream was shut down.
    pub open spec fn is_shut(self) -> bool {
        match self {
            VsockStream::Echo { shut, .. } => shut,
            VsockStream::Sink { shut } => shut,
        }
    }

    /// How many of `n` offered bytes the stream will accept.
    pub open spec fn spec_accepts(self, n: int) -> int {
        if self.is_shut() {
            0
        } else {
            match self {
                VsockStream::Echo { buf, capacity, .. } => {
                    let room = capacity as int - buf@.len();
                    if n <= room {
                        n
                    } else {
                        room
                    }
                },
                VsockStream::Sink { .. } => n,
            }
        }
    }

    /// Non-blocking send: accepts a prefix of `data` and reports how many
    /// bytes were taken; zero means the stream would block (or is shut).
    /// An echo stream keeps the accepted prefix in order behind what it
    /// already holds; a sink discards it.
    pub fn send(&mut self, data: &Vec<u8>) -> (written: usize)
        requires
            old(self).wf(),
        ensures
            final(self).wf(),
            written as int == old(self).spec_accepts(data@.len() as int),
            written <= data@.len(),
            old(self) matches VsockStream::Echo { .. } ==> final(self).pending() == old(
                self,
            ).pending() + data@.take(written as int),
            old(self) matches VsockStream::Sink { .. } ==> final(self).pending() == Seq::<
                u8,
            >::empty(),
            final(self).is_shut() == old(self).is_shut(),
    {
        match self {
            VsockStream::Echo { buf, capacity, shut } => {
                if *shut {
                    proof {
                        assert(old(self).pending() + data@.take(0) =~= old(self).pending());
                    }
                    return 0;
                }
                let room: usize = *capacity as usize - buf.len();
                let take: usize = if data.len() <= room {
                    data.len()
                } else {
                    room
                };
                proof {
                    assert(buf@ =~= old(self).pending() + data@.take(0));
                }
                let mut i: usize = 0;
                while i < take
                    invariant
                        i <= take,
                        take <= data@.len(),
                        buf@ == old(self).pending() + data@.take(i as int),
                        buf@.len() + (take - i) <= *capacity as int,
                    decreases take - i,
                {
                    buf.push(data[i]);
                    proof {
                        assert(buf@ =~= old(self).pending() + data@.take(i + 1));
                    }
                    i = i + 1;
                }
                take
            },
            VsockStream::Sink { shut } => {
                if *shut {
                    0
                } else {
                    data.len()
                }
            },
        }
    }

    /// Non-blocking receive: hands out up to `max` of the pending bytes,
    /// oldest first, and drops them from the stream.
    pub fn recv(&mut self, max: usize) -> (r: Vec<u8>)
        requires
            old(self).wf(),
        ensures
            final(self).wf(),
            r@ == old(self).pending().take(
                if max as int <= old(self).pending().len() {
                    max as int
                } else {
                    old(self).pending().len() as int
                },
            ),
            final(self).pending() == old(self).pending().skip(r@.len() as int),
            final(self).is_shut() == old(self).is_shut(),
    {
        match self {
            VsockStream::Echo { buf, .. } => {
                let n: usize = if max <= buf.len() {
                    max
                } else {
                    buf.len()
                };
                let mut rest = buf.split_off(n);
                core::mem::swap(buf, &mut rest);
                proof {
                    assert(rest@ =~= old(self).pending().take(n as int));
                    assert(buf@ =~= old(self).pending().skip(n as int));
                }
                rest
            },
            VsockStream::Sink { .. } => {
                proof {
                    assert(old(self).pending().take(0) =~= Seq::<u8>::empty());
                    assert(old(self).pending().skip(0) =~= old(self).pending());
                }
                Vec::new()
            },
        }
    }

    /// Whether the stream has bytes ready for the guest.
    pub fn has_pending(&self) -> (r: bool)
        ensures
            r == (self.pending().len() > 0),
    {
        match self {
            VsockStream::Echo { buf, .. } => buf.len() > 0,
            VsockStream::Sink { .. } => false,
        }
    }

    /// Shut the stream down: it accepts no further bytes. Bytes already
    /// pending stay readable.
    pub fn shutdown(&mut self)
        requires
            old(self).wf(),
        ensures
            final(self).wf(),
            final(self).is_shut(),
            final(self).pending() == old(self).pending(),
    {
        match self {
            VsockStream::Echo { shut, .. } => {
                *shut = true;
            },
            VsockStream::Sink { shut } => {
                *shut = true;
            },
        }
    }
}

/// A registered transport: connecting to it yields a fresh stream.
#[derive(Clone, Copy, Debug)]
pub enum VsockBackend {
    /// Echoes every byte back through a buffer of the given capacity.
    Echo {
        /// Capacity of each stream this backend hands out.
        capacity: u32,
    },
    /// Accepts and discards everything.
    Sink,
}

impl VsockBackend {
    /// Open a stream for a new connection to `port`. The pure transports
    /// accept every port; routing is the muxer's business.
    pub fn connect(&self, _port: u32) -> (r: VsockStream)
        ensures
            r.wf(),
            r.pending() == Seq::<u8>::empty(),
            !r.is_shut(),
            *self matches VsockBackend::Echo { capacity } ==> (r matches VsockStream::Echo {
                buf,
                capacity: rc,
                shut,
            } && rc == capacity && buf@.len() == 0 && !shut),
            *self matches VsockBackend::Sink ==> r matches VsockStream::Sink { shut: false },
    {
        match self {
            VsockBackend::Echo { capacity } => VsockStream::Echo {
                buf: Vec::new(),
                capacity: *capacity,
                shut: false,
            },
            VsockBackend::Sink => VsockStream::Sink { shut: false },
        }
    }
}


/// The bytes a sequence of partial reads drains from a stream holding
/// `p`: each read of size `ns[i]` takes the oldest remaining bytes, as
/// `recv` does, clamped to what is left.
pub open spec fn spec_fragmented_reads(p: Seq<u8>, ns: Seq<int>) -> Seq<u8>
    decreases ns.len(),
{
    if ns.len() == 0 {
        Seq::empty()
    } else {
        let n = if ns[0] < 0 {
            0
        } else if ns[0] <= p.len() {
            ns[0]
        } else {
            p.len() as int
        };
        p.take(n) + spec_fragmented_reads(p.skip(n), ns.skip(1))
    }
}

/// Round trip through an echo stream, however the reads fragment: the
/// drained bytes are always a prefix of what the stream held — byte
/// identical and order preserved — and reads that drain everything hand
/// back exactly the held bytes.
pub proof fn lemma_echo_fragmented_reads_prefix(p: Seq<u8>, ns: Seq<int>)
    ensures
        spec_fragmented_reads(p, ns).len() <= p.len(),
        spec_fragmented_reads(p, ns) == p.take(spec_fragmented_reads(p, ns).len() as int),
        spec_fragmented_reads(p, ns).len() == p.len() ==> spec_fragmented_reads(p, ns) == p,
    decreases ns.len(),
{
    if ns.len() == 0 {
        assert(spec_fragmented_reads(p, ns) =~= p.take(0));
    } else {
        let n = if ns[0] < 0 {
            0
        } else if ns[0] <= p.len() {
            ns[0]
        } else {
            p.len() as int
        };
        lemma_echo_fragmented_reads_prefix(p.skip(n), ns.skip(1));
        let rest = spec_fragmented_reads(p.skip(n), ns.skip(1));
        assert(p.take(n) + p.skip(n).take(rest.len() as int) =~= p.take(n + rest.len()));
        assert(spec_fragmented_reads(p, ns) == p.take(n + rest.len()));
        assert(p.take(p.len() as int) =~= p);
    }
}

} // verus!
