//! The virtio-level device front-end.
//!
//! It carries the fixed context id, the queue-size configuration, the
//! feature bits and the 8-byte read-only config space (the context id,
//! little-endian), and owns the muxer until activation. Activation is
//! all-or-nothing: queue validation failure leaves the device untouched
//! but for its failure counter; success hands the muxer to the event
//! handler, after which no backend can be added.

use vstd::prelude::*;

use crate::backend::VsockBackend;
use crate::handler::VsockEpollHandler;
use crate::metrics::bump;
use crate::metrics::bumped;
use crate::metrics::VsockDeviceMetrics;
use crate::muxer::spec_lookup_backend;
use crate::muxer::VsockMuxer;
use crate::ActivateError;
use crate::MuxerError;
use crate::VsockError;

verus! {

broadcast use vstd::std_specs::vec::axiom_spec_len;

/// The virtio device id of a vsock device.
pub const VIRTIO_ID_VSOCK: u32 = 19;

/// Feature bits: version 1 and in-order transport, nothing else.
pub const VSOCK_AVAIL_FEATURES: u64 = (1u64 << 32) | (1u64 << 35);

/// Size of the device config space: the 64-bit context id.
pub const VSOCK_CONFIG_SPACE_SIZE: usize = 8;

/// A resource the device asks its host for.
#[derive(Clone, Copy, Debug, PartialEq, Eq, Structural)]
pub enum ResourceConstraint {
    /// One legacy interrupt line, number left to the host.
    LegacyIrq {
        /// A fixed line, or none for "any".
        irq: Option<u32>,
    },
    /// A span of generic interrupt vectors.
    GenericIrq {
        /// How many vectors.
        size: u32,
    },
}

/// Where the muxer lives: with the device until activation, with the
/// handler afterwards, nowhere after removal.
pub enum VsockState {
    /// Not yet activated: the device still owns the muxer and backends
    /// can be added.
    Unactivated(VsockMuxer),
    /// Activated: the handler owns the muxer.
    Activated(VsockEpollHandler),
    /// Removed: everything torn down.
    Removed,
}

/// Byte `i` of the config space: the context id, least significant byte
/// first.
pub open spec fn spec_config_byte(cid: u64, i: int) -> u8 {
    (cid >> ((8 * i) as u64)) as u8
}

/// One 32-bit page of a 64-bit feature word.
pub open spec fn spec_features_page(f: u64, page: u32) -> u32 {
    if page == 0 {
        (f & 0xffff_ffff) as u32
    } else if page == 1 {
        ((f >> 32) & 0xffff_ffff) as u32
    } else {
        0
    }
}

/// What acking `value` on `page` adds to the acked features: only bits
/// the device offers, on a real page.
pub open spec fn spec_ack_mask(avail: u64, page: u32, value: u32) -> u64 {
    (if page == 0 {
        value as u64
    } else if page == 1 {
        (value as u64) << 32
    } else {
        0
    }) & avail
}

/// Whether an activation-time queue configuration matches the maxima the
/// device was created with: same count, no size over its maximum.
pub open spec fn spec_queues_valid(maxes: Seq<u16>, qs: Seq<u16>) -> bool {
    &&& qs.len() == maxes.len()
    &&& forall|i: int| 0 <= i < qs.len() ==> #[trigger] qs[i] <= maxes[i]
}

/// The vsock device.
pub struct Vsock {
    /// The fixed context id of the guest.
    pub cid: u64,
    /// Maximum size of each virtio queue.
    pub queue_sizes: Vec<u16>,
    /// The 8-byte read-only config space: the context id, little-endian.
    pub config_space: Vec<u8>,
    /// Feature bits the device offers.
    pub avail_features: u64,
    /// Feature bits the driver has acked.
    pub acked_features: u64,
    /// Muxer ownership: configuration, running, or removed.
    pub state: VsockState,
    /// Event and failure counters.
    pub metrics: VsockDeviceMetrics,
}

impl Vsock {
    /// Internal invariant: the config space encodes the context id, the
    /// offered features are fixed, and whoever holds the muxer holds a
    /// well-formed one for this context id.
    pub open spec fn wf(self) -> bool {
        &&& self.config_space@.len() == VSOCK_CONFIG_SPACE_SIZE
        &&& forall|i: int|
            0 <= i < VSOCK_CONFIG_SPACE_SIZE ==> #[trigger] self.config_space@[i]
                == spec_config_byte(self.cid, i)
        &&& self.avail_features == VSOCK_AVAIL_FEATURES
        &&& match self.state {
            VsockState::Unactivated(m) => m.wf() && m.cid == self.cid,
            VsockState::Activated(h) => h.wf() && h.cid == self.cid,
            VsockState::Removed => true,
        }
    }

    /// Build a device around a muxer for the same context id.
    pub fn new_with_muxer(cid: u64, queue_sizes: Vec<u16>, muxer: VsockMuxer) -> (r: Result<
        Self,
        VsockError,
    >)
        requires
            muxer.wf(),
            muxer.cid == cid,
        ensures
            r matches Ok(d) && {
                &&& d.wf()
                &&& d.cid == cid
                &&& d.queue_sizes@ == queue_sizes@
                &&& d.avail_features == VSOCK_AVAIL_FEATURES
                &&& d.acked_features == 0
                &&& d.metrics.all_zero()
                &&& d.state matches VsockState::Unactivated(m) && m == muxer
            },
    {
        let mut config_space: Vec<u8> = Vec::new();
        let mut i: usize = 0;
        while i < VSOCK_CONFIG_SPACE_SIZE
            invariant
                i <= VSOCK_CONFIG_SPACE_SIZE,
                config_space@.len() == i,
                forall|j: int|
                    0 <= j < i ==> #[trigger] config_space@[j] == spec_config_byte(cid, j),
            decreases VSOCK_CONFIG_SPACE_SIZE - i,
        {
            let sh: u64 = 8 * (i as u64);
            config_space.push(#[verifier::truncate] ((cid >> sh) as u8));
            i = i + 1;
        }
        Ok(
            Vsock {
                cid,
                queue_sizes,
                config_space,
                avail_features: VSOCK_AVAIL_FEATURES,
                acked_features: 0,
                state: VsockState::Unactivated(muxer),
                metrics: VsockDeviceMetrics::default(),
            },
        )
    }

    /// A new, unactivated vsock device for this context id.
    pub fn new(cid: u64, queue_sizes: Vec<u16>) -> (r: Result<Self, VsockError>)
        ensures
            r matches Ok(d) && {
                &&& d.wf()
                &&& d.cid == cid
                &&& d.queue_sizes@ == queue_sizes@
                &&& d.acked_features == 0
                &&& d.metrics.all_zero()
                &&& d.state matches VsockState::Unactivated(m) && m.conn_map@.dom()
                    =~= Set::<u64>::empty() && m.backends@.len() == 0 && (
                m.default_backend is None)
            },
    {
        let muxer = VsockMuxer::new(cid);
        Self::new_with_muxer(cid, queue_sizes, muxer)
    }

    /// The driver name.
    pub fn id(&self) -> (r: &'static str)
        ensures
            r@ == "virtio-vsock"@,
    {
        "virtio-vsock"
    }

    /// Register a backend, as the default or bound to a destination
    /// port. After activation (or removal) this always fails with the
    /// dedicated error and the registry is untouched.
    pub fn add_backend(&mut self, port: u32, backend: VsockBackend, is_default: bool) -> (r: Result<
        (),
        VsockError,
    >)
        requires
            old(self).wf(),
        ensures
            final(self).wf(),
            final(self).cid == old(self).cid,
            final(self).queue_sizes@ == old(self).queue_sizes@,
            final(self).acked_features == old(self).acked_features,
            final(self).metrics == old(self).metrics,
            !(old(self).state is Unactivated) ==> (r == Err::<(), VsockError>(
                VsockError::Muxer(MuxerError::BackendAddAfterActivated),
            ) && *final(self) == *old(self)),
            old(self).state matches VsockState::Unactivated(m) ==> (final(self).state matches VsockState::Unactivated(m2) && {
                &&& m2.conn_map@ == m.conn_map@
                &&& m2.conn_order@ == m.conn_order@
                &&& m2.killq@ == m.killq@
                &&& m2.rst_queue@ == m.rst_queue@
                &&& m2.cid == m.cid
                &&& (is_default && m.default_backend is Some) ==> ((r is Err) && m2 == m)
                &&& (is_default && m.default_backend is None) ==> ((r is Ok)
                    && m2.default_backend == Some(backend) && m2.backends@ == m.backends@)
                &&& (!is_default && spec_lookup_backend(m.backends@, port) is Some) ==> ((
                r is Err) && m2 == m)
                &&& (!is_default && spec_lookup_backend(m.backends@, port) is None) ==> ((r is Ok)
                    && m2.backends@ == m.backends@.push((port, backend)) && m2.default_backend
                    == m.default_backend)
                &&& (r is Err) ==> r == Err::<(), VsockError>(
                    VsockError::Muxer(MuxerError::BackendAlreadyRegistered),
                )
            }),
    {
        match &mut self.state {
            VsockState::Unactivated(m) => {
                match m.add_backend(port, backend, is_default) {
                    Ok(()) => Ok(()),
                    Err(e) => Err(VsockError::Muxer(e)),
                }
            },
            _ => Err(VsockError::Muxer(MuxerError::BackendAddAfterActivated)),
        }
    }

    /// The device's counters.
    pub fn get_metrics(&self) -> (r: &VsockDeviceMetrics)
        ensures
            *r == self.metrics,
    {
        &self.metrics
    }

    /// The virtio device type.
    pub fn device_type(&self) -> (r: u32)
        ensures
            r == VIRTIO_ID_VSOCK,
    {
        VIRTIO_ID_VSOCK
    }

    /// The maximum size of each queue.
    pub fn queue_max_sizes(&self) -> (r: &[u16])
        ensures
            r@ == self.queue_sizes@,
    {
        self.queue_sizes.as_slice()
    }

    /// One 32-bit page of the offered feature bits.
    pub fn get_avail_features(&self, page: u32) -> (r: u32)
        ensures
            r == spec_features_page(self.avail_features, page),
    {
        if page == 0 {
            #[verifier::truncate] ((self.avail_features & 0xffff_ffff) as u32)
        } else if page == 1 {
            #[verifier::truncate] (((self.avail_features >> 32) & 0xffff_ffff) as u32)
        } else {
            0
        }
    }

    /// Ack feature bits: only offered bits stick, a bogus page and an
    /// un-ack have no effect.
    pub fn set_acked_features(&mut self, page: u32, value: u32)
        ensures
            final(self).acked_features == old(self).acked_features | spec_ack_mask(
                old(self).avail_features,
                page,
                value,
            ),
            *final(self) == (Vsock { acked_features: final(self).acked_features, ..*old(self) }),
    {
        let v: u64 = if page == 0 {
            value as u64
        } else if page == 1 {
            (value as u64) << 32
        } else {
            0
        };
        self.acked_features = self.acked_features | (v & self.avail_features);
    }

    /// The driver's acked feature bits.
    pub fn acked_features(&self) -> (r: u64)
        ensures
            r == self.acked_features,
    {
        self.acked_features
    }

    /// Read from the config space into `data`. An in-range offset copies
    /// as much of the context id as fits, leaving the rest of `data`
    /// untouched; an out-of-range offset zero-fills `data` and counts one
    /// config failure.
    pub fn read_config(&mut self, offset: u64, data: &mut Vec<u8>)
        requires
            old(self).wf(),
        ensures
            final(self).wf(),
            *final(self) == (Vsock { metrics: final(self).metrics, ..*old(self) }),
            final(data)@.len() == old(data)@.len(),
            offset >= VSOCK_CONFIG_SPACE_SIZE ==> ((forall|i: int|
                0 <= i < final(data)@.len() ==> final(data)@[i] == 0) && final(self).metrics == (
            VsockDeviceMetrics {
                cfg_fails: bumped(old(self).metrics.cfg_fails),
                ..old(self).metrics
            })),
            offset < VSOCK_CONFIG_SPACE_SIZE ==> ((forall|i: int|
                0 <= i < final(data)@.len() ==> final(data)@[i] == (if offset + i
                    < VSOCK_CONFIG_SPACE_SIZE {
                    old(self).config_space@[offset + i]
                } else {
                    old(data)@[i]
                })) && final(self).metrics == old(self).metrics),
    {
        let n = data.len();
        if offset >= VSOCK_CONFIG_SPACE_SIZE as u64 {
            let mut out: Vec<u8> = Vec::new();
            let mut i: usize = 0;
            while i < n
                invariant
                    i <= n,
                    out@.len() == i,
                    forall|j: int| 0 <= j < i ==> out@[j] == 0,
                decreases n - i,
            {
                out.push(0);
                i = i + 1;
            }
            *data = out;
            bump(&mut self.metrics.cfg_fails);
            return ;
        }
        let off = offset as usize;
        let mut out: Vec<u8> = Vec::new();
        let mut i: usize = 0;
        while i < n
            invariant
                i <= n,
                n == data@.len(),
                off == offset,
                off < VSOCK_CONFIG_SPACE_SIZE,
                self.config_space@.len() == VSOCK_CONFIG_SPACE_SIZE,
                out@.len() == i,
                forall|j: int|
                    0 <= j < i ==> out@[j] == (if off + j < VSOCK_CONFIG_SPACE_SIZE {
                        self.config_space@[off + j]
                    } else {
                        data@[j]
                    }),
            decreases n - i,
        {
            if i < VSOCK_CONFIG_SPACE_SIZE - off {
                out.push(self.config_space[off + i]);
            } else {
                out.push(data[i]);
            }
            i = i + 1;
        }
        *data = out;
    }

    /// Guest writes to the config space are rejected: the device has no
    /// writable configuration. Each attempt counts one config failure
    /// and changes nothing else.
    pub fn write_config(&mut self, _offset: u64, _data: &Vec<u8>)
        requires
            old(self).wf(),
        ensures
            final(self).wf(),
            *final(self) == (Vsock {
                metrics: (VsockDeviceMetrics {
                    cfg_fails: bumped(old(self).metrics.cfg_fails),
                    ..old(self).metrics
                }),
                ..*old(self)
            }),
    {
        bump(&mut self.metrics.cfg_fails);
    }

    /// Activate the device with the driver's queue configuration.
    /// Validation failure counts one activation failure and changes
    /// nothing else; success hands the muxer to the event handler.
    pub fn activate(&mut self, queues: &Vec<u16>) -> (r: Result<(), ActivateError>)
        requires
            old(self).wf(),
            old(self).state is Unactivated,
        ensures
            final(self).wf(),
            !spec_queues_valid(old(self).queue_sizes@, queues@) ==> (r == Err::<(), ActivateError>(
                ActivateError::InvalidQueueConfig,
            ) && *final(self) == (Vsock {
                metrics: (VsockDeviceMetrics {
                    activate_fails: bumped(old(self).metrics.activate_fails),
                    ..old(self).metrics
                }),
                ..*old(self)
            })),
            spec_queues_valid(old(self).queue_sizes@, queues@) ==> ((r is Ok) && final(self).metrics == old(self).metrics && final(self).cid == old(self).cid && final(self).queue_sizes@ == old(self).queue_sizes@ && final(self).acked_features == old(
                self,
            ).acked_features && (old(self).state matches VsockState::Unactivated(m) ==> final(self).state matches VsockState::Activated(h) && h.cid == old(self).cid && h.muxer == m)),
    {
        if queues.len() != self.queue_sizes.len() {
            bump(&mut self.metrics.activate_fails);
            return Err(ActivateError::InvalidQueueConfig);
        }
        let mut i: usize = 0;
        while i < queues.len()
            invariant
                i <= queues@.len(),
                queues@.len() == self.queue_sizes@.len(),
                forall|j: int| 0 <= j < i ==> #[trigger] queues@[j] <= self.queue_sizes@[j],
                *self == *old(self),
                old(self).wf(),
                old(self).state is Unactivated,
            decreases queues@.len() - i,
        {
            if queues[i] > self.queue_sizes[i] {
                bump(&mut self.metrics.activate_fails);
                return Err(ActivateError::InvalidQueueConfig);
            }
            i = i + 1;
        }
        let cid = self.cid;
        let mut tmp = VsockState::Removed;
        core::mem::swap(&mut self.state, &mut tmp);
        match tmp {
            VsockState::Unactivated(m) => {
                self.state = VsockState::Activated(VsockEpollHandler { cid, muxer: m });
                Ok(())
            },
            VsockState::Activated(h) => {
                proof {
                    assert(false);
                }
                self.state = VsockState::Activated(h);
                Ok(())
            },
            VsockState::Removed => {
                proof {
                    assert(false);
                }
                Ok(())
            },
        }
    }

    /// The resources the device asks for: one legacy interrupt line,
    /// and under generic interrupt addressing a vector span of one more
    /// than the number of queues.
    pub fn get_resource_requirements(
        &self,
        requests: &mut Vec<ResourceConstraint>,
        use_generic_irq: bool,
    )
        ensures
            !use_generic_irq ==> final(requests)@ == old(requests)@.push(
                ResourceConstraint::LegacyIrq { irq: None },
            ),
            use_generic_irq ==> final(requests)@ == old(requests)@.push(
                ResourceConstraint::LegacyIrq { irq: None },
            ).push(
                ResourceConstraint::GenericIrq {
                    size: (if self.queue_sizes@.len() + 1 <= u32::MAX {
                        (self.queue_sizes@.len() + 1) as u32
                    } else {
                        u32::MAX
                    }),
                },
            ),
    {
        requests.push(ResourceConstraint::LegacyIrq { irq: None });
        if use_generic_irq {
            let n = self.queue_sizes.len();
            let size: u32 = if n < u32::MAX as usize {
                (n + 1) as u32
            } else {
                u32::MAX
            };
            requests.push(ResourceConstraint::GenericIrq { size });
        }
    }

    /// Tear the device down: drop the handler (or the still-owned muxer)
    /// and every connection and backend with it.
    pub fn remove(&mut self)
        ensures
            *final(self) == (Vsock { state: VsockState::Removed, ..*old(self) }),
    {
        self.state = VsockState::Removed;
    }
}

} // verus!
