//! The options an NVMe-oF transport is created with, and the builder that sets them.
use vstd::prelude::*;

use super::transport::TransportType;

verus! {

/// The options of an NVMe-oF transport that the builder sets.
#[derive(Clone, Copy, Debug, PartialEq, Eq, Structural)]
pub struct TransportOptions {
    /// The maximum queue depth.
    pub max_queue_depth: u16,
    /// The maximum number of queue pairs per controller.
    pub max_qpairs_per_ctrlr: u16,
    /// The maximum in-capsule data size.
    pub in_capsule_data_size: u32,
    /// The maximum I/O size.
    pub max_io_size: u32,
    /// The I/O unit size.
    pub io_unit_size: u32,
    /// The maximum admin queue depth.
    pub max_aq_depth: u32,
    /// The number of shared buffers.
    pub num_shared_buffers: u32,
    /// The buffer cache size.
    pub buf_cache_size: u32,
    /// Whether DIF is inserted or stripped.
    pub dif_insert_or_strip: bool,
    /// The abort timeout, in seconds.
    pub abort_timeout_sec: u32,
    /// The association timeout, in milliseconds.
    pub association_timeout: u32,
    /// The acceptor poll rate, in milliseconds.
    pub acceptor_poll_rate: u32,
    /// Whether zero-copy is enabled.
    pub zcopy: bool,
}

/// Builds an NVMe-oF transport: the transport type and the options it is created with.
pub struct Builder {
    transport_type: TransportType,
    opts: TransportOptions,
}

impl Builder {
    /// The type of the transport this builder builds.
    pub closed spec fn spec_transport_type(&self) -> TransportType {
        self.transport_type
    }

    /// The options this builder holds.
    pub closed spec fn spec_options(&self) -> TransportOptions {
        self.opts
    }

    /// Creates a builder for the given transport type, starting from the options the
    /// transport defaults to.
    pub fn new(transport_type: TransportType, defaults: TransportOptions) -> (b: Self)
        ensures
            b.spec_transport_type() == transport_type,
            b.spec_options() == defaults,
    {
        Builder { transport_type, opts: defaults }
    }

    /// Returns the type of the transport this builder builds.
    pub fn transport_type(&self) -> (t: TransportType)
        ensures
            t == self.spec_transport_type(),
    {
        self.transport_type
    }

    /// Returns the options this builder holds.
    pub fn options(&self) -> (o: TransportOptions)
        ensures
            o == self.spec_options(),
    {
        self.opts
    }

    /// Sets the maximum queue depth.
    pub fn with_max_queue_depth(self, max_queue_depth: u16) -> (b: Self)
        ensures
            b.spec_transport_type() == self.spec_transport_type(),
            b.spec_options() == (TransportOptions { max_queue_depth, ..self.spec_options() }),
    {
        let mut b = self;
        b.opts.max_queue_depth = max_queue_depth;
        b
    }

    /// Sets the maximum number of queue pairs per controller.
    pub fn with_max_qpairs_per_ctrlr(self, max_qpairs_per_ctrlr: u16) -> (b: Self)
        ensures
            b.spec_transport_type() == self.spec_transport_type(),
            b.spec_options() == (TransportOptions {
                max_qpairs_per_ctrlr,
                ..self.spec_options()
            }),
    {
        let mut b = self;
        b.opts.max_qpairs_per_ctrlr = max_qpairs_per_ctrlr;
        b
    }

    /// Sets the maximum in-capsule data size.
    pub fn with_in_capsule_data_size(self, in_capsule_data_size: u32) -> (b: Self)
        ensures
            b.spec_transport_type() == self.spec_transport_type(),
            b.spec_options() == (TransportOptions {
                in_capsule_data_size,
                ..self.spec_options()
            }),
    {
        let mut b = self;
        b.opts.in_capsule_data_size = in_capsule_data_size;
        b
    }

    /// Sets the maximum I/O size.
    pub fn with_max_io_size(self, max_io_size: u32) -> (b: Self)
        ensures
            b.spec_transport_type() == self.spec_transport_type(),
            b.spec_options() == (TransportOptions { max_io_size, ..self.spec_options() }),
    {
        let mut b = self;
        b.opts.max_io_size = max_io_size;
        b
    }

    /// Sets the I/O unit size.
    pub fn with_io_unit_size(self, io_unit_size: u32) -> (b: Self)
        ensures
            b.spec_transport_type() == self.spec_transport_type(),
            b.spec_options() == (TransportOptions { io_unit_size, ..self.spec_options() }),
    {
        let mut b = self;
        b.opts.io_unit_size = io_unit_size;
        b
    }

    /// Sets the maximum admin queue depth.
    pub fn with_max_aq_depth(self, max_aq_depth: u32) -> (b: Self)
        ensures
            b.spec_transport_type() == self.spec_transport_type(),
            b.spec_options() == (TransportOptions { max_aq_depth, ..self.spec_options() }),
    {
        let mut b = self;
        b.opts.max_aq_depth = max_aq_depth;
        b
    }

    /// Sets the number of shared buffers.
    pub fn with_num_shared_buffers(self, num_shared_buffers: u32) -> (b: Self)
        ensures
            b.spec_transport_type() == self.spec_transport_type(),
            b.spec_options() == (TransportOptions {
                num_shared_buffers,
                ..self.spec_options()
            }),
    {
        let mut b = self;
        b.opts.num_shared_buffers = num_shared_buffers;
        b
    }

    /// Sets the buffer cache size.
    pub fn with_buf_cache_size(self, buf_cache_size: u32) -> (b: Self)
        ensures
            b.spec_transport_type() == self.spec_transport_type(),
            b.spec_options() == (TransportOptions { buf_cache_size, ..self.spec_options() }),
    {
        let mut b = self;
        b.opts.buf_cache_size = buf_cache_size;
        b
    }

    /// Sets whether DIF is inserted or stripped.
    pub fn with_dif_insert_or_strip(self, dif_insert_or_strip: bool) -> (b: Self)
        ensures
            b.spec_transport_type() == self.spec_transport_type(),
            b.spec_options() == (TransportOptions {
                dif_insert_or_strip,
                ..self.spec_options()
            }),
    {
        let mut b = self;
        b.opts.dif_insert_or_strip = dif_insert_or_strip;
        b
    }

    /// Sets the abort timeout, given in whole seconds; the options hold its low 32 bits.
    pub fn with_abort_timeout(self, abort_timeout_secs: u64) -> (b: Self)
        ensures
            b.spec_transport_type() == self.spec_transport_type(),
            b.spec_options() == (TransportOptions {
                abort_timeout_sec: abort_timeout_secs as u32,
                ..self.spec_options()
            }),
    {
        let mut b = self;
        b.opts.abort_timeout_sec = abort_timeout_secs as u32;
        b
    }

    /// Sets the association timeout, given in whole milliseconds; the options hold its low
    /// 32 bits.
    pub fn with_association_timeout(self, association_timeout_millis: u128) -> (b: Self)
        ensures
            b.spec_transport_type() == self.spec_transport_type(),
            b.spec_options() == (TransportOptions {
                association_timeout: association_timeout_millis as u32,
                ..self.spec_options()
            }),
    {
        let mut b = self;
        b.opts.association_timeout = association_timeout_millis as u32;
        b
    }

    /// Sets the acceptor poll rate, given in whole milliseconds; the options hold its low
    /// 32 bits.
    pub fn with_acceptor_poll_rate(self, acceptor_poll_rate_millis: u128) -> (b: Self)
        ensures
            b.spec_transport_type() == self.spec_transport_type(),
            b.spec_options() == (TransportOptions {
                acceptor_poll_rate: acceptor_poll_rate_millis as u32,
                ..self.spec_options()
            }),
    {
        let mut b = self;
        b.opts.acceptor_poll_rate = acceptor_poll_rate_millis as u32;
        b
    }

    /// Sets whether zero-copy is enabled.
    pub fn with_zero_copy_enabled(self, zero_copy_enabled: bool) -> (b: Self)
        ensures
            b.spec_transport_type() == self.spec_transport_type(),
            b.spec_options() == (TransportOptions {
                zcopy: zero_copy_enabled,
                ..self.spec_options()
            }),
    {
        let mut b = self;
        b.opts.zcopy = zero_copy_enabled;
        b
    }
}

} // verus!
