//! Startup-time service configuration: timeouts, keep-alive policy,
//! concurrency bound and buffer capacities.
//!
//! The configuration is built once before the listener starts accepting
//! and applies uniformly to every connection; nothing here is mutable at
//! runtime. Durations are plain millisecond counts; `None` disables the
//! corresponding timeout.

use vstd::prelude::*;

verus! {

/// The phase of a connection that a timeout bounds.
#[derive(Clone, Copy, PartialEq, Eq, Structural, Debug)]
pub enum Phase {
    /// Waiting for the first byte of a request.
    StartReadRequest,
    /// Reading the rest of a request once it has started.
    ReadRequest,
    /// Writing the response.
    WriteResponse,
}

/// The named timeouts, in milliseconds; `None` disables one.
pub struct Timeouts {
    /// Time allowed until the first byte of a request arrives.
    pub start_read_request: Option<u64>,
    /// Time allowed to finish reading a request once started.
    pub read_request: Option<u64>,
    /// Time allowed to write a response.
    pub write_response: Option<u64>,
}

/// The whole service configuration, fixed for the lifetime of the listener.
pub struct ServiceConfig {
    /// The per-phase timeouts.
    pub timeouts: Timeouts,
    /// Whether a connection may serve several sequential requests.
    pub keep_alive: bool,
    /// Number of handler slots: at most this many connections are served
    /// concurrently.
    pub pool_size: usize,
    /// Fixed capacity of the per-connection read buffer, in bytes.
    pub read_buffer_size: usize,
    /// Fixed capacity of the per-connection write buffer, in bytes.
    pub write_buffer_size: usize,
}

impl Timeouts {
    /// The timeout that bounds `phase`, as the configuration states it.
    pub open spec fn spec_limit_for(&self, phase: Phase) -> Option<u64> {
        match phase {
            Phase::StartReadRequest => self.start_read_request,
            Phase::ReadRequest => self.read_request,
            Phase::WriteResponse => self.write_response,
        }
    }

    /// Look up the timeout that bounds `phase`.
    pub fn limit_for(&self, phase: Phase) -> (r: Option<u64>)
        ensures
            r == self.spec_limit_for(phase),
    {
        match phase {
            Phase::StartReadRequest => self.start_read_request,
            Phase::ReadRequest => self.read_request,
            Phase::WriteResponse => self.write_response,
        }
    }
}

impl ServiceConfig {
    /// A configuration is well formed when it grants at least one handler
    /// slot and non-empty connection buffers.
    pub open spec fn wf(&self) -> bool {
        self.pool_size >= 1 && self.read_buffer_size >= 1 && self.write_buffer_size >= 1
    }

    /// Build a configuration.
    pub fn new(
        timeouts: Timeouts,
        keep_alive: bool,
        pool_size: usize,
        read_buffer_size: usize,
        write_buffer_size: usize,
    ) -> (c: ServiceConfig)
        requires
            pool_size >= 1,
            read_buffer_size >= 1,
            write_buffer_size >= 1,
        ensures
            c.wf(),
            c.timeouts == timeouts,
            c.keep_alive == keep_alive,
            c.pool_size == pool_size,
            c.read_buffer_size == read_buffer_size,
            c.write_buffer_size == write_buffer_size,
    {
        ServiceConfig { timeouts, keep_alive, pool_size, read_buffer_size, write_buffer_size }
    }
}

/// The instant at which a phase that starts at `now` under timeout
/// `limit` expires, saturating at the largest representable instant.
pub fn deadline(now: u64, limit: u64) -> (d: u64)
    ensures
        d == if now + limit <= u64::MAX {
            (now + limit) as u64
        } else {
            u64::MAX
        },
        d >= now,
{
    if limit <= u64::MAX - now {
        now + limit
    } else {
        u64::MAX
    }
}

/// Whether a deadline has expired at instant `now`.
pub fn expired(now: u64, d: u64) -> (r: bool)
    ensures
        r == (now >= d),
{
    now >= d
}

} // verus!
