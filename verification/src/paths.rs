//! Per-path state: remote identity, RTT filter, congestion/pacing
//! capabilities, path-validation bookkeeping, byte counters, and the
//! anti-amplification gate.

use vstd::prelude::*;
use crate::rtt::RttEstimator;

verus! {

/// Minimum safe datagram size, in bytes: the MTU a brand-new path starts
/// with before path MTU discovery has run.
pub const MIN_MTU: u16 = 1232;

/// Remote endpoint identity (IP address and port), held as plain values so
/// the path state stays free of platform socket types. The address bytes sit
/// in the two halves in network order; an IPv4 address is carried in its
/// IPv6-mapped form.
#[derive(Clone, Copy, PartialEq, Eq, Structural, Debug)]
pub struct RemoteAddr {
    /// High 8 bytes of the 16-byte address.
    pub ip_hi: u64,
    /// Low 8 bytes of the 16-byte address.
    pub ip_lo: u64,
    /// Transport port.
    pub port: u16,
}

/// Congestion-controller capability consumed by a path. The algorithm itself
/// is pluggable and out of scope here: a path only reads window sizes and
/// requests an independent copy on migration. Implementations promise that
/// the exec methods report the values of the two spec projections.
pub trait Controller: Sized {
    /// The window the controller offers before any feedback has arrived.
    spec fn initial_window_spec(&self) -> u64;

    /// The currently adapted congestion window.
    spec fn window_spec(&self) -> u64;

    /// Window size usable before any feedback.
    fn initial_window(&self) -> (r: u64)
        ensures
            r == self.initial_window_spec(),
    ;

    /// Current window size reflecting ongoing adaptation.
    fn window(&self) -> (r: u64)
        ensures
            r == self.window_spec(),
    ;

    /// Independent copy: duplicates the current adaptation state without
    /// aliasing, so the two copies diverge from here on.
    fn clone_independent(&self) -> (r: Self)
        ensures
            r.window_spec() == self.window_spec(),
            r.initial_window_spec() == self.initial_window_spec(),
    ;
}

/// A minimal congestion controller: it reports a fixed initial window and
/// whatever current window its owner last stored, leaving the adaptation
/// policy to the owner.
#[derive(Clone, Copy, PartialEq, Eq, Structural, Debug)]
pub struct StaticWindowController {
    /// Window offered before any feedback.
    pub initial: u64,
    /// Currently adapted window.
    pub current: u64,
}

impl StaticWindowController {
    /// A controller whose current window starts at its initial window.
    pub fn new(initial: u64) -> (r: Self)
        ensures
            r.initial == initial,
            r.current == initial,
    {
        Self { initial, current: initial }
    }
}

impl Controller for StaticWindowController {
    open spec fn initial_window_spec(&self) -> u64 {
        self.initial
    }

    open spec fn window_spec(&self) -> u64 {
        self.current
    }

    fn initial_window(&self) -> (r: u64) {
        self.initial
    }

    fn window(&self) -> (r: u64) {
        self.current
    }

    fn clone_independent(&self) -> (r: Self) {
        *self
    }
}

/// Pacing capability: spreads a window of data over roughly one RTT instead
/// of bursting it. A path only ever builds one from these four seeds, so the
/// state records exactly what it was seeded with; the scheduling arithmetic
/// belongs to the (out-of-scope) pacing policy.
#[derive(Clone, Copy, PartialEq, Eq, Structural, Debug)]
pub struct Pacer {
    /// Smoothed (or initial-guess) RTT at seeding, in nanoseconds.
    pub rtt: u64,
    /// Congestion window at seeding, in bytes.
    pub window: u64,
    /// Datagram size at seeding, in bytes.
    pub mtu: u16,
    /// Timestamp of seeding, in nanoseconds.
    pub seeded_at: u64,
}

impl Pacer {
    /// Builds a fresh pacer from the four seed values.
    pub fn new(rtt: u64, window: u64, mtu: u16, now: u64) -> (r: Self)
        ensures
            r == (Pacer { rtt, window, mtu, seeded_at: now }),
    {
        Self { rtt, window, mtu, seeded_at: now }
    }
}

/// Description of a particular network path.
pub struct PathData<C: Controller> {
    /// Remote endpoint this path reaches.
    pub remote: RemoteAddr,
    /// RTT filter for this path.
    pub rtt: RttEstimator,
    /// Whether we're enabling ECN on outgoing packets.
    pub sending_ecn: bool,
    /// Congestion controller state.
    pub congestion: C,
    /// Pacing state.
    pub pacing: Pacer,
    /// Nonce of an outstanding path-validation probe, if any.
    pub challenge: Option<u64>,
    /// True once a probe has been queued for transmission but not yet sent.
    pub challenge_pending: bool,
    /// Whether we're certain the peer can both send and receive on this
    /// address: true from the start for a client path (or a server path
    /// validated out of band), false again on every migration.
    pub validated: bool,
    /// Total size of all UDP datagrams sent on this path.
    pub total_sent: u64,
    /// Total size of all UDP datagrams received on this path.
    pub total_recvd: u64,
    /// Current path MTU estimate, in bytes.
    pub mtu: u16,
}

impl<C: Controller> PathData<C> {
    /// Builds a brand-new (non-migrated) path: RTT filter and pacer seeded
    /// from the initial guess, ECN on, no outstanding challenge, counters
    /// zeroed, MTU at the minimum safe datagram size, and `validated` as the
    /// caller established it (client: always; server: only via a prior
    /// stateless mechanism).
    pub fn new(
        remote: RemoteAddr,
        initial_rtt: u64,
        congestion: C,
        now: u64,
        validated: bool,
    ) -> (r: Self)
        ensures
            r.remote == remote,
            r.rtt.latest == initial_rtt,
            r.rtt.smoothed is None,
            r.rtt.var == initial_rtt / 2,
            r.rtt.min == initial_rtt,
            r.sending_ecn,
            r.congestion == congestion,
            r.pacing == (Pacer {
                rtt: initial_rtt,
                window: congestion.initial_window_spec(),
                mtu: MIN_MTU,
                seeded_at: now,
            }),
            r.challenge is None,
            !r.challenge_pending,
            r.validated == validated,
            r.total_sent == 0,
            r.total_recvd == 0,
            r.mtu == MIN_MTU,
    {
        let pacing = Pacer::new(initial_rtt, congestion.initial_window(), MIN_MTU, now);
        PathData {
            remote,
            rtt: RttEstimator::new(initial_rtt),
            sending_ecn: true,
            pacing,
            congestion,
            challenge: None,
            challenge_pending: false,
            validated,
            total_sent: 0,
            total_recvd: 0,
            mtu: MIN_MTU,
        }
    }

    /// Builds a migrated path from a predecessor: the RTT filter is carried
    /// over verbatim and the congestion controller is cloned with its
    /// current window, but the pacer is reseeded, the counters start at
    /// zero, and the path is unvalidated regardless of the source — address
    /// ownership has not been re-proven. The MTU carries over.
    pub fn from_previous(remote: RemoteAddr, prev: &PathData<C>, now: u64) -> (r: Self)
        ensures
            r.remote == remote,
            r.rtt == prev.rtt,
            r.sending_ecn,
            r.congestion.window_spec() == prev.congestion.window_spec(),
            r.congestion.initial_window_spec() == prev.congestion.initial_window_spec(),
            r.pacing == (Pacer {
                rtt: prev.rtt.current(),
                window: prev.congestion.window_spec(),
                mtu: prev.mtu,
                seeded_at: now,
            }),
            r.challenge is None,
            !r.challenge_pending,
            !r.validated,
            r.total_sent == 0,
            r.total_recvd == 0,
            r.mtu == prev.mtu,
    {
        let congestion = prev.congestion.clone_independent();
        let smoothed_rtt: u64 = prev.rtt.get();
        let pacing = Pacer::new(smoothed_rtt, congestion.window(), prev.mtu, now);
        PathData {
            remote,
            rtt: prev.rtt,
            sending_ecn: true,
            pacing,
            congestion,
            challenge: None,
            challenge_pending: false,
            validated: false,
            total_sent: 0,
            total_recvd: 0,
            mtu: prev.mtu,
        }
    }

    /// Indicates whether we're a server that hasn't validated the peer's
    /// address and hasn't received enough data from the peer to permit
    /// sending `bytes_to_send` additional bytes: an unvalidated path may
    /// send at most three bytes for every byte received, inclusive at the
    /// boundary.
    pub fn anti_amplification_blocked(&self, bytes_to_send: u64) -> (r: bool)
        ensures
            r == (!self.validated
                && self.total_recvd * 3 < self.total_sent + bytes_to_send),
    {
        !self.validated
            && (self.total_recvd as u128) * 3 < (self.total_sent as u128) + (bytes_to_send as u128)
    }
}

} // verus!
