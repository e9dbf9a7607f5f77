use vstd::prelude::*;

use rand::rngs::StdRng;

use crate::config::{Config, Pacing};
use crate::packet::{build_ipv4_packet, packet_spec, sample_fields, PacketFields};

verus! {

/// Where a run stands.
#[derive(Debug, Clone, Copy, PartialEq, Eq, Structural)]
pub enum Phase {
    Idle,
    Running,
    Stopped,
}

/// Datagrams and bytes handed to the network so far.
#[derive(Debug, Clone, Copy, PartialEq, Eq, Structural)]
pub struct Stats {
    pub packets: u64,
    pub bytes: u64,
}

/// What happened since the last step.
#[derive(Debug, Clone, Copy, PartialEq, Eq, Structural)]
pub enum Event {
    /// The run begins.
    Start,
    /// A datagram of this many bytes was sent.
    Sent(u16),
    /// Sending a datagram failed; it is not sent again.
    SendFailed,
    /// The wait between two datagrams is over.
    Woke,
}

/// What the caller does next.
#[derive(Debug, Clone, Copy, PartialEq, Eq, Structural)]
pub enum Action {
    /// Build and send a fresh datagram.
    Send,
    /// Wait this many nanoseconds, then report `Woke`.
    Sleep(u64),
    /// The run is over; the totals are final.
    Stop,
}

/// `a + b`, wrapping around at 2^64 as an atomic counter does.
pub open spec fn wrapping_add_u64(a: u64, b: u64) -> u64 {
    if a + b <= u64::MAX {
        (a + b) as u64
    } else {
        (a + b - u64::MAX - 1) as u64
    }
}

/// The statistics after one more datagram of `len` bytes.
pub open spec fn count_sent(s: Stats, len: u16) -> Stats {
    Stats { packets: wrapping_add_u64(s.packets, 1), bytes: wrapping_add_u64(s.bytes, len as u64) }
}

/// One send stream: its configuration, its statistics, and the buffer that
/// every datagram is laid out in.
pub struct Transmitter {
    pub config: Config,
    pub phase: Phase,
    pub stats: Stats,
    pub buffer: Vec<u8>,
}

impl Transmitter {
    pub open spec fn wf(&self) -> bool {
        &&& self.config.wf()
        &&& self.config.count matches Some(n) ==> self.stats.packets <= n
        &&& (self.phase is Running && self.config.count is Some) ==> self.stats.packets
            < self.config.count->0
    }

    /// The run must end: cancelled, enough datagrams sent, or its time is up.
    pub open spec fn stop_due(&self, stats: Stats, elapsed_ns: u64, cancelled: bool) -> bool {
        ||| cancelled
        ||| self.config.count matches Some(n) && stats.packets >= n
        ||| self.config.duration_ns matches Some(d) && elapsed_ns >= d
    }

    /// What to do after a datagram went out or failed, and did not end the run.
    pub open spec fn pace(&self) -> Action {
        match self.config.pacing {
            Pacing::Flood => Action::Send,
            Pacing::Interval(n) => Action::Sleep(n),
        }
    }

    /// A timed run: interval pacing of `p` nanoseconds, a time limit of `d`,
    /// no count limit. When every send succeeds, nothing cancels and time
    /// passes only while waiting, the sends happen at `0, p, 2p, ...`. Each
    /// of the first `n = ceil(d / p)` of them comes before the limit, so the
    /// run goes on after it; at `n * p` the run stops, and that moment lies
    /// at or after `d` but less than one interval past it.
    pub proof fn lemma_timed_run(&self, stats: Stats, p: u64, d: u64)
        requires
            self.config.pacing == Pacing::Interval(p),
            p > 0,
            self.config.count is None,
            self.config.duration_ns == Some(d),
        ensures
            ({
                let n = (d + p - 1) / p as int;
                &&& forall|k: int|
                    0 <= k < n ==> #[trigger] (k * p) < d && !self.stop_due(stats, (k * p) as u64, false)
                &&& d <= n * p < d + p
                &&& n * p <= u64::MAX ==> self.stop_due(stats, (n * p) as u64, false)
            }),
    {
        let n = (d + p - 1) / p as int;
        let r = (d + p - 1) % p as int;
        vstd::arithmetic::div_mod::lemma_fundamental_div_mod((d + p - 1) as int, p as int);
        assert(0 <= r < p);
        assert(n * p == d + p - 1 - r) by (nonlinear_arith)
            requires
                d + p - 1 == p * n + r,
        ;
        assert forall|k: int| 0 <= k < n implies #[trigger] (k * p) < d && !self.stop_due(
            stats,
            (k * p) as u64,
            false,
        ) by {
            assert(k * p <= (n - 1) * p) by (nonlinear_arith)
                requires
                    k <= n - 1,
                    p > 0,
            ;
            assert((n - 1) * p == n * p - p) by (nonlinear_arith);
            assert(0 <= k * p) by (nonlinear_arith)
                requires
                    k >= 0,
                    p > 0,
            ;
        }
    }

    pub fn new(config: Config) -> (r: Self)
        requires
            config.wf(),
        ensures
            r.wf(),
            r.config == config,
            r.phase == Phase::Idle,
            r.stats == (Stats { packets: 0, bytes: 0 }),
    {
        Transmitter { config, phase: Phase::Idle, stats: Stats { packets: 0, bytes: 0 }, buffer: Vec::new() }
    }

    fn is_stop_due(&self, stats: Stats, elapsed_ns: u64, cancelled: bool) -> (r: bool)
        ensures
            r == self.stop_due(stats, elapsed_ns, cancelled),
    {
        let by_count = match self.config.count {
            Some(n) => stats.packets >= n as u64,
            None => false,
        };
        let by_time = match self.config.duration_ns {
            Some(d) => elapsed_ns >= d,
            None => false,
        };
        cancelled || by_count || by_time
    }

    /// Advances the run by one event. `elapsed_ns` is the time since the run
    /// began and `cancelled` whether a stop was requested; both are checked
    /// at every step, after a send as well as before one. Any event starts an
    /// idle run; a stopped run stays stopped.
    pub fn step(&mut self, event: Event, elapsed_ns: u64, cancelled: bool) -> (r: Action)
        requires
            old(self).wf(),
        ensures
            final(self).wf(),
            final(self).config == old(self).config,
            final(self).buffer == old(self).buffer,
            old(self).phase is Stopped ==> r == Action::Stop && final(self).stats == old(self).stats
                && final(self).phase == Phase::Stopped,
            old(self).phase is Running ==> final(self).stats == match event {
                Event::Sent(len) => count_sent(old(self).stats, len),
                _ => old(self).stats,
            },
            old(self).phase is Idle ==> final(self).stats == old(self).stats,
            !(old(self).phase is Stopped) ==> if old(self).stop_due(
                final(self).stats,
                elapsed_ns,
                cancelled,
            ) {
                r == Action::Stop && final(self).phase == Phase::Stopped
            } else {
                final(self).phase == Phase::Running && r == if old(self).phase is Running && (
                event is Sent || event is SendFailed) {
                    old(self).pace()
                } else {
                    Action::Send
                }
            },
    {
        match self.phase {
            Phase::Stopped => Action::Stop,
            Phase::Idle => {
                if self.is_stop_due(self.stats, elapsed_ns, cancelled) {
                    self.phase = Phase::Stopped;
                    Action::Stop
                } else {
                    self.phase = Phase::Running;
                    Action::Send
                }
            },
            Phase::Running => {
                let sent = match event {
                    Event::Sent(_) => true,
                    Event::SendFailed => true,
                    _ => false,
                };
                if let Event::Sent(len) = event {
                    self.stats = Stats {
                        packets: self.stats.packets.wrapping_add(1),
                        bytes: self.stats.bytes.wrapping_add(len as u64),
                    };
                }
                if self.is_stop_due(self.stats, elapsed_ns, cancelled) {
                    self.phase = Phase::Stopped;
                    Action::Stop
                } else if sent {
                    match self.config.pacing {
                        Pacing::Flood => Action::Send,
                        Pacing::Interval(n) => Action::Sleep(n),
                    }
                } else {
                    Action::Send
                }
            },
        }
    }

    /// Draws the values of the next datagram and lays it out in the buffer.
    pub fn prepare(&mut self, rng: &mut StdRng) -> (f: PacketFields)
        requires
            old(self).wf(),
        ensures
            final(self).wf(),
            final(self).config == old(self).config,
            final(self).phase == old(self).phase,
            final(self).stats == old(self).stats,
            final(self).config.allows(f),
            final(self).buffer@ == packet_spec(&final(self).config, f),
    {
        let f = sample_fields(&self.config, rng);
        build_ipv4_packet(&self.config, &f, &mut self.buffer);
        f
    }

    /// The datagram laid out last.
    pub fn packet(&self) -> (r: &[u8])
        ensures
            r@ == self.buffer@,
    {
        self.buffer.as_slice()
    }
}

} // verus!
