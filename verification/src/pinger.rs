//! The liveness probe: which addresses to ping, and when a run of failed
//! pings means that the network is of no use.

use crate::cfg::{DomainsMode, Ping};
use vstd::prelude::*;

verus! {

/// An address of the Internet Protocol, of either version, as a number.
#[derive(Debug, Clone, Copy, PartialEq, Eq, Structural)]
pub enum Ip {
    V4(u32),
    V6(u128),
}

/// An address together with a port.
#[derive(Debug, Clone, Copy, PartialEq, Eq, Structural)]
pub struct SocketAddress {
    pub ip: Ip,
    pub port: u16,
}

/// The addresses to ping, given what the resolver answered for each host
/// name in order: nothing for a name that failed or has no address, else the
/// first address or all of them, as `mode` says.
pub open spec fn gathered(mode: DomainsMode, resolved: Seq<Option<Vec<SocketAddress>>>) -> Seq<
    SocketAddress,
>
    decreases resolved.len(),
{
    if resolved.len() == 0 {
        Seq::empty()
    } else {
        let before = gathered(mode, resolved.drop_last());
        match resolved.last() {
            Some(found) => if found@.len() == 0 {
                before
            } else {
                match mode {
                    DomainsMode::FirstIpFromEach => before.push(found@[0]),
                    DomainsMode::AllIpsFromEach => before + found@,
                }
            },
            None => before,
        }
    }
}

/// The number of failures at the end of `outcomes`, where `true` is an
/// answered ping.
pub open spec fn trailing_failures(outcomes: Seq<bool>) -> nat
    decreases outcomes.len(),
{
    if outcomes.len() == 0 || outcomes.last() {
        0
    } else {
        1 + trailing_failures(outcomes.drop_last())
    }
}

/// A monitor that has seen `outcomes` and not stopped before stops on the
/// last of them: it is a failure, and with it the failures in a row reach
/// `max_errors`.
pub open spec fn stops_on_last(max_errors: u32, outcomes: Seq<bool>) -> bool {
    &&& outcomes.len() > 0
    &&& !outcomes.last()
    &&& trailing_failures(outcomes) >= max_errors
}

/// A monitor fed with `outcomes` stops on one of them.
pub open spec fn stops_within(max_errors: u32, outcomes: Seq<bool>) -> bool {
    exists|n: int| 0 < n <= outcomes.len() && stops_on_last(max_errors, #[trigger] outcomes.take(n))
}

/// Somewhere in `outcomes`, `length` failures stand in a row.
pub open spec fn has_failure_run(outcomes: Seq<bool>, length: nat) -> bool {
    exists|start: int| is_failure_run(outcomes, start, length)
}

/// From `start` on, `length` failures stand in a row in `outcomes`.
pub open spec fn is_failure_run(outcomes: Seq<bool>, start: int, length: nat) -> bool {
    &&& 0 <= start
    &&& start + length <= outcomes.len()
    &&& forall|i: int| start <= i < start + length ==> !outcomes[i]
}

/// The probe: its configuration, and the addresses it pings in turn.
#[derive(Debug, Clone, PartialEq, Eq)]
pub struct Pinger {
    pub config: Ping,
    pub ips: Vec<SocketAddress>,
}

/// What to do after a ping.
#[derive(Debug, Clone, Copy, PartialEq, Eq, Structural)]
pub enum Step {
    /// Wait `after_ms` milliseconds, then ping `address`.
    Ping { address: SocketAddress, after_ms: u64 },
    /// Too many pings in a row have failed: the network is of no use.
    Stop,
}

/// A run of the probe: the address being pinged, and the failures in a row so far.
#[derive(Debug, PartialEq, Eq)]
pub struct Monitor {
    ips: Vec<SocketAddress>,
    max_errors: u32,
    interval_ms: u64,
    timeout_ms: u32,
    index: usize,
    errors: u32,
}

impl Pinger {
    /// Picks the addresses to ping from what the resolver answered for each
    /// host name in order.
    pub fn gather_ips(mode: DomainsMode, resolved: &[Option<Vec<SocketAddress>>]) -> (ips: Vec<
        SocketAddress,
    >)
        ensures
            ips@ == gathered(mode, resolved@),
    {
        let mut ips: Vec<SocketAddress> = Vec::new();
        let mut d: usize = 0;
        while d < resolved.len()
            invariant
                d <= resolved@.len(),
                ips@ == gathered(mode, resolved@.take(d as int)),
            decreases resolved@.len() - d,
        {
            proof {
                assert(resolved@.take(d + 1).drop_last() =~= resolved@.take(d as int));
                assert(resolved@.take(d + 1).last() == resolved@[d as int]);
            }
            match &resolved[d] {
                Some(found) => {
                    if found.len() > 0 {
                        match mode {
                            DomainsMode::FirstIpFromEach => {
                                ips.push(found[0]);
                            },
                            DomainsMode::AllIpsFromEach => {
                                let ghost before = ips@;
                                let mut a: usize = 0;
                                while a < found.len()
                                    invariant
                                        a <= found@.len(),
                                        ips@ == before + found@.take(a as int),
                                    decreases found@.len() - a,
                                {
                                    ips.push(found[a]);
                                    assert(ips@ =~= before + found@.take(a + 1));
                                    a = a + 1;
                                }
                                assert(found@.take(a as int) =~= found@);
                            },
                        }
                    }
                },
                None => {},
            }
            d = d + 1;
        }
        assert(resolved@.take(d as int) =~= resolved@);
        ips
    }

    /// A probe for `config`, with the addresses picked from what the resolver
    /// answered for each configured host name in order.
    pub fn from_config(config: Ping, resolved: &[Option<Vec<SocketAddress>>]) -> (pinger: Pinger)
        ensures
            pinger.config == config,
            pinger.ips@ == gathered(config.domains.mode, resolved@),
    {
        let ips = Pinger::gather_ips(config.domains.mode, resolved);
        Pinger { config, ips }
    }

    /// Tells whether there is no address to ping.
    pub fn has_no_ips(&self) -> (yes: bool)
        ensures
            yes == (self.ips@.len() == 0),
    {
        self.ips.is_empty()
    }

    /// Replaces the addresses by those picked from a fresh answer of the resolver.
    pub fn update_ips(&mut self, resolved: &[Option<Vec<SocketAddress>>])
        ensures
            final(self).config == old(self).config,
            final(self).ips@ == gathered(old(self).config.domains.mode, resolved@),
    {
        self.ips = Pinger::gather_ips(self.config.domains.mode, resolved);
    }

    /// Begins a run over the addresses, at the first of them and with no
    /// failure counted. There is no run without an address.
    pub fn start(&self) -> (monitor: Option<Monitor>)
        ensures
            monitor is None <==> self.ips@.len() == 0,
            monitor matches Some(m) ==> {
                &&& m.ips() == self.ips@
                &&& m.max_errors() == self.config.max_errors
                &&& m.interval_ms() == self.config.interval_ms
                &&& m.timeout_ms() == self.config.timeout_ms
                &&& m.index() == 0
                &&& m.errors() == 0
            },
    {
        if self.ips.is_empty() {
            return None;
        }
        let ips = self.ips.clone();
        assert(ips@ =~= self.ips@);
        Some(
            Monitor {
                ips,
                max_errors: self.config.max_errors,
                interval_ms: self.config.interval_ms,
                timeout_ms: self.config.timeout_ms,
                index: 0,
                errors: 0,
            },
        )
    }

    /// Replays a run on recorded outcomes, `true` for an answered ping, and
    /// tells after how many pings the run stops, if it does.
    pub fn pings_until_stop(&self, outcomes: &[bool]) -> (pings: Option<usize>)
        requires
            self.ips@.len() > 0,
        ensures
            pings matches Some(n) ==> {
                &&& 0 < n <= outcomes@.len()
                &&& stops_on_last(self.config.max_errors, outcomes@.take(n as int))
                &&& forall|m: int|
                    0 < m < n ==> !stops_on_last(
                        self.config.max_errors,
                        #[trigger] outcomes@.take(m),
                    )
            },
            pings is None <==> !stops_within(self.config.max_errors, outcomes@),
    {
        let mut monitor = match self.start() {
            Some(monitor) => monitor,
            None => {
                return None;
            },
        };
        let mut i: usize = 0;
        assert(outcomes@.take(0).len() == 0);
        while i < outcomes.len()
            invariant
                i <= outcomes@.len(),
                monitor.max_errors() == self.config.max_errors,
                monitor.errors() == trailing_failures(outcomes@.take(i as int)),
                forall|m: int|
                    0 < m <= i ==> !stops_on_last(
                        self.config.max_errors,
                        #[trigger] outcomes@.take(m),
                    ),
            decreases outcomes@.len() - i,
        {
            proof {
                assert(outcomes@.take(i + 1).drop_last() =~= outcomes@.take(i as int));
                assert(outcomes@.take(i + 1).last() == outcomes@[i as int]);
            }
            match monitor.record(outcomes[i]) {
                Step::Stop => {
                    return Some(i + 1);
                },
                Step::Ping { .. } => {},
            }
            i = i + 1;
        }
        assert(outcomes@.take(i as int) =~= outcomes@);
        assert(!stops_within(self.config.max_errors, outcomes@));
        None
    }
}

impl Monitor {
    #[verifier::type_invariant]
    spec fn sound(self) -> bool {
        &&& self.index < self.ips@.len()
        &&& (self.errors == 0 || self.errors < self.max_errors)
    }

    /// The addresses that the run goes over.
    pub closed spec fn ips(&self) -> Seq<SocketAddress> {
        self.ips@
    }

    /// The number of failures in a row at which the run stops.
    pub closed spec fn max_errors(&self) -> u32 {
        self.max_errors
    }

    /// The pause after an answered ping, in milliseconds.
    pub closed spec fn interval_ms(&self) -> u64 {
        self.interval_ms
    }

    /// How long to wait for the answer to a ping, in milliseconds.
    pub closed spec fn timeout_ms(&self) -> u32 {
        self.timeout_ms
    }

    /// The position of the address being pinged.
    pub closed spec fn index(&self) -> int {
        self.index as int
    }

    /// The failures in a row so far.
    pub closed spec fn errors(&self) -> int {
        self.errors as int
    }

    /// How long to wait for the answer to each ping, in milliseconds.
    pub fn timeout(&self) -> (timeout_ms: u32)
        ensures
            timeout_ms == self.timeout_ms(),
    {
        self.timeout_ms
    }

    /// The address being pinged.
    pub fn current(&self) -> (address: SocketAddress)
        ensures
            0 <= self.index() < self.ips().len(),
            address == self.ips()[self.index()],
    {
        proof {
            use_type_invariant(self);
        }
        self.ips[self.index]
    }

    /// Takes note of a ping, answered or failed, and says what to do next.
    ///
    /// After an answer no failure is counted any more, and the same address
    /// is pinged again after the pause. After a failure that brings the
    /// failures in a row to `max_errors` the run stops. After any other
    /// failure one more is counted, and the next address, the first after the
    /// last, is pinged at once.
    pub fn record(&mut self, success: bool) -> (step: Step)
        ensures
            final(self).ips() == old(self).ips(),
            final(self).max_errors() == old(self).max_errors(),
            final(self).interval_ms() == old(self).interval_ms(),
            final(self).timeout_ms() == old(self).timeout_ms(),
            0 <= old(self).index() < old(self).ips().len(),
            success ==> {
                &&& final(self).errors() == 0
                &&& final(self).index() == old(self).index()
                &&& step == (Step::Ping {
                    address: old(self).ips()[old(self).index()],
                    after_ms: old(self).interval_ms(),
                })
            },
            !success && old(self).errors() + 1 >= old(self).max_errors() ==> {
                &&& step == Step::Stop
                &&& final(self).errors() == old(self).errors()
                &&& final(self).index() == old(self).index()
            },
            !success && old(self).errors() + 1 < old(self).max_errors() ==> {
                &&& final(self).errors() == old(self).errors() + 1
                &&& final(self).index() == if old(self).index() + 1 < old(self).ips().len() {
                    old(self).index() + 1
                } else {
                    0
                }
                &&& step == (Step::Ping {
                    address: old(self).ips()[final(self).index()],
                    after_ms: 0,
                })
            },
    {
        proof {
            use_type_invariant(&*self);
        }
        if success {
            self.errors = 0;
            return Step::Ping { address: self.ips[self.index], after_ms: self.interval_ms };
        }
        if self.max_errors == 0 || self.errors + 1 >= self.max_errors {
            return Step::Stop;
        }
        self.errors = self.errors + 1;
        let len: usize = self.ips.len();
        let next: usize = if self.index + 1 < len {
            self.index + 1
        } else {
            0
        };
        self.index = next;
        Step::Ping { address: self.ips[self.index], after_ms: 0 }
    }
}

/// Where the failures at the end of `outcomes` begin, failures stand in a row to the end.
pub proof fn lemma_trailing_failures(outcomes: Seq<bool>)
    ensures
        trailing_failures(outcomes) <= outcomes.len(),
        is_failure_run(
            outcomes,
            outcomes.len() - trailing_failures(outcomes),
            trailing_failures(outcomes),
        ),
    decreases outcomes.len(),
{
    if outcomes.len() > 0 && !outcomes.last() {
        let rest = outcomes.drop_last();
        lemma_trailing_failures(rest);
        let start = outcomes.len() - trailing_failures(outcomes);
        assert forall|i: int| start <= i < outcomes.len() implies !outcomes[i] by {
            if i < rest.len() {
                assert(rest[i] == outcomes[i]);
            }
        }
    }
}

/// Failures that stand in a row to the end of `outcomes` are counted among
/// the failures at its end.
pub proof fn lemma_run_at_end(outcomes: Seq<bool>, length: nat)
    requires
        is_failure_run(outcomes, outcomes.len() - length, length),
    ensures
        trailing_failures(outcomes) >= length,
    decreases length,
{
    if length > 0 {
        assert(!outcomes[outcomes.len() - 1]);
        let rest = outcomes.drop_last();
        assert(is_failure_run(rest, rest.len() - (length - 1), (length - 1) as nat)) by {
            assert forall|i: int| rest.len() - (length - 1) <= i < rest.len() implies !rest[i] by {
                assert(rest[i] == outcomes[i]);
            }
        }
        lemma_run_at_end(rest, (length - 1) as nat);
    }
}

/// A run of the probe ends exactly when as many pings in a row fail as the
/// configuration allows, whatever answered and failed pings came before.
///
/// A limit of zero failures is met before any ping has failed, but a run
/// ends on a failed ping only: with that limit the statement holds of the
/// outcomes that hold a failure, and of no others.
pub proof fn lemma_stops_iff_failure_run(max_errors: u32, outcomes: Seq<bool>)
    requires
        max_errors >= 1 || has_failure_run(outcomes, 1),
    ensures
        stops_within(max_errors, outcomes) <==> has_failure_run(outcomes, max_errors as nat),
{
    if stops_within(max_errors, outcomes) {
        let n = choose|n: int|
            0 < n <= outcomes.len() && stops_on_last(max_errors, #[trigger] outcomes.take(n));
        let seen = outcomes.take(n);
        lemma_trailing_failures(seen);
        let start = n - max_errors;
        assert(is_failure_run(outcomes, start, max_errors as nat)) by {
            assert forall|i: int| start <= i < start + max_errors implies !outcomes[i] by {
                assert(seen[i] == outcomes[i]);
            }
        }
    }
    if has_failure_run(outcomes, max_errors as nat) {
        let length: nat = if max_errors >= 1 {
            max_errors as nat
        } else {
            1
        };
        let start = choose|start: int| is_failure_run(outcomes, start, length);
        let n = start + length;
        let seen = outcomes.take(n);
        assert(is_failure_run(seen, seen.len() - length, length)) by {
            assert forall|i: int| seen.len() - length <= i < seen.len() implies !seen[i] by {
                assert(seen[i] == outcomes[i]);
            }
        }
        lemma_run_at_end(seen, length);
        assert(!seen.last()) by {
            assert(seen[n - 1] == outcomes[n - 1]);
        }
        assert(stops_on_last(max_errors, outcomes.take(n)));
    }
}

/// With a limit of zero failures, a run that sees no failed ping goes on,
/// though no failure at all was asked for.
pub proof fn lemma_no_limit_needs_a_failure(outcomes: Seq<bool>)
    requires
        !has_failure_run(outcomes, 1),
    ensures
        !stops_within(0, outcomes),
        has_failure_run(outcomes, 0),
{
    assert(is_failure_run(outcomes, 0, 0));
    if stops_within(0, outcomes) {
        let n = choose|n: int| 0 < n <= outcomes.len() && stops_on_last(0, #[trigger] outcomes.take(n));
        assert(outcomes.take(n)[n - 1] == outcomes[n - 1]);
        assert(is_failure_run(outcomes, n - 1, 1));
    }
}

} // verus!
