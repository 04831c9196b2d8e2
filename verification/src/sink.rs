//! The resolve-then-send state machine and its cooperative offer protocol.
//!
//! The machine owns the resolution lifecycle of one destination: starting a
//! hostname lookup, backing off after a failed lookup, caching the resolved
//! address forever once one lookup succeeds, and deciding what each offered
//! payload becomes. All outside work — the asynchronous lookup itself, the
//! backoff timer, the socket send — is performed by the surrounding runtime,
//! which reports each outcome back as a [`PollEvent`] and carries out the
//! [`Directive`] or [`OfferStep`] the machine returns.

use vstd::prelude::*;

use crate::address::Destination;
use crate::address::IpAddress;
use crate::backoff::Backoff;

verus! {

/// Default backoff starting delay, in milliseconds.
pub const DEFAULT_BACKOFF_START_MILLIS: u64 = 2;
/// Default backoff growth factor.
pub const DEFAULT_BACKOFF_FACTOR: u64 = 250;
/// Default backoff ceiling, in milliseconds.
pub const DEFAULT_BACKOFF_MAX_MILLIS: u64 = 60_000;

/// Resolution lifecycle of the sink: exactly one variant is active at a
/// time, and `ResolvedDns` is terminal for the life of the machine.
#[derive(Clone, Copy, PartialEq, Eq, Structural, Debug)]
pub enum ResolveState {
    /// No resolution in flight; the next step starts one.
    Initializing,
    /// An asynchronous hostname lookup is outstanding.
    ResolvingDns,
    /// A usable destination address, cached indefinitely once obtained.
    ResolvedDns(Destination),
    /// Waiting out a delay before retrying resolution.
    Backoff,
}

/// The observed outcome of whatever outside work the current state awaits.
#[derive(Clone, PartialEq, Eq, Debug)]
pub enum PollEvent {
    /// No outstanding lookup or timer to report on
    /// (`Initializing`, `ResolvedDns`).
    Wake,
    /// The pending lookup completed with these addresses, in resolver order.
    LookupDone(Vec<IpAddress>),
    /// The pending lookup completed with an error.
    LookupFailed,
    /// The pending lookup has not completed yet.
    LookupPending,
    /// The pending backoff timer elapsed.
    TimerElapsed,
    /// The pending backoff timer has not elapsed yet.
    TimerPending,
}

/// What the runtime must do after one `advance` step.
#[derive(Clone, Copy, PartialEq, Eq, Structural, Debug)]
pub enum Directive {
    /// Start an asynchronous lookup of the sink's host, then poll it and
    /// advance again.
    StartLookup,
    /// Start a timer for the given delay in milliseconds, then poll it and
    /// advance again.
    StartTimer(u64),
    /// The state changed with no new outside work: advance again at once.
    Continue,
    /// Resolution is suspended on pending outside work: report not ready.
    NotReady,
    /// Resolution is complete: payloads go to this destination.
    Ready(Destination),
}

/// The outcome of one step of offering a payload to the sink.
#[derive(Clone, PartialEq, Eq, Debug)]
pub enum OfferStep {
    /// The payload was handed to the socket; the offer is complete.
    Accepted,
    /// Resolution is still pending: the caller keeps the payload, unchanged,
    /// and offers it again later.
    Deferred(Vec<u8>),
    /// The sink has failed terminally; the payload stream ends here.
    Fatal,
    /// The destination is resolved: send the payload there, then report the
    /// outcome through `record_send`.
    Send(Vec<u8>, Destination),
    /// Start a lookup of the sink's host, poll it, and offer again.
    StartLookup(Vec<u8>),
    /// Start a timer for the given delay in milliseconds, poll it, and offer
    /// again.
    StartTimer(Vec<u8>, u64),
    /// The state changed with no new outside work: offer again at once.
    Poll(Vec<u8>),
}

/// Which events the protocol allows a state to be stepped with: each state
/// is answerable only for the outcome of the outside work it awaits.
pub open spec fn event_fits(st: ResolveState, e: PollEvent) -> bool {
    match st {
        ResolveState::Initializing => e is Wake,
        ResolveState::ResolvingDns => e is LookupDone || e is LookupFailed || e is LookupPending,
        ResolveState::ResolvedDns(_) => e is Wake,
        ResolveState::Backoff => e is TimerElapsed || e is TimerPending,
    }
}

/// An event that reports a failed resolution attempt: a lookup error, or a
/// lookup that completed with no addresses at all.
pub open spec fn is_failure_event(e: PollEvent) -> bool {
    ||| e is LookupFailed
    ||| (e matches PollEvent::LookupDone(addrs) && addrs@.len() == 0)
}

/// The total transition table of the resolution machine: one step from
/// (state, backoff, event) to (state, backoff, directive).
///
/// - `Initializing` always starts a lookup.
/// - A lookup that returns at least one address resolves to the first, in
///   resolver order, paired with the configured port.
/// - A lookup error, or an empty result, advances the backoff generator and
///   starts a timer for the delay it produced.
/// - `ResolvedDns` is terminal: the cached address is reported ready forever.
/// - An elapsed backoff timer returns to `Initializing`.
/// - Pending work leaves the machine unchanged and reports not ready.
pub open spec fn spec_advance(st: ResolveState, b: Backoff, port: u16, e: PollEvent) -> (
    ResolveState,
    Backoff,
    Directive,
) {
    match st {
        ResolveState::Initializing => (ResolveState::ResolvingDns, b, Directive::StartLookup),
        ResolveState::ResolvingDns => match e {
            PollEvent::LookupDone(addrs) => if addrs@.len() > 0 {
                let dest = Destination { ip: addrs@[0], port };
                (ResolveState::ResolvedDns(dest), b, Directive::Ready(dest))
            } else {
                (ResolveState::Backoff, b.spec_next(), Directive::StartTimer(b.spec_peek()))
            },
            PollEvent::LookupFailed => (
                ResolveState::Backoff,
                b.spec_next(),
                Directive::StartTimer(b.spec_peek()),
            ),
            _ => (st, b, Directive::NotReady),
        },
        ResolveState::ResolvedDns(dest) => (st, b, Directive::Ready(dest)),
        ResolveState::Backoff => match e {
            PollEvent::TimerElapsed => (ResolveState::Initializing, b, Directive::Continue),
            _ => (st, b, Directive::NotReady),
        },
    }
}

/// One step of the offer protocol on top of `spec_advance`: a failed sink
/// answers `Fatal` and changes nothing; otherwise the resolution directive
/// decides what becomes of the payload, which is carried through unchanged
/// in every case that keeps it.
pub open spec fn spec_offer_step(
    st: ResolveState,
    b: Backoff,
    port: u16,
    failed: bool,
    payload: Vec<u8>,
    e: PollEvent,
) -> (ResolveState, Backoff, OfferStep) {
    if failed {
        (st, b, OfferStep::Fatal)
    } else {
        let (st2, b2, d) = spec_advance(st, b, port, e);
        let step = match d {
            Directive::StartLookup => OfferStep::StartLookup(payload),
            Directive::StartTimer(ms) => OfferStep::StartTimer(payload, ms),
            Directive::Continue => OfferStep::Poll(payload),
            Directive::NotReady => OfferStep::Deferred(payload),
            Directive::Ready(dest) => OfferStep::Send(payload, dest),
        };
        (st2, b2, step)
    }
}

/// The resolve-then-send machine for one configured destination.
///
/// The socket itself is bound and driven by the surrounding runtime; the
/// machine decides where each datagram goes and whether the sink is still
/// alive.
pub struct UdpSink {
    /// The hostname to resolve. Immutable for the life of the machine.
    pub host: String,
    /// The destination port. Immutable for the life of the machine.
    pub port: u16,
    /// Current resolution state.
    pub state: ResolveState,
    /// Backoff cursor for spacing resolution retries.
    pub backoff: Backoff,
    /// Set once a socket send has failed; never cleared.
    pub failed: bool,
}

/// The default backoff progression: an effective first retry of 500 ms,
/// escalating to a one-minute ceiling.
pub open spec fn spec_fresh_backoff() -> Backoff {
    Backoff {
        current_millis: DEFAULT_BACKOFF_START_MILLIS,
        factor: DEFAULT_BACKOFF_FACTOR,
        max_millis: DEFAULT_BACKOFF_MAX_MILLIS,
    }
}

/// Construct the default backoff generator.
pub fn fresh_backoff() -> (r: Backoff)
    ensures
        r == spec_fresh_backoff(),
        r.wf(),
{
    Backoff::new(DEFAULT_BACKOFF_START_MILLIS, DEFAULT_BACKOFF_FACTOR, DEFAULT_BACKOFF_MAX_MILLIS)
}

impl UdpSink {
    /// A machine is well formed when its backoff generator is.
    pub open spec fn wf(self) -> bool {
        self.backoff.wf()
    }

    /// A fresh machine for the given endpoint, with the default backoff
    /// progression, in `Initializing`, not failed.
    pub fn new(host: String, port: u16) -> (r: Self)
        ensures
            r.host == host,
            r.port == port,
            r.state == ResolveState::Initializing,
            r.backoff == spec_fresh_backoff(),
            !r.failed,
            r.wf(),
    {
        UdpSink { host, port, state: ResolveState::Initializing, backoff: fresh_backoff(), failed: false }
    }

    /// A fresh machine with an explicitly configured backoff progression.
    pub fn new_with_backoff(host: String, port: u16, backoff: Backoff) -> (r: Self)
        ensures
            r.host == host,
            r.port == port,
            r.state == ResolveState::Initializing,
            r.backoff == backoff,
            !r.failed,
    {
        UdpSink { host, port, state: ResolveState::Initializing, backoff, failed: false }
    }

    /// Drive the resolution machine one step with the observed outcome of
    /// its outstanding outside work, exactly as `spec_advance` says.
    pub fn advance(&mut self, event: PollEvent) -> (r: Directive)
        requires
            event_fits(old(self).state, event),
        ensures
            ({
                let (st2, b2, d) = spec_advance(
                    old(self).state,
                    old(self).backoff,
                    old(self).port,
                    event,
                );
                &&& final(self).state == st2
                &&& final(self).backoff == b2
                &&& r == d
            }),
            final(self).host == old(self).host,
            final(self).port == old(self).port,
            final(self).failed == old(self).failed,
            final(self).wf() == old(self).wf(),
    {
        match self.state {
            ResolveState::Initializing => {
                self.state = ResolveState::ResolvingDns;
                Directive::StartLookup
            },
            ResolveState::ResolvingDns => match event {
                PollEvent::LookupDone(addrs) => {
                    if addrs.len() > 0 {
                        let dest = Destination { ip: addrs[0], port: self.port };
                        self.state = ResolveState::ResolvedDns(dest);
                        Directive::Ready(dest)
                    } else {
                        let delay = self.backoff.next_delay_millis();
                        self.state = ResolveState::Backoff;
                        Directive::StartTimer(delay)
                    }
                },
                PollEvent::LookupFailed => {
                    let delay = self.backoff.next_delay_millis();
                    self.state = ResolveState::Backoff;
                    Directive::StartTimer(delay)
                },
                _ => Directive::NotReady,
            },
            ResolveState::ResolvedDns(dest) => Directive::Ready(dest),
            ResolveState::Backoff => match event {
                PollEvent::TimerElapsed => {
                    self.state = ResolveState::Initializing;
                    Directive::Continue
                },
                _ => Directive::NotReady,
            },
        }
    }

    /// Offer one payload: a failed sink answers `Fatal` at once; otherwise
    /// the machine advances one step and the payload is carried through
    /// unchanged, to be sent, deferred, or offered again.
    pub fn offer(&mut self, payload: Vec<u8>, event: PollEvent) -> (r: OfferStep)
        requires
            old(self).failed || event_fits(old(self).state, event),
        ensures
            ({
                let (st2, b2, step) = spec_offer_step(
                    old(self).state,
                    old(self).backoff,
                    old(self).port,
                    old(self).failed,
                    payload,
                    event,
                );
                &&& final(self).state == st2
                &&& final(self).backoff == b2
                &&& r == step
            }),
            final(self).host == old(self).host,
            final(self).port == old(self).port,
            final(self).failed == old(self).failed,
            final(self).wf() == old(self).wf(),
    {
        if self.failed {
            OfferStep::Fatal
        } else {
            match self.advance(event) {
                Directive::StartLookup => OfferStep::StartLookup(payload),
                Directive::StartTimer(ms) => OfferStep::StartTimer(payload, ms),
                Directive::Continue => OfferStep::Poll(payload),
                Directive::NotReady => OfferStep::Deferred(payload),
                Directive::Ready(dest) => OfferStep::Send(payload, dest),
            }
        }
    }

    /// Record the outcome of the socket send that an `OfferStep::Send`
    /// directed: a successful send accepts the payload; a failed send is
    /// terminal for this sink and is never retried.
    pub fn record_send(&mut self, sent_ok: bool) -> (r: OfferStep)
        requires
            !old(self).failed,
            old(self).state is ResolvedDns,
        ensures
            sent_ok ==> r == OfferStep::Accepted && !final(self).failed,
            !sent_ok ==> r == OfferStep::Fatal && final(self).failed,
            final(self).state == old(self).state,
            final(self).backoff == old(self).backoff,
            final(self).host == old(self).host,
            final(self).port == old(self).port,
            final(self).wf() == old(self).wf(),
    {
        if sent_ok {
            OfferStep::Accepted
        } else {
            self.failed = true;
            OfferStep::Fatal
        }
    }

    /// Complete pending work. This transport buffers nothing beyond the one
    /// payload in flight, so completion is immediate and always ready.
    pub fn flush(&self) -> (r: bool)
        ensures
            r,
    {
        true
    }
}

/// Iterated transition: the machine state after a whole sequence of events.
pub open spec fn spec_run(st: ResolveState, b: Backoff, port: u16, events: Seq<PollEvent>) -> (
    ResolveState,
    Backoff,
)
    decreases events.len(),
{
    if events.len() == 0 {
        (st, b)
    } else {
        let (st2, b2, d) = spec_advance(st, b, port, events[0]);
        spec_run(st2, b2, port, events.drop_first())
    }
}

/// Once resolution has succeeded the machine is settled: for every event the
/// protocol allows in `ResolvedDns`, one more step changes nothing, starts
/// no lookup and no timer, and reports the same cached address ready.
pub proof fn lemma_resolved_is_terminal(
    st: ResolveState,
    b: Backoff,
    port: u16,
    e: PollEvent,
    dest: Destination,
)
    requires
        st == ResolveState::ResolvedDns(dest),
        event_fits(st, e),
    ensures
        spec_advance(st, b, port, e) == (st, b, Directive::Ready(dest)),
{
}

/// Reaching `ResolvedDns` is permanent: however many further allowed events
/// the runtime reports, the machine still holds the same cached address and
/// the backoff cursor never moves again.
pub proof fn lemma_resolved_is_permanent(
    st: ResolveState,
    b: Backoff,
    port: u16,
    events: Seq<PollEvent>,
    dest: Destination,
)
    requires
        st == ResolveState::ResolvedDns(dest),
        forall|i: int| 0 <= i < events.len() ==> event_fits(st, #[trigger] events[i]),
    ensures
        spec_run(st, b, port, events) == (st, b),
        // and since the machine never leaves (st, b), every step of the run
        // answers with the cached address: no new lookup, no timer.
        forall|i: int|
            0 <= i < events.len() ==> spec_advance(st, b, port, #[trigger] events[i]).2
                == Directive::Ready(dest),
    decreases events.len(),
{
    assert forall|i: int|
        0 <= i < events.len() implies spec_advance(st, b, port, #[trigger] events[i]).2
        == Directive::Ready(dest) by {
        lemma_resolved_is_terminal(st, b, port, events[i], dest);
    }
    if events.len() > 0 {
        assert(event_fits(st, events[0]));
        lemma_resolved_is_terminal(st, b, port, events[0], dest);
        assert(forall|i: int|
            0 <= i < events.drop_first().len() ==> event_fits(st, #[trigger] events.drop_first()[i]));
        lemma_resolved_is_permanent(st, b, port, events.drop_first(), dest);
    }
}

/// Consecutive resolution failures back off with non-decreasing delays that
/// never exceed the ceiling: a failure starts a timer, the elapsed timer
/// restarts the lookup, and a second failure starts a timer for at least as
/// long, still within the ceiling.
pub proof fn lemma_failure_delays_monotone(
    st: ResolveState,
    b: Backoff,
    port: u16,
    e1: PollEvent,
    e2: PollEvent,
)
    requires
        b.wf(),
        st is ResolvingDns,
        is_failure_event(e1),
        is_failure_event(e2),
    ensures
        ({
            let (st1, b1, d1) = spec_advance(st, b, port, e1);
            let (st2, b2, d2) = spec_advance(st1, b1, port, PollEvent::TimerElapsed);
            let (st3, b3, d3) = spec_advance(st2, b2, port, PollEvent::Wake);
            let (st4, b4, d4) = spec_advance(st3, b3, port, e2);
            &&& st1 is Backoff
            &&& d1 == Directive::StartTimer(b.spec_peek())
            &&& st2 is Initializing
            &&& st3 is ResolvingDns
            &&& st4 is Backoff
            &&& d4 == Directive::StartTimer(b1.spec_peek())
            &&& b.spec_peek() <= b1.spec_peek()
            &&& b.spec_peek() <= b.max_millis
            &&& b1.spec_peek() <= b.max_millis
        }),
{
    crate::backoff::lemma_backoff_monotone(b);
    crate::backoff::lemma_backoff_bounded(b.spec_next());
}

/// After a send failure the sink never recovers: whatever payload is offered
/// and whatever event the runtime reports, the answer is `Fatal` and the
/// machine does not change — so the failure recurs on every later offer.
pub proof fn lemma_send_failure_is_permanent(
    st: ResolveState,
    b: Backoff,
    port: u16,
    payload: Vec<u8>,
    e: PollEvent,
)
    ensures
        spec_offer_step(st, b, port, true, payload, e) == (st, b, OfferStep::Fatal),
{
}

/// Iterated offer protocol: the machine after a sequence of offers, each a
/// payload paired with the event the runtime reported. The failed flag is
/// only ever changed by `record_send`, never by an offer, so it is carried
/// through the whole run.
pub open spec fn spec_offer_run(
    st: ResolveState,
    b: Backoff,
    port: u16,
    failed: bool,
    offers: Seq<(Vec<u8>, PollEvent)>,
) -> (ResolveState, Backoff)
    decreases offers.len(),
{
    if offers.len() == 0 {
        (st, b)
    } else {
        let (st2, b2, step) = spec_offer_step(st, b, port, failed, offers[0].0, offers[0].1);
        spec_offer_run(st2, b2, port, failed, offers.drop_first())
    }
}

/// However many offers follow a send failure, the sink never silently
/// recovers: the machine never changes again, and every single offer in the
/// run — whatever its payload, whatever its event — returns `Fatal`.
pub proof fn lemma_fatal_recurs_on_every_offer(
    st: ResolveState,
    b: Backoff,
    port: u16,
    offers: Seq<(Vec<u8>, PollEvent)>,
)
    ensures
        spec_offer_run(st, b, port, true, offers) == (st, b),
        forall|i: int|
            0 <= i < offers.len() ==> spec_offer_step(
                st,
                b,
                port,
                true,
                (#[trigger] offers[i]).0,
                offers[i].1,
            ).2 == OfferStep::Fatal,
    decreases offers.len(),
{
    if offers.len() > 0 {
        lemma_fatal_recurs_on_every_offer(st, b, port, offers.drop_first());
    }
}

/// A deferred offer carries its payload back unmodified, byte for byte.
pub proof fn lemma_deferred_keeps_payload(
    st: ResolveState,
    b: Backoff,
    port: u16,
    payload: Vec<u8>,
    e: PollEvent,
)
    requires
        spec_advance(st, b, port, e).2 is NotReady,
    ensures
        spec_offer_step(st, b, port, false, payload, e).2 == OfferStep::Deferred(payload),
{
}

} // verus!

