//! Continuous bootstrapping: when to ask the network for more peers, and how
//! often to ask again.
//!
//! The node's event loop owns one [`ContinuousBootstrap`]. On every tick of
//! its timer it calls [`ContinuousBootstrap::should_we_bootstrap`], sends one
//! query if told to, and re-arms the timer if a new interval comes back. The
//! controller itself sends nothing and never waits.

use crate::time::{clock_elapsed, clock_now, duration_nanos, TimeSpan};
use std::time::Instant;
use vstd::prelude::*;

verus! {

/// Seconds between two bootstrap queries while the routing table is small.
pub const BOOTSTRAP_INTERVAL_SECS: u64 = 5;

/// For every this many peers in the routing table the interval grows by one
/// more [`BOOTSTRAP_INTERVAL_SECS`].
pub const BOOTSTRAP_CONNECTED_PEERS_STEP: u32 = 50;

/// If no peer was added for longer than this many seconds, bootstrapping slows
/// down to [`NO_PEER_ADDED_SLOWDOWN_INTERVAL_SECS`].
pub const LAST_PEER_ADDED_TIME_LIMIT_SECS: u64 = 180;

/// Seconds between two queries once the routing table has stopped growing.
pub const NO_PEER_ADDED_SLOWDOWN_INTERVAL_SECS: u64 = 300;

/// Seconds between two ticks once bootstrapping has been stopped for good.
pub const STOPPED_INTERVAL_SECS: u64 = 86400;

/// The three flags of a [`ContinuousBootstrap`]. Its time stamp is not among
/// them: see [`ContinuousBootstrap::last_peer_added_instant`].
pub struct BootstrapFlags {
    /// A bootstrap query is in flight.
    pub is_ongoing: bool,
    /// A first peer has been seen.
    pub initial_bootstrap_done: bool,
    /// Bootstrapping was stopped; never set back.
    pub stop_bootstrapping: bool,
}

/// What can happen to a [`ContinuousBootstrap`] between two decisions.
pub enum BootstrapEvent {
    /// The routing table gained a peer ([`ContinuousBootstrap::notify_new_peer`]).
    NewPeer,
    /// A query was sent ([`ContinuousBootstrap::initiated`]).
    Initiated,
    /// The query in flight ended ([`ContinuousBootstrap::completed`]).
    Completed,
    /// Bootstrapping was switched off ([`ContinuousBootstrap::stop_bootstrapping`]).
    Stopped,
}

impl BootstrapFlags {
    /// The flags of a controller that was just made.
    pub open spec fn fresh() -> BootstrapFlags {
        BootstrapFlags { is_ongoing: false, initial_bootstrap_done: false, stop_bootstrapping: false }
    }

    /// The flags after `event`.
    pub open spec fn after(self, event: BootstrapEvent) -> BootstrapFlags {
        match event {
            BootstrapEvent::NewPeer => BootstrapFlags { initial_bootstrap_done: true, ..self },
            BootstrapEvent::Initiated => BootstrapFlags { is_ongoing: true, ..self },
            BootstrapEvent::Completed => BootstrapFlags { is_ongoing: false, ..self },
            BootstrapEvent::Stopped => BootstrapFlags { stop_bootstrapping: true, ..self },
        }
    }

    /// The flags after all of `events`, first to last.
    pub open spec fn after_all(self, events: Seq<BootstrapEvent>) -> BootstrapFlags
        decreases events.len(),
    {
        if events.len() == 0 {
            self
        } else {
            self.after_all(events.drop_last()).after(events.last())
        }
    }

    /// What `notify_new_peer` answers in this state: `true` only while no peer
    /// has been seen.
    pub open spec fn asks_for_initial_bootstrap(self) -> bool {
        !self.initial_bootstrap_done
    }
}

/// The interval, in seconds, that suits a routing table of `peers_in_rt`
/// peers: one [`BOOTSTRAP_INTERVAL_SECS`] for every full
/// [`BOOTSTRAP_CONNECTED_PEERS_STEP`] peers, and at least one.
pub open spec fn scaled_interval_secs(peers_in_rt: u32) -> u64 {
    let step = peers_in_rt / BOOTSTRAP_CONNECTED_PEERS_STEP;
    if step < 1 {
        BOOTSTRAP_INTERVAL_SECS
    } else {
        (BOOTSTRAP_INTERVAL_SECS * step) as u64
    }
}

/// The decision of one tick, as a pair: whether to send a bootstrap query
/// now, and the timer's new period, if it is to change.
///
/// `since_last_peer` is the time since the routing table last gained a peer
/// and `current_interval` the timer's period.
pub open spec fn bootstrap_decision(
    flags: BootstrapFlags,
    since_last_peer: TimeSpan,
    peers_in_rt: u32,
    current_interval: TimeSpan,
) -> (bool, Option<TimeSpan>) {
    if flags.stop_bootstrapping {
        (false, Some(TimeSpan::of_secs(STOPPED_INTERVAL_SECS)))
    } else {
        let should_bootstrap = !flags.is_ongoing && peers_in_rt >= 1;
        let scaled_interval = TimeSpan::of_secs(scaled_interval_secs(peers_in_rt));
        if since_last_peer.nanos > TimeSpan::of_secs(LAST_PEER_ADDED_TIME_LIMIT_SECS).nanos
            && peers_in_rt != 0 {
            (should_bootstrap, Some(TimeSpan::of_secs(NO_PEER_ADDED_SLOWDOWN_INTERVAL_SECS)))
        } else if scaled_interval.nanos > current_interval.nanos {
            (should_bootstrap, Some(scaled_interval))
        } else {
            (should_bootstrap, None)
        }
    }
}

/// Tracks the continuous bootstrapping of one node.
pub struct ContinuousBootstrap {
    is_ongoing: bool,
    initial_bootstrap_done: bool,
    stop_bootstrapping: bool,
    last_peer_added_instant: Instant,
}

impl View for ContinuousBootstrap {
    type V = BootstrapFlags;

    closed spec fn view(&self) -> BootstrapFlags {
        BootstrapFlags {
            is_ongoing: self.is_ongoing,
            initial_bootstrap_done: self.initial_bootstrap_done,
            stop_bootstrapping: self.stop_bootstrapping,
        }
    }
}

impl ContinuousBootstrap {
    /// The reading of the clock from which the time since the last added
    /// peer is counted.
    pub closed spec fn last_peer_added_instant(&self) -> Instant {
        self.last_peer_added_instant
    }

    /// A controller for a node that has seen no peer and sent no query. The
    /// time since the last added peer is counted from the moment of this call.
    pub fn new() -> (bootstrap: ContinuousBootstrap)
        ensures
            bootstrap@ == BootstrapFlags::fresh(),
    {
        ContinuousBootstrap::new_at(clock_now())
    }

    /// A controller for a node that has seen no peer and sent no query, made
    /// at the moment `now`, from which the time since the last added peer is
    /// counted.
    pub fn new_at(now: Instant) -> (bootstrap: ContinuousBootstrap)
        ensures
            bootstrap@ == BootstrapFlags::fresh(),
            bootstrap.last_peer_added_instant() == now,
    {
        ContinuousBootstrap {
            is_ongoing: false,
            initial_bootstrap_done: false,
            last_peer_added_instant: now,
            stop_bootstrapping: false,
        }
    }

    /// A bootstrap query has been sent: none other may start until
    /// [`completed`](Self::completed) is called.
    pub fn initiated(&mut self)
        ensures
            final(self)@ == old(self)@.after(BootstrapEvent::Initiated),
            final(self).last_peer_added_instant() == old(self).last_peer_added_instant(),
    {
        self.is_ongoing = true;
    }

    /// The routing table has gained a peer. Restarts the time since the last
    /// added peer, and answers `true` if this is the first peer ever, in which
    /// case the caller should bootstrap at once instead of waiting for the
    /// next tick.
    pub fn notify_new_peer(&mut self) -> (first_peer: bool)
        ensures
            first_peer == old(self)@.asks_for_initial_bootstrap(),
            final(self)@ == old(self)@.after(BootstrapEvent::NewPeer),
    {
        self.notify_new_peer_at(clock_now())
    }

    /// The routing table has gained a peer at the moment `now`. From that
    /// moment the time since the last added peer is counted, on the first
    /// call and on every later one. Answers `true` if this is the first peer
    /// ever.
    pub fn notify_new_peer_at(&mut self, now: Instant) -> (first_peer: bool)
        ensures
            first_peer == old(self)@.asks_for_initial_bootstrap(),
            final(self)@ == old(self)@.after(BootstrapEvent::NewPeer),
            final(self).last_peer_added_instant() == now,
    {
        self.last_peer_added_instant = now;
        if !self.initial_bootstrap_done {
            self.initial_bootstrap_done = true;
            true
        } else {
            false
        }
    }

    /// The query in flight has ended, well or badly: the next may start.
    pub fn completed(&mut self)
        ensures
            final(self)@ == old(self)@.after(BootstrapEvent::Completed),
            final(self).last_peer_added_instant() == old(self).last_peer_added_instant(),
    {
        self.is_ongoing = false;
    }

    /// Switches automatic bootstrapping off for the rest of the node's life.
    pub fn stop_bootstrapping(&mut self)
        ensures
            final(self)@ == old(self)@.after(BootstrapEvent::Stopped),
            final(self).last_peer_added_instant() == old(self).last_peer_added_instant(),
    {
        self.stop_bootstrapping = true;
    }

    /// Takes note of an attempt to send a bootstrap query: a query that went
    /// out is in flight from now on, one that could not be sent changes
    /// nothing and is tried again at the next tick.
    pub fn record_dispatch(&mut self, dispatched: bool)
        ensures
            dispatched ==> final(self)@ == old(self)@.after(BootstrapEvent::Initiated),
            !dispatched ==> final(self)@ == old(self)@,
            final(self).last_peer_added_instant() == old(self).last_peer_added_instant(),
    {
        if dispatched {
            self.initiated();
        }
    }

    /// The decision of one tick, given the time `since_last_peer` that has
    /// passed since the routing table last gained a peer.
    pub fn decide(
        &self,
        since_last_peer: TimeSpan,
        peers_in_rt: u32,
        current_interval: TimeSpan,
    ) -> (decision: (bool, Option<TimeSpan>))
        ensures
            decision == bootstrap_decision(self@, since_last_peer, peers_in_rt, current_interval),
    {
        if self.stop_bootstrapping {
            return (false, Some(TimeSpan::from_secs(STOPPED_INTERVAL_SECS)));
        }
        let should_bootstrap = !self.is_ongoing && peers_in_rt >= 1;

        if since_last_peer.exceeds(&TimeSpan::from_secs(LAST_PEER_ADDED_TIME_LIMIT_SECS))
            && peers_in_rt != 0 {
            return (
                should_bootstrap,
                Some(TimeSpan::from_secs(NO_PEER_ADDED_SLOWDOWN_INTERVAL_SECS)),
            );
        }
        let step: u32 = peers_in_rt / BOOTSTRAP_CONNECTED_PEERS_STEP;
        let step: u32 = if step < 1 {
            1
        } else {
            step
        };
        let step_wide: u64 = step as u64;
        let new_interval = TimeSpan::from_secs(BOOTSTRAP_INTERVAL_SECS * step_wide);
        if new_interval.exceeds(&current_interval) {
            (should_bootstrap, Some(new_interval))
        } else {
            (should_bootstrap, None)
        }
    }

    /// The decision of this tick: whether to send a bootstrap query now, and
    /// the timer's new period if it is to change.
    ///
    /// Reads the clock for the time since the last added peer and decides as
    /// [`decide`](Self::decide) does for that reading. Whether a query is
    /// sent does not depend on the reading, and the new period does not
    /// either once bootstrapping is stopped or while the table is empty.
    pub fn should_we_bootstrap(&self, peers_in_rt: u32, current_interval: TimeSpan) -> (decision: (
        bool,
        Option<TimeSpan>,
    ))
        ensures
            exists|since_last_peer: TimeSpan|
                decision == #[trigger] bootstrap_decision(
                    self@,
                    since_last_peer,
                    peers_in_rt,
                    current_interval,
                ),
            decision.0 == (!self@.stop_bootstrapping && !self@.is_ongoing && peers_in_rt >= 1),
            self@.stop_bootstrapping || peers_in_rt == 0 ==> forall|since_last_peer: TimeSpan|
                decision == #[trigger] bootstrap_decision(
                    self@,
                    since_last_peer,
                    peers_in_rt,
                    current_interval,
                ),
    {
        let elapsed = clock_elapsed(&self.last_peer_added_instant);
        let since_last_peer = TimeSpan::from_nanos(duration_nanos(&elapsed));
        self.decide(since_last_peer, peers_in_rt, current_interval)
    }
}

/// Each flag answers to its own events only: a query is in flight from
/// `Initiated` to `Completed` and nothing else touches that flag, the first
/// peer is remembered for good, and a stop is never taken back.
pub proof fn each_flag_has_its_events(flags: BootstrapFlags, event: BootstrapEvent)
    ensures
        flags.after(event).is_ongoing == match event {
            BootstrapEvent::Initiated => true,
            BootstrapEvent::Completed => false,
            _ => flags.is_ongoing,
        },
        flags.after(event).initial_bootstrap_done == (flags.initial_bootstrap_done
            || event is NewPeer),
        flags.after(event).stop_bootstrapping == (flags.stop_bootstrapping || event is Stopped),
{
}

/// A fresh controller asks for the initial bootstrap exactly as long as no
/// peer has been reported: the first `notify_new_peer` answers `true`, and
/// every later one `false`, whatever else happened in between.
pub proof fn initial_bootstrap_is_asked_once(events: Seq<BootstrapEvent>)
    ensures
        BootstrapFlags::fresh().after_all(events).asks_for_initial_bootstrap() <==> !events.contains(
            BootstrapEvent::NewPeer,
        ),
        !BootstrapFlags::fresh().after_all(events).after(
            BootstrapEvent::NewPeer,
        ).asks_for_initial_bootstrap(),
    decreases events.len(),
{
    if events.len() > 0 {
        let earlier = events.drop_last();
        initial_bootstrap_is_asked_once(earlier);
        assert(events.contains(BootstrapEvent::NewPeer) <==> (earlier.contains(
            BootstrapEvent::NewPeer,
        ) || events.last() == BootstrapEvent::NewPeer)) by {
            if events.contains(BootstrapEvent::NewPeer) {
                let i = choose|i: int| 0 <= i < events.len() && events[i] == BootstrapEvent::NewPeer;
                if i < events.len() - 1 {
                    assert(earlier[i] == BootstrapEvent::NewPeer);
                }
            }
            if earlier.contains(BootstrapEvent::NewPeer) {
                let i = choose|i: int|
                    0 <= i < earlier.len() && earlier[i] == BootstrapEvent::NewPeer;
                assert(events[i] == BootstrapEvent::NewPeer);
            }
            if events.last() == BootstrapEvent::NewPeer {
                assert(events[events.len() - 1] == BootstrapEvent::NewPeer);
            }
        }
    }
}

/// Once stopped, always stopped: after `stop_bootstrapping`, and whatever
/// happens later, every decision is to send nothing and to tick once a day.
pub proof fn stopped_controller_stays_idle(
    flags: BootstrapFlags,
    later: Seq<BootstrapEvent>,
    since_last_peer: TimeSpan,
    peers_in_rt: u32,
    current_interval: TimeSpan,
)
    ensures
        flags.after(BootstrapEvent::Stopped).after_all(later).stop_bootstrapping,
        bootstrap_decision(
            flags.after(BootstrapEvent::Stopped).after_all(later),
            since_last_peer,
            peers_in_rt,
            current_interval,
        ) == (false, Some(TimeSpan::of_secs(STOPPED_INTERVAL_SECS))),
    decreases later.len(),
{
    if later.len() > 0 {
        stopped_controller_stays_idle(
            flags,
            later.drop_last(),
            since_last_peer,
            peers_in_rt,
            current_interval,
        );
    }
}

/// With no peer in the routing table no query is sent, in any state and at
/// any pace.
pub proof fn no_query_without_peers(
    flags: BootstrapFlags,
    since_last_peer: TimeSpan,
    current_interval: TimeSpan,
)
    ensures
        !bootstrap_decision(flags, since_last_peer, 0, current_interval).0,
{
}

/// A query is sent exactly when bootstrapping has not been stopped, none is
/// in flight and at least one peer is known; neither the pace nor the time
/// since the last peer has a say.
pub proof fn query_needs_peer_and_free_slot(
    flags: BootstrapFlags,
    since_last_peer: TimeSpan,
    peers_in_rt: u32,
    current_interval: TimeSpan,
)
    ensures
        bootstrap_decision(flags, since_last_peer, peers_in_rt, current_interval).0 == (
        !flags.stop_bootstrapping && !flags.is_ongoing && peers_in_rt >= 1),
{
}

/// When the routing table is not empty but has gained no peer for more than
/// [`LAST_PEER_ADDED_TIME_LIMIT_SECS`], the new period is
/// [`NO_PEER_ADDED_SLOWDOWN_INTERVAL_SECS`], whatever the table's size would
/// otherwise call for.
pub proof fn stalled_growth_backs_off(
    flags: BootstrapFlags,
    since_last_peer: TimeSpan,
    peers_in_rt: u32,
    current_interval: TimeSpan,
)
    requires
        !flags.stop_bootstrapping,
        since_last_peer.nanos > TimeSpan::of_secs(LAST_PEER_ADDED_TIME_LIMIT_SECS).nanos,
        peers_in_rt != 0,
    ensures
        bootstrap_decision(flags, since_last_peer, peers_in_rt, current_interval).1 == Some(
            TimeSpan::of_secs(NO_PEER_ADDED_SLOWDOWN_INTERVAL_SECS),
        ),
{
}

/// While peers keep arriving the pace only ever slows down: a new period is
/// handed out only if it is longer than the current one, and then it is the
/// one that suits the size of the routing table.
pub proof fn growing_table_only_widens_the_interval(
    flags: BootstrapFlags,
    since_last_peer: TimeSpan,
    peers_in_rt: u32,
    current_interval: TimeSpan,
)
    requires
        !flags.stop_bootstrapping,
        since_last_peer.nanos <= TimeSpan::of_secs(LAST_PEER_ADDED_TIME_LIMIT_SECS).nanos
            || peers_in_rt == 0,
    ensures
        match bootstrap_decision(flags, since_last_peer, peers_in_rt, current_interval).1 {
            Some(new_interval) => new_interval.nanos > current_interval.nanos && new_interval
                == TimeSpan::of_secs(scaled_interval_secs(peers_in_rt)),
            None => TimeSpan::of_secs(scaled_interval_secs(peers_in_rt)).nanos
                <= current_interval.nanos,
        },
{
}

} // verus!
