//! The per-link policy of the pipeline: which resolution an item kind runs,
//! the retry/backoff decision after each resolution attempt, and the
//! fixed-capacity permit pool that caps how many resolution round-trips are
//! in flight at once. The driver that awaits the network lives outside the
//! library; it asks these functions what to do next.

use vstd::prelude::*;

verus! {

use crate::types::ItemType;

/// At most this many retries follow a failed resolution attempt.
pub const MAX_RETRIES: u32 = 3;

/// Seconds of pause after a successful resolution, before downstream work.
pub const COOLDOWN_SECS: u64 = 1;

/// Seconds of pause between a failed resolution attempt and its retry.
pub const BACKOFF_SECS: u64 = 2;

/// Seconds each resolution round-trip may take before it counts as a
/// transport failure.
pub const REQUEST_TIMEOUT_SECS: u64 = 10;

/// Which resolution a link runs, by its item kind.
#[derive(Debug, Clone, Copy, PartialEq, Eq, Structural)]
pub enum ResolutionRoute {
    /// The two-phase submit / result-fetch protocol, for a video.
    FetchVideo,
    /// The single media-listing round-trip, for a photo set.
    FetchPhotos,
    /// An unrecognized kind is skipped without error.
    Skip,
}

/// Routes an item kind: videos to the two-phase protocol, photo sets to the
/// media listing, and unrecognized kinds to a no-op.
pub fn resolution_route(kind: ItemType) -> (r: ResolutionRoute)
    ensures
        kind == ItemType::Video ==> r == ResolutionRoute::FetchVideo,
        kind == ItemType::Photo ==> r == ResolutionRoute::FetchPhotos,
        kind == ItemType::Unknown ==> r == ResolutionRoute::Skip,
{
    match kind {
        ItemType::Video => ResolutionRoute::FetchVideo,
        ItemType::Photo => ResolutionRoute::FetchPhotos,
        ItemType::Unknown => ResolutionRoute::Skip,
    }
}

/// Where a link's pipeline stands. `attempts` counts the failed resolution
/// attempts made so far.
#[derive(Debug, Clone, Copy, PartialEq, Eq, Structural)]
pub enum LinkState {
    /// The link is being parsed into a descriptor.
    Parsing,
    /// A resolution round-trip runs (under a permit).
    Resolving { attempts: u32 },
    /// A failed attempt waits out the backoff before resolving again.
    Backoff { attempts: u32 },
    /// A successful resolution waits out the cooldown before the download.
    CoolingDown,
    /// The resolved media streams to disk (outside the permit).
    Downloading,
    /// Terminal: the link is finished (or skipped without error).
    Done,
    /// Terminal: the link failed; the driver reports the last error it kept.
    Failed,
}

/// What the driver observed since the last step.
#[derive(Debug, Clone, Copy, PartialEq, Eq, Structural)]
pub enum LinkEvent {
    /// Parsing succeeded, with this item kind.
    ParsedKind { kind: ItemType },
    /// Parsing failed; never retried.
    ParseFailed,
    /// The resolution round-trips produced the media URLs.
    Resolved,
    /// The resolution round-trips failed (transiently, by assumption).
    ResolveFailed,
    /// The commanded pause is over.
    SleepElapsed,
    /// Every planned file was written.
    Downloaded,
    /// A fetch or a write failed; never retried.
    DownloadFailed,
}

/// What the driver must do next.
#[derive(Debug, Clone, Copy, PartialEq, Eq, Structural)]
pub enum LinkAction {
    /// Acquire a permit, run the resolution round-trips, release the permit.
    Resolve,
    /// Pause this link for the given time, without blocking other links.
    Sleep { secs: u64 },
    /// Run the download plan.
    Download,
    /// The link is terminal; nothing more to do.
    Stop,
}

/// One transition of a link's pipeline: the state the event moves it to, and
/// the action the driver performs there. Parse failures fail the link at
/// once; an unrecognized kind is skipped as done; a resolution failure backs
/// off and retries until `MAX_RETRIES` retries were made, then fails;
/// a resolution success cools down, then downloads; download failures fail
/// the link at once. An event that does not belong to the state fails the
/// link, as any unexpected fault in a link's pipeline does.
pub open spec fn spec_step(state: LinkState, event: LinkEvent) -> (LinkState, LinkAction) {
    match (state, event) {
        (LinkState::Parsing, LinkEvent::ParsedKind { kind }) => if kind is Unknown {
            (LinkState::Done, LinkAction::Stop)
        } else {
            (LinkState::Resolving { attempts: 0 }, LinkAction::Resolve)
        },
        (LinkState::Parsing, LinkEvent::ParseFailed) => (LinkState::Failed, LinkAction::Stop),
        (LinkState::Resolving { attempts: _ }, LinkEvent::Resolved) => (
            LinkState::CoolingDown,
            LinkAction::Sleep { secs: COOLDOWN_SECS },
        ),
        (LinkState::Resolving { attempts }, LinkEvent::ResolveFailed) => if attempts
            < MAX_RETRIES {
            (
                LinkState::Backoff { attempts: (attempts + 1) as u32 },
                LinkAction::Sleep { secs: BACKOFF_SECS },
            )
        } else {
            (LinkState::Failed, LinkAction::Stop)
        },
        (LinkState::Backoff { attempts }, LinkEvent::SleepElapsed) => (
            LinkState::Resolving { attempts },
            LinkAction::Resolve,
        ),
        (LinkState::CoolingDown, LinkEvent::SleepElapsed) => (
            LinkState::Downloading,
            LinkAction::Download,
        ),
        (LinkState::Downloading, LinkEvent::Downloaded) => (LinkState::Done, LinkAction::Stop),
        (LinkState::Downloading, LinkEvent::DownloadFailed) => (
            LinkState::Failed,
            LinkAction::Stop,
        ),
        _ => (LinkState::Failed, LinkAction::Stop),
    }
}

/// Advances a link's pipeline by one observed event.
pub fn step(state: LinkState, event: LinkEvent) -> (r: (LinkState, LinkAction))
    ensures
        r == spec_step(state, event),
{
    match (state, event) {
        (LinkState::Parsing, LinkEvent::ParsedKind { kind }) => {
            if kind == ItemType::Unknown {
                (LinkState::Done, LinkAction::Stop)
            } else {
                (LinkState::Resolving { attempts: 0 }, LinkAction::Resolve)
            }
        },
        (LinkState::Parsing, LinkEvent::ParseFailed) => (LinkState::Failed, LinkAction::Stop),
        (LinkState::Resolving { attempts: _ }, LinkEvent::Resolved) => (
            LinkState::CoolingDown,
            LinkAction::Sleep { secs: COOLDOWN_SECS },
        ),
        (LinkState::Resolving { attempts }, LinkEvent::ResolveFailed) => {
            if attempts < MAX_RETRIES {
                (
                    LinkState::Backoff { attempts: attempts + 1 },
                    LinkAction::Sleep { secs: BACKOFF_SECS },
                )
            } else {
                (LinkState::Failed, LinkAction::Stop)
            }
        },
        (LinkState::Backoff { attempts }, LinkEvent::SleepElapsed) => (
            LinkState::Resolving { attempts },
            LinkAction::Resolve,
        ),
        (LinkState::CoolingDown, LinkEvent::SleepElapsed) => (
            LinkState::Downloading,
            LinkAction::Download,
        ),
        (LinkState::Downloading, LinkEvent::Downloaded) => (LinkState::Done, LinkAction::Stop),
        (LinkState::Downloading, LinkEvent::DownloadFailed) => (
            LinkState::Failed,
            LinkAction::Stop,
        ),
        _ => (LinkState::Failed, LinkAction::Stop),
    }
}

/// How a run that starts with a resolution attempt at counter `attempts`
/// plays out when every attempt fails transiently: the total attempts made
/// and the state the link ends in.
pub open spec fn failing_run_from(attempts: u32) -> (nat, LinkState)
    decreases MAX_RETRIES - attempts when attempts <= MAX_RETRIES
{
    let next = spec_step(LinkState::Resolving { attempts }, LinkEvent::ResolveFailed);
    match next.0 {
        LinkState::Backoff { attempts: a } => {
            let rest = failing_run_from(a);
            ((1 + rest.0) as nat, rest.1)
        },
        s => (1nat, s),
    }
}

/// Retry exhaustion: a resolution stage that always fails transiently makes
/// exactly `MAX_RETRIES + 1` attempts, and the link ends failed.
pub proof fn lemma_retry_exhaustion()
    ensures
        failing_run_from(0).0 == MAX_RETRIES + 1,
        failing_run_from(0).1 is Failed,
{
    assert(failing_run_from(3) == (1nat, LinkState::Failed));
    assert(failing_run_from(2) == (2nat, LinkState::Failed));
    assert(failing_run_from(1) == (3nat, LinkState::Failed));
    assert(failing_run_from(0) == (4nat, LinkState::Failed));
}

/// A fixed-capacity pool of resolution permits: the one piece of state the
/// concurrently processed links share. A permit is held only around the
/// resolution round-trips, never across a download.
#[derive(Debug, Clone, Copy)]
pub struct PermitPool {
    capacity: u32,
    in_flight: u32,
}

impl PermitPool {
    /// The pool never has more permits out than its capacity.
    pub closed spec fn wf(self) -> bool {
        self.in_flight <= self.capacity
    }

    /// The concurrency ceiling the pool was made with.
    pub closed spec fn spec_capacity(self) -> u32 {
        self.capacity
    }

    /// How many permits are out.
    pub closed spec fn spec_in_flight(self) -> u32 {
        self.in_flight
    }

    /// A fresh pool with `capacity` free slots.
    pub fn new(capacity: u32) -> (r: PermitPool)
        ensures
            r.wf(),
            r.spec_capacity() == capacity,
            r.spec_in_flight() == 0,
    {
        PermitPool { capacity, in_flight: 0 }
    }

    /// The concurrency ceiling the pool was made with.
    pub fn capacity(&self) -> (r: u32)
        ensures
            r == self.spec_capacity(),
    {
        self.capacity
    }

    /// How many permits are out.
    pub fn in_flight(&self) -> (r: u32)
        ensures
            r == self.spec_in_flight(),
    {
        self.in_flight
    }

    /// Grants a permit exactly while a slot is free, so the number of
    /// round-trips in flight never passes the capacity.
    pub fn try_acquire(&mut self) -> (granted: bool)
        requires
            old(self).wf(),
        ensures
            final(self).wf(),
            final(self).spec_capacity() == old(self).spec_capacity(),
            granted == (old(self).spec_in_flight() < old(self).spec_capacity()),
            final(self).spec_in_flight() as nat == pool_step(
                old(self).spec_capacity() as nat,
                old(self).spec_in_flight() as nat,
                PoolEvent::TryAcquire,
            ),
    {
        if self.in_flight < self.capacity {
            self.in_flight = self.in_flight + 1;
            true
        } else {
            false
        }
    }

    /// Returns a permit.
    pub fn release(&mut self)
        requires
            old(self).wf(),
            old(self).spec_in_flight() > 0,
        ensures
            final(self).wf(),
            final(self).spec_capacity() == old(self).spec_capacity(),
            final(self).spec_in_flight() as nat == pool_step(
                old(self).spec_capacity() as nat,
                old(self).spec_in_flight() as nat,
                PoolEvent::Release,
            ),
    {
        self.in_flight = self.in_flight - 1;
    }
}

/// One scheduler event at the permit pool: some link tries to acquire a
/// permit, or releases the one it holds.
pub enum PoolEvent {
    TryAcquire,
    Release,
}

/// How one pool event changes the number of round-trips in flight: a
/// try-acquire is granted only below `capacity`, and a release counts only
/// while a round-trip is in flight. `try_acquire` and `release` implement
/// exactly these two transitions.
pub open spec fn pool_step(capacity: nat, cur: nat, event: PoolEvent) -> nat {
    match event {
        PoolEvent::TryAcquire => if cur < capacity {
            cur + 1
        } else {
            cur
        },
        PoolEvent::Release => if cur > 0 {
            (cur - 1) as nat
        } else {
            cur
        },
    }
}

/// The number of resolution round-trips in flight after a sequence of pool
/// events, starting from an idle pool.
pub open spec fn in_flight_after(capacity: nat, events: Seq<PoolEvent>) -> nat
    decreases events.len(),
{
    if events.len() == 0 {
        0
    } else {
        pool_step(capacity, in_flight_after(capacity, events.drop_last()), events.last())
    }
}

/// Concurrency bound: in whatever order any number of links try to resolve
/// and finish, at no point are more than `capacity` resolution round-trips in
/// flight.
pub proof fn lemma_concurrency_bound(capacity: nat, events: Seq<PoolEvent>)
    ensures
        in_flight_after(capacity, events) <= capacity,
    decreases events.len(),
{
    if events.len() > 0 {
        lemma_concurrency_bound(capacity, events.drop_last());
    }
}

} // verus!
