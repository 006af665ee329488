//! The sampler: what to do when the refresh timer wakes it, and what to do
//! with the outcome of a fetch.
//!
//! The program around the library owns the timer and performs the fetch. It
//! asks `on_wake` before each fetch and hands every outcome to `on_fetched`,
//! which is the only place where a tick touches the registry.

use crate::exposition::served;
use crate::observation::{Observation, ObservationView};
use crate::registry::{families_of, MetricRegistry};
use vstd::prelude::*;

verus! {

/// Seconds between two fetches where none are configured.
pub const DEFAULT_REFRESH_SECS: u64 = 300;

/// Why a fetch failed.
#[derive(Clone, Copy, Debug, PartialEq, Eq, Structural)]
pub enum FetchErrorKind {
    /// The upstream service could not be reached.
    Network,
    /// The upstream service answered with something that is no observation.
    MalformedResponse,
    /// The upstream service answered with an error status.
    UpstreamStatus,
}

/// A failed fetch: its category and the message that came with it.
#[derive(Debug, PartialEq, Eq)]
pub struct FetchError {
    pub kind: FetchErrorKind,
    pub message: String,
}

/// A failed fetch as contracts see it.
pub struct FetchErrorView {
    pub kind: FetchErrorKind,
    pub message: Seq<char>,
}

impl View for FetchError {
    type V = FetchErrorView;

    open spec fn view(&self) -> FetchErrorView {
        FetchErrorView { kind: self.kind, message: self.message@ }
    }
}

impl FetchError {
    /// The failure of category `kind` that came with `message`.
    pub fn new(kind: FetchErrorKind, message: String) -> (r: FetchError)
        ensures
            r@ == (FetchErrorView { kind, message: message@ }),
    {
        FetchError { kind, message }
    }
}

/// What the sampler does on a wake.
#[derive(Clone, Copy, Debug, PartialEq, Eq, Structural)]
pub enum Wake {
    /// Fetch the configured station once, then wait for the next wake.
    Fetch,
    /// Schedule nothing further.
    Stop,
}

/// What a tick did to the registry.
#[derive(Clone, Copy, Debug, PartialEq, Eq, Structural)]
pub enum TickOutcome {
    /// The registry now publishes the fetched observation.
    Updated,
    /// The fetch failed; the registry is as it was.
    Unchanged,
}

/// The outcome of one fetch as contracts see it.
pub open spec fn outcome_view(outcome: Result<Observation, FetchError>) -> Result<
    ObservationView,
    FetchErrorView,
> {
    match outcome {
        Ok(observation) => Ok(observation@),
        Err(error) => Err(error@),
    }
}

/// The state of the registry after a tick with `outcome`: the fetched
/// observation, or what it held before where the fetch failed.
pub open spec fn registry_after(
    current: Option<ObservationView>,
    outcome: Result<ObservationView, FetchErrorView>,
) -> Option<ObservationView> {
    match outcome {
        Ok(observation) => Some(observation),
        Err(_) => current,
    }
}

/// The state of the registry after one tick for each of `outcomes`, in
/// their order.
pub open spec fn registry_after_ticks(
    current: Option<ObservationView>,
    outcomes: Seq<Result<ObservationView, FetchErrorView>>,
) -> Option<ObservationView>
    decreases outcomes.len(),
{
    if outcomes.len() == 0 {
        current
    } else {
        registry_after(registry_after_ticks(current, outcomes.drop_last()), outcomes.last())
    }
}

/// The failure that the sampler remembers after a tick with `outcome`.
pub open spec fn failure_after(
    last_failure: Option<FetchErrorView>,
    outcome: Result<ObservationView, FetchErrorView>,
) -> Option<FetchErrorView> {
    match outcome {
        Ok(_) => last_failure,
        Err(error) => Some(error),
    }
}

/// The sampler's state as contracts see it.
pub struct SamplerView {
    pub station: Seq<char>,
    pub interval_secs: u64,
    pub last_failure: Option<FetchErrorView>,
}

/// The recurring task that refreshes the registry for one station.
#[derive(Debug, PartialEq, Eq)]
pub struct Sampler {
    station: String,
    interval_secs: u64,
    last_failure: Option<FetchError>,
}

impl View for Sampler {
    type V = SamplerView;

    closed spec fn view(&self) -> SamplerView {
        SamplerView {
            station: self.station@,
            interval_secs: self.interval_secs,
            last_failure: match self.last_failure {
                Some(error) => Some(error@),
                None => None,
            },
        }
    }
}

impl Sampler {
    /// A sampler for `station` that fetches every `interval_secs` seconds and
    /// has seen no failure.
    pub fn new(station: String, interval_secs: u64) -> (r: Sampler)
        ensures
            r@ == (SamplerView { station: station@, interval_secs, last_failure: None }),
    {
        Sampler { station, interval_secs, last_failure: None }
    }

    /// A sampler for `station` with the default interval.
    pub fn with_default_interval(station: String) -> (r: Sampler)
        ensures
            r@ == (SamplerView {
                station: station@,
                interval_secs: DEFAULT_REFRESH_SECS,
                last_failure: None,
            }),
    {
        Sampler::new(station, DEFAULT_REFRESH_SECS)
    }

    /// The station to fetch, as it was configured.
    pub fn station(&self) -> (r: &String)
        ensures
            r@ == self@.station,
    {
        &self.station
    }

    /// Seconds from one wake to the next.
    pub fn interval_secs(&self) -> (r: u64)
        ensures
            r == self@.interval_secs,
    {
        self.interval_secs
    }

    /// The most recent failed fetch, if any fetch has failed.
    pub fn last_failure(&self) -> (r: Option<&FetchError>)
        ensures
            match r {
                Some(error) => self@.last_failure == Some(error@),
                None => self@.last_failure is None,
            },
    {
        self.last_failure.as_ref()
    }

    /// Decides a wake: fetch, unless shutdown has been requested.
    pub fn on_wake(&self, shutdown_requested: bool) -> (r: Wake)
        ensures
            r == if shutdown_requested {
                Wake::Stop
            } else {
                Wake::Fetch
            },
    {
        if shutdown_requested {
            Wake::Stop
        } else {
            Wake::Fetch
        }
    }

    /// Ends a tick. A fetched observation replaces what the registry
    /// publishes; a failed fetch is remembered and leaves the registry as it
    /// was.
    pub fn on_fetched(
        &mut self,
        registry: &mut MetricRegistry,
        outcome: Result<Observation, FetchError>,
    ) -> (r: TickOutcome)
        ensures
            final(registry)@ == registry_after(old(registry)@, outcome_view(outcome)),
            outcome is Err ==> *final(registry) == *old(registry),
            final(self)@ == (SamplerView {
                last_failure: failure_after(old(self)@.last_failure, outcome_view(outcome)),
                ..old(self)@
            }),
            r == if outcome is Ok {
                TickOutcome::Updated
            } else {
                TickOutcome::Unchanged
            },
    {
        match outcome {
            Ok(observation) => {
                registry.update(observation);
                TickOutcome::Updated
            },
            Err(error) => {
                self.last_failure = Some(error);
                TickOutcome::Unchanged
            },
        }
    }
}

/// A failed fetch changes nothing that a reader of the registry sees.
pub proof fn lemma_failed_tick_keeps_snapshot(
    current: Option<ObservationView>,
    error: FetchErrorView,
)
    ensures
        registry_after(current, Err(error)) == current,
        families_of(registry_after(current, Err(error))) == families_of(current),
{
}

/// A failed fetch changes no response: whatever is requested after the tick
/// is answered as it would have been before it.
pub proof fn lemma_failed_tick_keeps_response(
    current: Option<ObservationView>,
    error: FetchErrorView,
    method: Seq<char>,
    path: Seq<char>,
)
    ensures
        served(registry_after(current, Err(error)), method, path) == served(
            current,
            method,
            path,
        ),
{
}

/// After any run of ticks the registry publishes the observation of the last
/// fetch that succeeded, whatever failed after it: where `last` is the
/// position of that fetch, the families are those of its observation.
pub proof fn lemma_ticks_publish_last_success(
    current: Option<ObservationView>,
    outcomes: Seq<Result<ObservationView, FetchErrorView>>,
    last: int,
)
    requires
        0 <= last < outcomes.len(),
        outcomes[last] is Ok,
        forall|i: int| last < i < outcomes.len() ==> #[trigger] outcomes[i] is Err,
    ensures
        registry_after_ticks(current, outcomes) == Some(outcomes[last]->Ok_0),
        families_of(registry_after_ticks(current, outcomes)) == families_of(
            Some(outcomes[last]->Ok_0),
        ),
    decreases outcomes.len(),
{
    if last < outcomes.len() - 1 {
        let front = outcomes.drop_last();
        assert(outcomes.last() is Err);
        assert(front[last] == outcomes[last]);
        assert forall|i: int| last < i < front.len() implies #[trigger] front[i] is Err by {
            assert(front[i] == outcomes[i]);
        }
        lemma_ticks_publish_last_success(current, front, last);
    }
}

/// A run of ticks that all fail leaves the registry as it was.
pub proof fn lemma_failed_ticks_keep_registry(
    current: Option<ObservationView>,
    outcomes: Seq<Result<ObservationView, FetchErrorView>>,
)
    requires
        forall|i: int| 0 <= i < outcomes.len() ==> #[trigger] outcomes[i] is Err,
    ensures
        registry_after_ticks(current, outcomes) == current,
    decreases outcomes.len(),
{
    if outcomes.len() > 0 {
        let front = outcomes.drop_last();
        assert forall|i: int| 0 <= i < front.len() implies #[trigger] front[i] is Err by {
            assert(front[i] == outcomes[i]);
        }
        lemma_failed_ticks_keep_registry(current, front);
    }
}

/// The ticks that deliver `observations`, each fetch succeeding.
pub open spec fn successful_ticks(observations: Seq<ObservationView>) -> Seq<
    Result<ObservationView, FetchErrorView>,
> {
    Seq::new(observations.len(), |i: int| Ok(observations[i]))
}

/// Where every fetch succeeds, the snapshot taken after tick `k` is made of
/// the `k`-th observation, for each `k` from 1 to the number of ticks.
pub proof fn lemma_snapshot_follows_observations(
    current: Option<ObservationView>,
    observations: Seq<ObservationView>,
    k: int,
)
    requires
        1 <= k <= observations.len(),
    ensures
        families_of(registry_after_ticks(current, successful_ticks(observations).take(k)))
            == families_of(Some(observations[k - 1])),
{
    let ticks = successful_ticks(observations).take(k);
    assert(ticks[k - 1] == Ok::<ObservationView, FetchErrorView>(observations[k - 1]));
    lemma_ticks_publish_last_success(current, ticks, k - 1);
}

} // verus!
