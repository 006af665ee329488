//! The metric registry: the published gauges and their current values.
//!
//! The registry holds either nothing or the whole of one observation. It
//! changes only through `update`, which takes it by exclusive reference and
//! replaces every value at once, and it is read only through `snapshot`, which
//! copies the values out. A reader therefore holds the values of exactly one
//! observation, and rendering needs no access to the registry.

use crate::observation::{Observation, ObservationView, Quantity, Unit};
use vstd::prelude::*;

verus! {

/// How a metric's value moves over time.
#[derive(Clone, Copy, Debug, PartialEq, Eq, Structural)]
pub enum MetricKind {
    /// A value that may rise and fall.
    Gauge,
}

/// The quantities in the order in which their metrics are published.
pub open spec fn published_quantities() -> Seq<Quantity> {
    seq![
        Quantity::Temperature,
        Quantity::RelativeHumidity,
        Quantity::WindSpeed,
        Quantity::WindDirection,
        Quantity::BarometricPressure,
    ]
}

/// Name of the metric that publishes `quantity`.
pub open spec fn metric_name(quantity: Quantity) -> Seq<char> {
    match quantity {
        Quantity::Temperature => "nws_temperature_thousandths"@,
        Quantity::RelativeHumidity => "nws_relative_humidity_thousandths"@,
        Quantity::WindSpeed => "nws_wind_speed_thousandths"@,
        Quantity::WindDirection => "nws_wind_direction_thousandths"@,
        Quantity::BarometricPressure => "nws_barometric_pressure_thousandths"@,
    }
}

/// Help text of the metric that publishes `quantity`.
pub open spec fn metric_help(quantity: Quantity) -> Seq<char> {
    match quantity {
        Quantity::Temperature => "Air temperature, in thousandths of the unit"@,
        Quantity::RelativeHumidity => "Relative humidity, in thousandths of the unit"@,
        Quantity::WindSpeed => "Wind speed, in thousandths of the unit"@,
        Quantity::WindDirection => "Wind direction, in thousandths of the unit"@,
        Quantity::BarometricPressure => "Barometric pressure, in thousandths of the unit"@,
    }
}

/// One metric family as a reader sees it: the static description of the
/// metric that publishes `quantity`, and the one series that it holds.
pub struct FamilyView {
    pub quantity: Quantity,
    pub station: Seq<char>,
    pub value: i64,
}

impl FamilyView {
    /// The metric's name.
    pub open spec fn name(self) -> Seq<char> {
        metric_name(self.quantity)
    }

    /// The metric's help text.
    pub open spec fn help(self) -> Seq<char> {
        metric_help(self.quantity)
    }

    /// The unit that the value counts thousandths of.
    pub open spec fn unit(self) -> Unit {
        self.quantity.spec_unit()
    }

    /// The metric's kind.
    pub open spec fn kind(self) -> MetricKind {
        MetricKind::Gauge
    }
}

/// The family that publishes `quantity` once `observation` is current.
pub open spec fn family_of(observation: ObservationView, quantity: Quantity) -> FamilyView {
    FamilyView {
        quantity,
        station: observation.station,
        value: observation.value(quantity),
    }
}

/// The families that a registry in state `current` publishes: none before the
/// first observation, and afterwards one for each quantity, in published
/// order, all of the same observation.
pub open spec fn families_of(current: Option<ObservationView>) -> Seq<FamilyView> {
    match current {
        None => Seq::empty(),
        Some(observation) => Seq::new(
            published_quantities().len(),
            |i: int| family_of(observation, published_quantities()[i]),
        ),
    }
}

/// A metric family copied out of the registry.
#[derive(Debug, PartialEq, Eq)]
pub struct MetricFamily {
    quantity: Quantity,
    station: String,
    value: i64,
}

impl View for MetricFamily {
    type V = FamilyView;

    closed spec fn view(&self) -> FamilyView {
        FamilyView { quantity: self.quantity, station: self.station@, value: self.value }
    }
}

impl MetricFamily {
    /// The family that publishes `value` as the reading of `quantity` at
    /// `station`.
    pub fn new(quantity: Quantity, station: String, value: i64) -> (r: MetricFamily)
        ensures
            r@ == (FamilyView { quantity, station: station@, value }),
    {
        MetricFamily { quantity, station, value }
    }

    /// The quantity that the family publishes.
    pub fn quantity(&self) -> (r: Quantity)
        ensures
            r == self@.quantity,
    {
        self.quantity
    }

    /// The metric's name.
    pub fn name(&self) -> (r: &'static str)
        ensures
            r@ == self@.name(),
    {
        match self.quantity {
            Quantity::Temperature => "nws_temperature_thousandths",
            Quantity::RelativeHumidity => "nws_relative_humidity_thousandths",
            Quantity::WindSpeed => "nws_wind_speed_thousandths",
            Quantity::WindDirection => "nws_wind_direction_thousandths",
            Quantity::BarometricPressure => "nws_barometric_pressure_thousandths",
        }
    }

    /// The metric's help text.
    pub fn help(&self) -> (r: &'static str)
        ensures
            r@ == self@.help(),
    {
        match self.quantity {
            Quantity::Temperature => "Air temperature, in thousandths of the unit",
            Quantity::RelativeHumidity => "Relative humidity, in thousandths of the unit",
            Quantity::WindSpeed => "Wind speed, in thousandths of the unit",
            Quantity::WindDirection => "Wind direction, in thousandths of the unit",
            Quantity::BarometricPressure => "Barometric pressure, in thousandths of the unit",
        }
    }

    /// The unit that the value counts thousandths of.
    pub fn unit(&self) -> (r: Unit)
        ensures
            r == self@.unit(),
    {
        self.quantity.unit()
    }

    /// The metric's kind.
    pub fn kind(&self) -> (r: MetricKind)
        ensures
            r == self@.kind(),
    {
        MetricKind::Gauge
    }

    /// The station that the series is labelled with.
    pub fn station(&self) -> (r: &String)
        ensures
            r@ == self@.station,
    {
        &self.station
    }

    /// The value of the series.
    pub fn value(&self) -> (r: i64)
        ensures
            r == self@.value,
    {
        self.value
    }
}

/// A point-in-time copy of every family of a registry. It shares nothing with
/// the registry that it was taken from.
#[derive(Debug, PartialEq, Eq)]
pub struct RegistrySnapshot {
    families: Vec<MetricFamily>,
}

impl View for RegistrySnapshot {
    type V = Seq<FamilyView>;

    closed spec fn view(&self) -> Seq<FamilyView> {
        Seq::new(self.families@.len(), |i: int| self.families@[i]@)
    }
}

impl RegistrySnapshot {
    /// The snapshot that holds `families`, in their order.
    pub fn new(families: Vec<MetricFamily>) -> (r: RegistrySnapshot)
        ensures
            r@.len() == families@.len(),
            forall|i: int| 0 <= i < families@.len() ==> r@[i] == #[trigger] families@[i]@,
    {
        RegistrySnapshot { families }
    }

    /// The number of families.
    pub fn len(&self) -> (r: usize)
        ensures
            r == self@.len(),
    {
        self.families.len()
    }

    /// Whether the snapshot holds no family.
    pub fn is_empty(&self) -> (r: bool)
        ensures
            r == (self@.len() == 0),
    {
        self.families.len() == 0
    }

    /// The family at `index`.
    pub fn family(&self, index: usize) -> (r: &MetricFamily)
        requires
            index < self@.len(),
        ensures
            r@ == self@[index as int],
    {
        &self.families[index]
    }
}

/// The registry of published metrics.
#[derive(Debug, PartialEq, Eq)]
pub struct MetricRegistry {
    current: Option<Observation>,
}

impl View for MetricRegistry {
    type V = Option<ObservationView>;

    closed spec fn view(&self) -> Option<ObservationView> {
        match self.current {
            None => None,
            Some(observation) => Some(observation@),
        }
    }
}

impl MetricRegistry {
    /// A registry that has no data yet: it publishes no family.
    pub fn new() -> (r: MetricRegistry)
        ensures
            r@ is None,
    {
        MetricRegistry { current: None }
    }

    /// Replaces every published value by those of `observation`. The
    /// exclusive reference leaves no reader a moment between two values.
    pub fn update(&mut self, observation: Observation)
        ensures
            final(self)@ == Some(observation@),
            final(self)@ == state_after_call(old(self)@, RegistryCall::Update(observation@)),
    {
        self.current = Some(observation);
    }

    /// Whether an observation has been published.
    pub fn has_data(&self) -> (r: bool)
        ensures
            r == self@ is Some,
    {
        self.current.is_some()
    }

    /// Copies out the families that the registry publishes now.
    pub fn snapshot(&self) -> (r: RegistrySnapshot)
        ensures
            r@ == families_of(self@),
    {
        let mut families: Vec<MetricFamily> = Vec::new();
        match &self.current {
            None => {},
            Some(observation) => {
                let quantities = [
                    Quantity::Temperature,
                    Quantity::RelativeHumidity,
                    Quantity::WindSpeed,
                    Quantity::WindDirection,
                    Quantity::BarometricPressure,
                ];
                let mut i: usize = 0;
                while i < 5
                    invariant
                        i <= 5,
                        quantities@ == published_quantities(),
                        families@.len() == i,
                        forall|k: int|
                            0 <= k < i ==> (#[trigger] families@[k])@ == family_of(
                                observation@,
                                published_quantities()[k],
                            ),
                    decreases 5 - i,
                {
                    let quantity = quantities[i];
                    let reading = observation.reading(quantity);
                    families.push(
                        MetricFamily::new(quantity, observation.station().clone(), reading.value),
                    );
                    i = i + 1;
                }
            },
        }
        let snapshot = RegistrySnapshot { families };
        assert(snapshot@ =~= families_of(self@));
        snapshot
    }
}

/// One call on a registry, as a history of calls records it.
pub enum RegistryCall {
    /// `update` with this observation.
    Update(ObservationView),
    /// `snapshot`.
    Snapshot,
}

/// The state of a registry after `call`.
pub open spec fn state_after_call(
    current: Option<ObservationView>,
    call: RegistryCall,
) -> Option<ObservationView> {
    match call {
        RegistryCall::Update(observation) => Some(observation),
        RegistryCall::Snapshot => current,
    }
}

/// The state of a new registry after `calls`, in their order.
pub open spec fn state_after_calls(calls: Seq<RegistryCall>) -> Option<ObservationView>
    decreases calls.len(),
{
    if calls.len() == 0 {
        None
    } else {
        state_after_call(state_after_calls(calls.drop_last()), calls.last())
    }
}

/// Whether the update at `source` is the last one before `position`.
pub open spec fn is_last_update_before(
    calls: Seq<RegistryCall>,
    source: int,
    position: int,
) -> bool {
    &&& 0 <= source < position <= calls.len()
    &&& calls[source] is Update
    &&& forall|k: int| source < k < position ==> #[trigger] calls[k] is Snapshot
}

/// In any history of updates and snapshots on a new registry, a snapshot
/// holds the families of exactly one state: of the initial one, where no
/// update came before it, and else of the last update before it, whole.
pub proof fn lemma_snapshot_is_of_one_update(calls: Seq<RegistryCall>, position: int)
    requires
        0 <= position <= calls.len(),
    ensures
        ({
            let seen = families_of(state_after_calls(calls.take(position)));
            ||| {
                &&& forall|k: int| 0 <= k < position ==> #[trigger] calls[k] is Snapshot
                &&& seen == families_of(None)
            }
            ||| exists|source: int|
                {
                    &&& #[trigger] is_last_update_before(calls, source, position)
                    &&& seen == families_of(Some(calls[source]->Update_0))
                }
        }),
    decreases position,
{
    let prefix = calls.take(position);
    if position > 0 {
        assert(prefix.drop_last() =~= calls.take(position - 1));
        assert(prefix.last() == calls[position - 1]);
        match calls[position - 1] {
            RegistryCall::Update(observation) => {
                assert(is_last_update_before(calls, position - 1, position));
            },
            RegistryCall::Snapshot => {
                lemma_snapshot_is_of_one_update(calls, position - 1);
                if exists|source: int| #[trigger]
                    is_last_update_before(calls, source, position - 1) && families_of(
                        state_after_calls(calls.take(position - 1)),
                    ) == families_of(Some(calls[source]->Update_0)) {
                    let source = choose|source: int| #[trigger]
                        is_last_update_before(calls, source, position - 1) && families_of(
                            state_after_calls(calls.take(position - 1)),
                        ) == families_of(Some(calls[source]->Update_0));
                    assert(is_last_update_before(calls, source, position));
                }
            },
        }
    }
}

} // verus!
