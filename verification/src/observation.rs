//! Observations of a weather station: readings tagged with their unit.

use crate::text::same_text;
use vstd::prelude::*;

verus! {

/// Physical unit of a reading, as the upstream service tags it.
#[derive(Clone, Copy, Debug, PartialEq, Eq, Structural)]
pub enum Unit {
    DegreesCelsius,
    Percent,
    KilometersPerHour,
    DegreesAngle,
    Pascals,
}

impl Unit {
    /// The code under which the upstream service names the unit.
    pub open spec fn spec_code(self) -> Seq<char> {
        match self {
            Unit::DegreesCelsius => "wmoUnit:degC"@,
            Unit::Percent => "wmoUnit:percent"@,
            Unit::KilometersPerHour => "wmoUnit:km_h-1"@,
            Unit::DegreesAngle => "wmoUnit:degree_(angle)"@,
            Unit::Pascals => "wmoUnit:Pa"@,
        }
    }

    /// The unit that a code names: the first unit in declaration order whose
    /// code is `code`, if there is one.
    pub open spec fn spec_from_code(code: Seq<char>) -> Option<Unit> {
        if code == Unit::DegreesCelsius.spec_code() {
            Some(Unit::DegreesCelsius)
        } else if code == Unit::Percent.spec_code() {
            Some(Unit::Percent)
        } else if code == Unit::KilometersPerHour.spec_code() {
            Some(Unit::KilometersPerHour)
        } else if code == Unit::DegreesAngle.spec_code() {
            Some(Unit::DegreesAngle)
        } else if code == Unit::Pascals.spec_code() {
            Some(Unit::Pascals)
        } else {
            None
        }
    }

    /// The code of the unit.
    pub fn code(self) -> (r: &'static str)
        ensures
            r@ == self.spec_code(),
    {
        match self {
            Unit::DegreesCelsius => "wmoUnit:degC",
            Unit::Percent => "wmoUnit:percent",
            Unit::KilometersPerHour => "wmoUnit:km_h-1",
            Unit::DegreesAngle => "wmoUnit:degree_(angle)",
            Unit::Pascals => "wmoUnit:Pa",
        }
    }

    /// The unit that `code` names, if it names one.
    pub fn from_code(code: &str) -> (r: Option<Unit>)
        ensures
            r == Unit::spec_from_code(code@),
    {
        if same_text(code, Unit::DegreesCelsius.code()) {
            Some(Unit::DegreesCelsius)
        } else if same_text(code, Unit::Percent.code()) {
            Some(Unit::Percent)
        } else if same_text(code, Unit::KilometersPerHour.code()) {
            Some(Unit::KilometersPerHour)
        } else if same_text(code, Unit::DegreesAngle.code()) {
            Some(Unit::DegreesAngle)
        } else if same_text(code, Unit::Pascals.code()) {
            Some(Unit::Pascals)
        } else {
            None
        }
    }
}

/// Every unit is found again from its own code.
pub proof fn lemma_unit_code_round_trip(unit: Unit)
    ensures
        Unit::spec_from_code(unit.spec_code()) == Some(unit),
{
    reveal_strlit("wmoUnit:degC");
    reveal_strlit("wmoUnit:percent");
    reveal_strlit("wmoUnit:km_h-1");
    reveal_strlit("wmoUnit:degree_(angle)");
    reveal_strlit("wmoUnit:Pa");
    // The five codes differ in length.
    assert("wmoUnit:degC"@.len() == 12);
    assert("wmoUnit:percent"@.len() == 15);
    assert("wmoUnit:km_h-1"@.len() == 14);
    assert("wmoUnit:degree_(angle)"@.len() == 22);
    assert("wmoUnit:Pa"@.len() == 10);
}

/// What a station reports a reading of.
#[derive(Clone, Copy, Debug, PartialEq, Eq, Structural)]
pub enum Quantity {
    Temperature,
    RelativeHumidity,
    WindSpeed,
    WindDirection,
    BarometricPressure,
}

impl Quantity {
    /// The unit in which readings of the quantity are published.
    pub open spec fn spec_unit(self) -> Unit {
        match self {
            Quantity::Temperature => Unit::DegreesCelsius,
            Quantity::RelativeHumidity => Unit::Percent,
            Quantity::WindSpeed => Unit::KilometersPerHour,
            Quantity::WindDirection => Unit::DegreesAngle,
            Quantity::BarometricPressure => Unit::Pascals,
        }
    }

    /// The unit of the quantity.
    pub fn unit(self) -> (r: Unit)
        ensures
            r == self.spec_unit(),
    {
        match self {
            Quantity::Temperature => Unit::DegreesCelsius,
            Quantity::RelativeHumidity => Unit::Percent,
            Quantity::WindSpeed => Unit::KilometersPerHour,
            Quantity::WindDirection => Unit::DegreesAngle,
            Quantity::BarometricPressure => Unit::Pascals,
        }
    }
}

/// One reading: a count of thousandths of `unit`.
#[derive(Clone, Copy, Debug, PartialEq, Eq, Structural)]
pub struct Measurement {
    pub value: i64,
    pub unit: Unit,
}

impl Measurement {
    /// The reading of `value` thousandths of `unit`.
    pub fn new(value: i64, unit: Unit) -> (r: Measurement)
        ensures
            r == (Measurement { value, unit }),
    {
        Measurement { value, unit }
    }
}

/// Why a set of readings is no observation.
#[derive(Clone, Copy, Debug, PartialEq, Eq, Structural)]
pub enum ObservationError {
    /// The reading of `quantity` came in `found`, not in the quantity's unit.
    UnitMismatch { quantity: Quantity, found: Unit },
}

/// The readings of one successful fetch, in the order of `Quantity`.
pub struct ObservationView {
    pub station: Seq<char>,
    pub temperature: i64,
    pub relative_humidity: i64,
    pub wind_speed: i64,
    pub wind_direction: i64,
    pub barometric_pressure: i64,
}

impl ObservationView {
    /// The reading of `quantity`, in thousandths of the quantity's unit.
    pub open spec fn value(self, quantity: Quantity) -> i64 {
        match quantity {
            Quantity::Temperature => self.temperature,
            Quantity::RelativeHumidity => self.relative_humidity,
            Quantity::WindSpeed => self.wind_speed,
            Quantity::WindDirection => self.wind_direction,
            Quantity::BarometricPressure => self.barometric_pressure,
        }
    }
}

/// A complete set of readings of one station. Each reading is held in
/// thousandths of its quantity's unit; there is no observation with a reading
/// missing or in another unit.
#[derive(Debug, PartialEq, Eq)]
pub struct Observation {
    station: String,
    temperature: i64,
    relative_humidity: i64,
    wind_speed: i64,
    wind_direction: i64,
    barometric_pressure: i64,
}

impl View for Observation {
    type V = ObservationView;

    closed spec fn view(&self) -> ObservationView {
        ObservationView {
            station: self.station@,
            temperature: self.temperature,
            relative_humidity: self.relative_humidity,
            wind_speed: self.wind_speed,
            wind_direction: self.wind_direction,
            barometric_pressure: self.barometric_pressure,
        }
    }
}

/// The first quantity, in declaration order, whose reading is not in the
/// quantity's unit.
pub open spec fn first_unit_mismatch(
    temperature: Measurement,
    relative_humidity: Measurement,
    wind_speed: Measurement,
    wind_direction: Measurement,
    barometric_pressure: Measurement,
) -> Option<ObservationError> {
    if temperature.unit != Quantity::Temperature.spec_unit() {
        Some(
            ObservationError::UnitMismatch {
                quantity: Quantity::Temperature,
                found: temperature.unit,
            },
        )
    } else if relative_humidity.unit != Quantity::RelativeHumidity.spec_unit() {
        Some(
            ObservationError::UnitMismatch {
                quantity: Quantity::RelativeHumidity,
                found: relative_humidity.unit,
            },
        )
    } else if wind_speed.unit != Quantity::WindSpeed.spec_unit() {
        Some(
            ObservationError::UnitMismatch {
                quantity: Quantity::WindSpeed,
                found: wind_speed.unit,
            },
        )
    } else if wind_direction.unit != Quantity::WindDirection.spec_unit() {
        Some(
            ObservationError::UnitMismatch {
                quantity: Quantity::WindDirection,
                found: wind_direction.unit,
            },
        )
    } else if barometric_pressure.unit != Quantity::BarometricPressure.spec_unit() {
        Some(
            ObservationError::UnitMismatch {
                quantity: Quantity::BarometricPressure,
                found: barometric_pressure.unit,
            },
        )
    } else {
        None
    }
}

impl Observation {
    /// Builds the observation of `station` from its five readings, or names
    /// the first reading that is not in its quantity's unit.
    pub fn new(
        station: String,
        temperature: Measurement,
        relative_humidity: Measurement,
        wind_speed: Measurement,
        wind_direction: Measurement,
        barometric_pressure: Measurement,
    ) -> (r: Result<Observation, ObservationError>)
        ensures
            match r {
                Ok(observation) => {
                    &&& first_unit_mismatch(
                        temperature,
                        relative_humidity,
                        wind_speed,
                        wind_direction,
                        barometric_pressure,
                    ) is None
                    &&& observation@ == (ObservationView {
                        station: station@,
                        temperature: temperature.value,
                        relative_humidity: relative_humidity.value,
                        wind_speed: wind_speed.value,
                        wind_direction: wind_direction.value,
                        barometric_pressure: barometric_pressure.value,
                    })
                },
                Err(error) => first_unit_mismatch(
                    temperature,
                    relative_humidity,
                    wind_speed,
                    wind_direction,
                    barometric_pressure,
                ) == Some(error),
            },
    {
        if temperature.unit != Quantity::Temperature.unit() {
            Err(
                ObservationError::UnitMismatch {
                    quantity: Quantity::Temperature,
                    found: temperature.unit,
                },
            )
        } else if relative_humidity.unit != Quantity::RelativeHumidity.unit() {
            Err(
                ObservationError::UnitMismatch {
                    quantity: Quantity::RelativeHumidity,
                    found: relative_humidity.unit,
                },
            )
        } else if wind_speed.unit != Quantity::WindSpeed.unit() {
            Err(
                ObservationError::UnitMismatch {
                    quantity: Quantity::WindSpeed,
                    found: wind_speed.unit,
                },
            )
        } else if wind_direction.unit != Quantity::WindDirection.unit() {
            Err(
                ObservationError::UnitMismatch {
                    quantity: Quantity::WindDirection,
                    found: wind_direction.unit,
                },
            )
        } else if barometric_pressure.unit != Quantity::BarometricPressure.unit() {
            Err(
                ObservationError::UnitMismatch {
                    quantity: Quantity::BarometricPressure,
                    found: barometric_pressure.unit,
                },
            )
        } else {
            Ok(
                Observation {
                    station,
                    temperature: temperature.value,
                    relative_humidity: relative_humidity.value,
                    wind_speed: wind_speed.value,
                    wind_direction: wind_direction.value,
                    barometric_pressure: barometric_pressure.value,
                },
            )
        }
    }

    /// The station that was observed.
    pub fn station(&self) -> (r: &String)
        ensures
            r@ == self@.station,
    {
        &self.station
    }

    /// The reading of `quantity`, tagged with the quantity's unit.
    pub fn reading(&self, quantity: Quantity) -> (r: Measurement)
        ensures
            r.value == self@.value(quantity),
            r.unit == quantity.spec_unit(),
    {
        let value: i64 = match quantity {
            Quantity::Temperature => self.temperature,
            Quantity::RelativeHumidity => self.relative_humidity,
            Quantity::WindSpeed => self.wind_speed,
            Quantity::WindDirection => self.wind_direction,
            Quantity::BarometricPressure => self.barometric_pressure,
        };
        Measurement { value, unit: quantity.unit() }
    }

    /// An observation with the same station and readings.
    pub fn duplicate(&self) -> (r: Observation)
        ensures
            r@ == self@,
    {
        Observation {
            station: self.station.clone(),
            temperature: self.temperature,
            relative_humidity: self.relative_humidity,
            wind_speed: self.wind_speed,
            wind_direction: self.wind_direction,
            barometric_pressure: self.barometric_pressure,
        }
    }
}

} // verus!
