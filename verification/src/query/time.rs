//! Durations, time units and the time that a window goes by.

use vstd::prelude::*;
use vstd::string::*;

verus! {

/// The units in which a duration is given.
#[derive(Debug, Clone, Copy, PartialEq, Eq, Structural)]
pub enum TimeUnit {
    Milliseconds,
    Seconds,
    Minutes,
    Hours,
    Days,
}

impl Default for TimeUnit {
    fn default() -> (r: Self)
        ensures
            r == TimeUnit::Milliseconds,
    {
        TimeUnit::Milliseconds
    }
}

impl TimeUnit {
    /// The number of milliseconds in one unit.
    pub open spec fn spec_to_scalar(&self) -> u32 {
        match *self {
            TimeUnit::Milliseconds => 1u32,
            TimeUnit::Seconds => 1_000u32,
            TimeUnit::Minutes => 60_000u32,
            TimeUnit::Hours => 3_600_000u32,
            TimeUnit::Days => 86_400_000u32,
        }
    }

    /// The name of the unit.
    pub open spec fn name(&self) -> Seq<char> {
        match *self {
            TimeUnit::Milliseconds => "Milliseconds"@,
            TimeUnit::Seconds => "Seconds"@,
            TimeUnit::Minutes => "Minutes"@,
            TimeUnit::Hours => "Hours"@,
            TimeUnit::Days => "Days"@,
        }
    }

    /// The name of the unit.
    pub fn to_string(&self) -> (r: String)
        ensures
            r@ == self.name(),
    {
        match self {
            TimeUnit::Milliseconds => String::from_str("Milliseconds"),
            TimeUnit::Seconds => String::from_str("Seconds"),
            TimeUnit::Minutes => String::from_str("Minutes"),
            TimeUnit::Hours => String::from_str("Hours"),
            TimeUnit::Days => String::from_str("Days"),
        }
    }

    /// The number of milliseconds in one unit.
    #[verifier::when_used_as_spec(spec_to_scalar)]
    pub fn to_scalar(&self) -> (r: u32)
        ensures
            r == self.spec_to_scalar(),
    {
        match self {
            TimeUnit::Milliseconds => 1,
            TimeUnit::Seconds => 1000,
            TimeUnit::Minutes => 1000 * 60,
            TimeUnit::Hours => 1000 * 60 * 60,
            TimeUnit::Days => 1000 * 60 * 60 * 24,
        }
    }
}

/// A span of time: a number of units.
#[derive(Debug, Clone, Copy, PartialEq, Eq, Structural)]
pub struct Duration {
    pub amount: u32,
    pub unit: TimeUnit,
}

impl Duration {
    /// The length of the span in milliseconds.
    pub open spec fn spec_to_milliseconds(&self) -> int {
        self.amount * self.unit.spec_to_scalar()
    }

    /// The number of units.
    pub fn amount(&self) -> (r: u32)
        ensures
            r == self.amount,
    {
        self.amount
    }

    /// The unit.
    pub fn unit(&self) -> (r: TimeUnit)
        ensures
            r == self.unit,
    {
        self.unit
    }

    /// The length of the span in milliseconds. The result is wide enough for
    /// every amount of every unit.
    pub fn to_milliseconds(&self) -> (r: u64)
        ensures
            r == self.spec_to_milliseconds(),
    {
        let amount: u64 = self.amount as u64;
        let scalar: u64 = self.unit.to_scalar() as u64;
        assert(amount * scalar <= 0xffff_ffff * 86_400_000) by (nonlinear_arith)
            requires
                amount <= 0xffff_ffff,
                scalar <= 86_400_000,
        ;
        amount * scalar
    }

    /// A span of that many milliseconds.
    pub fn from_milliseconds(amount: u32) -> (r: Self)
        ensures
            r == (Duration { amount, unit: TimeUnit::Milliseconds }),
    {
        Self { amount, unit: TimeUnit::Milliseconds }
    }

    /// A span of that many seconds.
    pub fn from_seconds(amount: u32) -> (r: Self)
        ensures
            r == (Duration { amount, unit: TimeUnit::Seconds }),
    {
        Self { amount, unit: TimeUnit::Seconds }
    }

    /// A span of that many minutes.
    pub fn from_minutes(amount: u32) -> (r: Self)
        ensures
            r == (Duration { amount, unit: TimeUnit::Minutes }),
    {
        Self { amount, unit: TimeUnit::Minutes }
    }

    /// A span of that many hours.
    pub fn from_hours(amount: u32) -> (r: Self)
        ensures
            r == (Duration { amount, unit: TimeUnit::Hours }),
    {
        Self { amount, unit: TimeUnit::Hours }
    }

    /// A span of that many days.
    pub fn from_days(amount: u32) -> (r: Self)
        ensures
            r == (Duration { amount, unit: TimeUnit::Days }),
    {
        Self { amount, unit: TimeUnit::Days }
    }
}

/// The time that a window goes by.
#[derive(Debug, PartialEq)]
pub enum TimeCharacteristic {
    /// The time that a field of the event holds, in the given unit.
    EventTime { field_name: String, unit: TimeUnit },
}

/// What a [`TimeCharacteristic`] stands for.
pub ghost enum TimeCharacteristicModel {
    EventTime { field_name: Seq<char>, unit: TimeUnit },
}

impl View for TimeCharacteristic {
    type V = TimeCharacteristicModel;

    open spec fn view(&self) -> TimeCharacteristicModel {
        match *self {
            TimeCharacteristic::EventTime { field_name, unit } => TimeCharacteristicModel::EventTime {
                field_name: field_name@,
                unit,
            },
        }
    }
}

impl Clone for TimeCharacteristic {
    fn clone(&self) -> (r: Self)
        ensures
            r@ == self@,
    {
        match self {
            TimeCharacteristic::EventTime { field_name, unit } => TimeCharacteristic::EventTime {
                field_name: field_name.clone(),
                unit: *unit,
            },
        }
    }
}

} // verus!
