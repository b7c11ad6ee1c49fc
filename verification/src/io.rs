//! What a flight asks of its pilot and reports back, and the grade of a
//! landing.

use vstd::prelude::*;
use crate::fixed::{
    lemma_floor_bounds, lemma_floor_unique, mul_spec, round_spec, trunc_spec, ONE,
};
use crate::lander::Lander;
use crate::model::{Snapshot, SECONDS_PER_HOUR};

verus! {

/// Feet of crater per mile per hour of impact speed.
pub const CRATER_DEPTH: i128 = 277_277_000_000;

/// The highest speed of a perfect landing, in miles per hour.
pub const PERFECT_SPEED: i128 = 1_000_000_000_000;

/// The highest speed of a good landing.
pub const GOOD_SPEED: i128 = 10_000_000_000_000;

/// The highest speed of a poor landing.
pub const POOR_SPEED: i128 = 22_000_000_000_000;

/// The highest speed that only damages the craft.
pub const DAMAGE_SPEED: i128 = 40_000_000_000_000;

/// The highest speed that the crew survives.
pub const CRASH_SPEED: i128 = 60_000_000_000_000;

/// Result of a landing.
#[derive(Clone, Copy, Debug, PartialEq, Eq, Structural)]
pub enum Score {
    Perfect,
    Good,
    Poor,
    CraftDamage,
    CrashLanding,
    /// Associated value is the depth of the crater, in feet.
    NoSurvivors(i128),
}

/// Why a flight ended without a landing.
#[derive(Clone, Copy, Debug, PartialEq, Eq, Structural)]
pub enum Abort {
    /// The pilot had no further fuel rate to give.
    InputExhausted,
    /// The pilot gave a fuel rate that is neither 0 nor from 8 to 200.
    InvalidRate,
    /// A quantity left the range in which the flight is computed.
    OutOfRange,
}

/// The grade of an impact at `mph` miles per hour.
pub open spec fn grade_spec(mph: int) -> Score {
    if mph <= PERFECT_SPEED {
        Score::Perfect
    } else if mph <= GOOD_SPEED {
        Score::Good
    } else if mph <= POOR_SPEED {
        Score::Poor
    } else if mph <= DAMAGE_SPEED {
        Score::CraftDamage
    } else if mph <= CRASH_SPEED {
        Score::CrashLanding
    } else {
        Score::NoSurvivors(mul_spec(mph, CRATER_DEPTH as int) as i128)
    }
}

/// Grades an impact at `mph` miles per hour.
pub fn grade(mph: i128) -> (score: Score)
    ensures
        score == grade_spec(mph as int),
{
    if mph <= PERFECT_SPEED {
        Score::Perfect
    } else if mph <= GOOD_SPEED {
        Score::Good
    } else if mph <= POOR_SPEED {
        Score::Poor
    } else if mph <= DAMAGE_SPEED {
        Score::CraftDamage
    } else if mph <= CRASH_SPEED {
        Score::CrashLanding
    } else {
        let whole: i128 = mph / ONE;
        let part: i128 = mph % ONE;
        let low: i128 = (part * CRATER_DEPTH) / ONE;
        let depth: i128 = whole * CRATER_DEPTH + low;
        proof {
            let p = (mph as int) * (CRATER_DEPTH as int);
            lemma_floor_bounds((part * CRATER_DEPTH) as int, ONE as int);
            lemma_floor_unique(p, ONE as int, depth as int);
        }
        Score::NoSurvivors(depth)
    }
}

/// Feet in a mile.
pub const FEET_PER_MILE: i128 = 5280;

/// What the pilot reads at the start of a turn.
#[derive(Clone, Copy, Debug, PartialEq, Eq, Structural)]
pub struct Reading {
    /// Whole seconds since the start of the game, rounded.
    pub seconds: i128,
    /// Whole miles of altitude.
    pub miles: i128,
    /// Whole feet of altitude beyond the miles.
    pub feet: i128,
    /// Downward speed in miles per hour.
    pub mph: i128,
    /// Fuel left in pounds.
    pub fuel: i128,
}

/// What the pilot reads of a snapshot: the time in whole seconds, the
/// altitude in whole miles and feet, the speed in miles per hour and the
/// fuel.
pub open spec fn reading_spec(shot: Snapshot) -> Reading {
    let miles = trunc_spec(shot.altitude as int);
    Reading {
        seconds: round_spec(shot.elapsed_time as int) as i128,
        miles: miles as i128,
        feet: trunc_spec(FEET_PER_MILE * (shot.altitude - miles * ONE)) as i128,
        mph: (SECONDS_PER_HOUR * shot.velocity) as i128,
        fuel: shot.fuel,
    }
}

/// An interface for input/output operations for playing the game.
///
/// Each method is an event handler that a `Lander` calls when a significant
/// event occurs or when input is needed. The methods may read the lander
/// through its accessors.
pub trait IO {
    /// Called at the start of a new game.
    fn start_game(&mut self, lander: &Lander);

    /// Called at the start of each 10-second turn.
    ///
    /// Returns the new fuel rate, or `None` when there is no more input.
    fn get_fuel_rate(&mut self, lander: &Lander) -> Option<i128>;

    /// Called if fuel runs out.
    ///
    /// `l` is the elapsed time since the start of the game.
    fn fuel_out(&mut self, l: i128);

    /// Called upon impact with the moon surface.
    fn on_the_moon(&mut self, lander: &Lander, score: Score);
}

/// Minimal implementation of `IO`.
///
/// Does nothing, and always asks for a fuel rate of 0.
pub struct NullIO {}

impl IO for NullIO {
    fn start_game(&mut self, _lander: &Lander) {
    }

    fn get_fuel_rate(&mut self, _lander: &Lander) -> (rate: Option<i128>)
        ensures
            rate == Some(0i128),
    {
        Some(0)
    }

    fn fuel_out(&mut self, _l: i128) {
    }

    fn on_the_moon(&mut self, _lander: &Lander, _score: Score) {
    }
}

} // verus!
