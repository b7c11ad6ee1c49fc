//! The flight as mathematics: the state of the craft with unbounded whole
//! numbers for its quantities, and what each part of the flight makes of it.

use vstd::prelude::*;
use crate::fixed::{div_spec, mul_div_spec, mul_spec, sqrt_spec, ONE};
use crate::io::{grade_spec, Abort, Score};
use crate::laws::lemma_advance;

verus! {

/// Gravity, in miles per second squared: 0.001.
pub const GRAVITY: i128 = 1_000_000_000;

/// Thrust per pound of fuel burned: 1.8.
pub const EXHAUST: i128 = 1_800_000_000_000;

/// Weight of the craft without fuel, in pounds: 16500.
pub const EMPTY_WEIGHT: i128 = 16_500_000_000_000_000;

/// Weight of the craft at the start, in pounds: 32500.
pub const LOADED_WEIGHT: i128 = 32_500_000_000_000_000;

/// Altitude at the start, in miles: 120.
pub const START_ALTITUDE: i128 = 120_000_000_000_000;

/// Downward speed at the start, in miles per second: 1.
pub const START_VELOCITY: i128 = 1_000_000_000_000;

/// Length of a turn, in seconds: 10.
pub const TURN: i128 = 10_000_000_000_000;

/// The lowest fuel rate above zero, in pounds per second: 8.
pub const MIN_RATE: i128 = 8_000_000_000_000;

/// The highest fuel rate: 200.
pub const MAX_RATE: i128 = 200_000_000_000_000;

/// Fuel below this many pounds counts as none: 0.001.
pub const FUEL_EPSILON: i128 = 1_000_000_000;

/// A turn with less than this many seconds left is over: 0.001.
pub const TIME_EPSILON: i128 = 1_000_000_000;

/// The impact is found once a refining step is shorter than this: 0.005.
pub const TOLERANCE: i128 = 5_000_000_000;

/// What the overshoot correction adds to its estimate, in seconds: 0.5.
pub const HALF: i128 = 500_000_000_000;

/// Miles per second in miles per hour.
pub const SECONDS_PER_HOUR: i128 = 3600;

/// No altitude beyond a million miles is computed with.
pub const ALTITUDE_LIMIT: i128 = 1_000_000_000_000_000_000;

/// No speed beyond a thousand miles per second.
pub const VELOCITY_LIMIT: i128 = 1_000_000_000_000_000;

/// No weight beyond a hundred thousand pounds.
pub const WEIGHT_LIMIT: i128 = 100_000_000_000_000_000;

/// No weight under one pound.
pub const WEIGHT_MIN: i128 = 1_000_000_000_000;

/// No time beyond ten million seconds.
pub const TIME_LIMIT: i128 = 10_000_000_000_000_000_000;

/// What happens next, once the steps of a turn are done.
#[derive(Clone, Copy, Debug, PartialEq, Eq, Structural)]
pub enum Phase {
    /// The turn is used up, and the pilot is asked again.
    StartTurn,
    /// The last step tried reaches the surface: the impact is to be refined.
    RefineImpact,
    /// The fuel is used up: the craft falls freely.
    FuelOut,
}

/// What the pilot is shown at the start of a turn.
#[derive(Clone, Copy, Debug, PartialEq, Eq, Structural)]
pub struct Snapshot {
    /// Time since the start of the game (seconds).
    pub elapsed_time: i128,
    /// Altitude (miles).
    pub altitude: i128,
    /// Downward speed (miles per second).
    pub velocity: i128,
    /// Fuel left (pounds).
    pub fuel: i128,
}

/// How a turn ended.
#[derive(Clone, Copy, Debug, PartialEq, Eq)]
pub enum TurnEnd {
    /// The craft is still in flight.
    NextTurn,
    /// The craft is on the surface.
    Landed {
        /// The grade of the landing.
        score: Score,
        /// The time at which the fuel ran out, if it did.
        fuel_out_at: Option<i128>,
    },
}

/// A game flown from a list of fuel rates.
#[derive(Debug)]
pub struct FlightLog {
    /// What the pilot was shown at the start of each turn.
    pub snapshots: Vec<Snapshot>,
    /// The time at which the fuel ran out, if it did before the landing.
    pub fuel_out_at: Option<i128>,
    /// The grade of the landing, or why there was none.
    pub outcome: Result<Score, Abort>,
}

/// A time, if there is one, as a whole number without bounds.
pub open spec fn as_time(t: Option<i128>) -> Option<int> {
    match t {
        Some(x) => Some(x as int),
        None => None,
    }
}

/// How far a game has come.
pub enum Progress {
    /// The craft is in flight, at the start of a turn.
    Flying(FlightState),
    /// The craft is on the surface; with the time at which the fuel ran out,
    /// if it did.
    Landed(FlightState, Option<int>),
    /// The game ended without a landing.
    Aborted(Abort),
}

/// A game up to some turn: what the pilot was shown at the start of each
/// turn, and how far the game has come.
pub struct Record {
    pub snapshots: Seq<Snapshot>,
    pub progress: Progress,
}

/// The game in which the pilot commands `rates`, turn by turn, up to the
/// landing, to the turn that aborts the game, or to the end of `rates`.
pub open spec fn flight(rates: Seq<i128>) -> Record
    decreases rates.len(),
{
    if rates.len() == 0 {
        Record { snapshots: Seq::empty(), progress: Progress::Flying(FlightState::initial()) }
    } else {
        let before = flight(rates.drop_last());
        match before.progress {
            Progress::Flying(st) => Record {
                snapshots: before.snapshots.push(st.snapshot()),
                progress: st.play_turn(rates.last() as int),
            },
            _ => before,
        }
    }
}

/// A game that has come as far as `progress` ends for now with the result
/// `r` and leaves the craft in the state `end`: flying on with no further
/// command, on the surface with its grade, or aborted.
pub open spec fn ends_as(progress: Progress, r: Result<Score, Abort>, end: FlightState) -> bool {
    match progress {
        Progress::Flying(st) => r == Err::<Score, Abort>(Abort::InputExhausted) && end == st,
        Progress::Landed(down, _) => r == Ok::<Score, Abort>(down.on_the_moon()) && end == down,
        Progress::Aborted(e) => r == Err::<Score, Abort>(e),
    }
}

/// The state of the craft in flight.
pub struct FlightState {
    /// Altitude (miles).
    pub altitude: int,
    /// Gravity (miles per second squared).
    pub gravity: int,
    /// Altitude at the end of the step under consideration.
    pub next_altitude: int,
    /// Downward speed at the end of the step under consideration.
    pub next_velocity: int,
    /// Fuel rate (pounds per second).
    pub thrust_rate: int,
    /// Time since the start of the game (seconds).
    pub elapsed_time: int,
    /// Weight of the craft with its fuel (pounds).
    pub total_weight: int,
    /// Weight of the craft without fuel (pounds).
    pub empty_weight: int,
    /// Length of the step under consideration (seconds).
    pub step: int,
    /// Time used of the current turn (seconds).
    pub turn_elapsed: int,
    /// Time left of the current turn (seconds).
    pub turn_remaining: int,
    /// Downward speed (miles per second).
    pub velocity: int,
    /// Thrust per pound of fuel burned.
    pub exhaust_coefficient: int,
}

/// A fuel rate that the pilot may command: none, or from 8 to 200.
pub open spec fn valid_rate(rate: int) -> bool {
    rate == 0 || MIN_RATE <= rate <= MAX_RATE
}

/// The series that gives the change of speed for a burnt fraction `q` of the
/// weight: `-q - q^2/2 - q^3/3 - q^4/4 - q^5/5`.
pub open spec fn velocity_series(q: int) -> int {
    let q2 = mul_spec(q, q);
    let q3 = mul_spec(q2, q);
    let q4 = mul_spec(q3, q);
    let q5 = mul_spec(q4, q);
    -q - q2 / 2 - q3 / 3 - q4 / 4 - q5 / 5
}

/// The series that gives the change of altitude for a burnt fraction `q` of
/// the weight: `q/2 + q^2/6 + q^3/12 + q^4/20 + q^5/30`.
pub open spec fn altitude_series(q: int) -> int {
    let q2 = mul_spec(q, q);
    let q3 = mul_spec(q2, q);
    let q4 = mul_spec(q3, q);
    let q5 = mul_spec(q4, q);
    q / 2 + q2 / 6 + q3 / 12 + q4 / 20 + q5 / 30
}

impl FlightState {
    /// The state with every quantity at zero.
    pub open spec fn zero() -> FlightState {
        FlightState {
            altitude: 0,
            gravity: 0,
            next_altitude: 0,
            next_velocity: 0,
            thrust_rate: 0,
            elapsed_time: 0,
            total_weight: 0,
            empty_weight: 0,
            step: 0,
            turn_elapsed: 0,
            turn_remaining: 0,
            velocity: 0,
            exhaust_coefficient: 0,
        }
    }

    /// The state at the start of a game.
    pub open spec fn initial() -> FlightState {
        FlightState {
            altitude: START_ALTITUDE as int,
            gravity: GRAVITY as int,
            next_altitude: 0,
            next_velocity: 0,
            thrust_rate: 0,
            elapsed_time: 0,
            total_weight: LOADED_WEIGHT as int,
            empty_weight: EMPTY_WEIGHT as int,
            step: 0,
            turn_elapsed: 0,
            turn_remaining: TURN as int,
            velocity: START_VELOCITY as int,
            exhaust_coefficient: EXHAUST as int,
        }
    }

    /// Every quantity is small enough to be computed with, whatever the
    /// state means.
    pub open spec fn bounded(self) -> bool {
        &&& -ALTITUDE_LIMIT <= self.altitude <= ALTITUDE_LIMIT
        &&& -VELOCITY_LIMIT <= self.velocity <= VELOCITY_LIMIT
        &&& 0 <= self.total_weight <= WEIGHT_LIMIT
        &&& 0 <= self.empty_weight <= WEIGHT_LIMIT
        &&& 0 <= self.thrust_rate <= MAX_RATE
        &&& 0 <= self.elapsed_time <= TIME_LIMIT
        &&& -TIME_LIMIT <= self.turn_elapsed <= TIME_LIMIT + TURN
        &&& -TIME_LIMIT <= self.turn_remaining <= TIME_LIMIT
        &&& -TIME_LIMIT <= self.step <= TIME_LIMIT
    }

    /// The state of a game under way: the constants of the game are in
    /// place, the fuel rate is one that may be commanded, the two parts of
    /// the turn make ten seconds, and every quantity is within its limit.
    pub open spec fn valid(self) -> bool {
        &&& self.bounded()
        &&& self.gravity == GRAVITY
        &&& self.empty_weight == EMPTY_WEIGHT
        &&& self.exhaust_coefficient == EXHAUST
        &&& self.total_weight >= WEIGHT_MIN
        &&& valid_rate(self.thrust_rate)
        &&& self.turn_elapsed + self.turn_remaining == TURN
    }

    /// The craft is above the surface, within a turn.
    pub open spec fn in_flight(self) -> bool {
        &&& self.valid()
        &&& self.altitude > 0
        &&& self.turn_remaining <= TURN
    }

    /// Downward speed in miles per hour.
    pub open spec fn v_mph(self) -> int {
        SECONDS_PER_HOUR * self.velocity
    }

    /// Pounds of fuel left.
    pub open spec fn fuel_remaining(self) -> int {
        self.total_weight - self.empty_weight
    }

    /// The state with the length of the step under consideration set.
    pub open spec fn with_step(self, s: int) -> FlightState {
        FlightState { step: s, ..self }
    }

    /// The step under consideration burns less than the craft weighs.
    pub open spec fn burn_fits(self) -> bool {
        -(self.total_weight * ONE) < self.step * self.thrust_rate < self.total_weight * ONE
    }

    /// The fraction of the weight that the step under consideration burns.
    pub open spec fn mass_fraction(self) -> int {
        mul_div_spec(self.step, self.thrust_rate, self.total_weight)
    }

    /// Downward speed after the step under consideration.
    pub open spec fn projected_velocity(self) -> int {
        self.velocity + mul_spec(self.gravity, self.step) + mul_spec(
            self.exhaust_coefficient,
            velocity_series(self.mass_fraction()),
        )
    }

    /// Altitude after the step under consideration.
    pub open spec fn projected_altitude(self) -> int {
        self.altitude - mul_spec(self.gravity, mul_spec(self.step, self.step)) / 2 - mul_spec(
            self.velocity,
            self.step,
        ) + mul_spec(
            mul_spec(self.exhaust_coefficient, self.step),
            altitude_series(self.mass_fraction()),
        )
    }

    /// The state once the step under consideration is projected: nothing
    /// changes but the altitude and speed foreseen.
    pub open spec fn apply_thrust(self) -> FlightState {
        FlightState {
            next_altitude: self.projected_altitude(),
            next_velocity: self.projected_velocity(),
            ..self
        }
    }

    /// Pounds of fuel that the step under consideration burns.
    pub open spec fn burn(self) -> int {
        mul_spec(self.step, self.thrust_rate)
    }

    /// The state once the step under consideration is taken.
    pub open spec fn update_state(self) -> FlightState {
        FlightState {
            elapsed_time: self.elapsed_time + self.step,
            turn_elapsed: self.turn_elapsed + self.step,
            turn_remaining: self.turn_remaining - self.step,
            total_weight: self.total_weight - self.burn(),
            altitude: self.next_altitude,
            velocity: self.next_velocity,
            ..self
        }
    }

    /// The state at the start of a turn flown at `rate`.
    pub open spec fn start_turn(self, rate: int) -> FlightState {
        FlightState { thrust_rate: rate, turn_elapsed: 0, turn_remaining: TURN as int, ..self }
    }

    /// The rest of the turn would burn more fuel than is left.
    pub open spec fn fuel_short(self) -> bool {
        self.empty_weight + mul_spec(self.turn_remaining, self.thrust_rate) - self.total_weight > 0
    }

    /// The length of the next step of the turn: the rest of the turn, or,
    /// where the fuel does not last that long, the time in which it burns.
    pub open spec fn turn_step(self) -> int {
        if self.fuel_short() {
            div_spec(self.fuel_remaining(), self.thrust_rate)
        } else {
            self.turn_remaining
        }
    }

    /// The state once the step under consideration is taken, where it stays
    /// within the limits; the turn goes on.
    pub open spec fn commit(self) -> Result<(Option<Phase>, FlightState), Abort> {
        if self.update_state().valid() {
            Ok((None, self.update_state()))
        } else {
            Err(Abort::OutOfRange)
        }
    }

    /// Half of what is left of 1 when the ratio of weight to thrust is taken
    /// from it.
    pub open spec fn hover_margin(self) -> int {
        (ONE - div_spec(
            mul_spec(self.total_weight, self.gravity),
            mul_spec(self.exhaust_coefficient, self.thrust_rate),
        )) / 2
    }

    /// What the weight times the speed is divided by to estimate the time in
    /// which the thrust stops the descent.
    pub open spec fn overshoot_divisor(self) -> int {
        let w = self.hover_margin();
        mul_spec(
            mul_spec(self.exhaust_coefficient, self.thrust_rate),
            w + sqrt_spec(mul_spec(w, w) + div_spec(self.velocity, self.exhaust_coefficient)),
        )
    }

    /// The step that replaces one in which the descent would turn into a
    /// climb: the estimated time until the descent stops, and half a second.
    pub open spec fn overshoot_step(self) -> int {
        div_spec(mul_spec(self.total_weight, self.velocity), self.overshoot_divisor()) + HALF
    }

    /// The overshoot correction has a step to offer.
    pub open spec fn can_correct(self) -> bool {
        &&& self.overshoot_divisor() > 0
        &&& self.overshoot_step() <= TIME_LIMIT
        &&& self.with_step(self.overshoot_step()).burn_fits()
    }

    /// A step in which the descent would turn into a climb is replaced: the
    /// corrected step is projected and, unless it reaches the surface, taken.
    /// Once it is taken the speed foreseen is the speed of the craft, so that
    /// no second correction follows it.
    pub open spec fn correct_overshoot(self) -> Result<(Option<Phase>, FlightState), Abort> {
        if !self.can_correct() {
            Err(Abort::OutOfRange)
        } else {
            let probe = self.with_step(self.overshoot_step()).apply_thrust();
            if probe.next_altitude <= 0 {
                Ok((Some(Phase::RefineImpact), probe))
            } else {
                probe.commit()
            }
        }
    }

    /// One step of a turn: the phase that the turn ends in, or none while
    /// the turn goes on, and the state then.
    pub open spec fn advance(self) -> Result<(Option<Phase>, FlightState), Abort> {
        if self.fuel_remaining() < FUEL_EPSILON {
            Ok((Some(Phase::FuelOut), self))
        } else if self.turn_remaining < TIME_EPSILON {
            Ok((Some(Phase::StartTurn), self))
        } else {
            let probe = self.with_step(self.turn_step()).apply_thrust();
            if probe.next_altitude <= 0 {
                Ok((Some(Phase::RefineImpact), probe))
            } else if probe.velocity > 0 && probe.next_velocity < 0 {
                probe.correct_overshoot()
            } else {
                probe.commit()
            }
        }
    }

    /// The steps of a turn, up to the phase that the turn ends in.
    pub open spec fn turn_loop(self) -> Result<(Phase, FlightState), Abort>
        decreases TIME_LIMIT - self.elapsed_time,
        when self.in_flight()
    {
        match self.advance() {
            Err(e) => Err(e),
            Ok((Some(phase), end)) => Ok((phase, end)),
            Ok((None, next)) => {
                proof {
                    lemma_advance(self);
                }
                next.turn_loop()
            },
        }
    }

    /// What stands under the root in the estimate of the time to impact.
    pub open spec fn impact_root(self) -> int {
        mul_spec(self.velocity, self.velocity) + mul_spec(
            2 * self.altitude,
            self.gravity - mul_div_spec(
                self.exhaust_coefficient,
                self.thrust_rate,
                self.total_weight,
            ),
        )
    }

    /// What twice the altitude is divided by in that estimate.
    pub open spec fn impact_divisor(self) -> int {
        self.velocity + sqrt_spec(self.impact_root())
    }

    /// The estimated time to impact under the present thrust.
    pub open spec fn impact_step(self) -> int {
        div_spec(2 * self.altitude, self.impact_divisor())
    }

    /// The impact can be refined by one more step.
    pub open spec fn can_refine(self) -> bool {
        &&& self.impact_root() >= 0
        &&& self.impact_divisor() != 0
        &&& -TIME_LIMIT <= self.impact_step() <= TIME_LIMIT
        &&& self.with_step(self.impact_step()).burn_fits()
    }

    /// The state after one more step towards the impact.
    pub open spec fn refine_once(self) -> FlightState {
        self.with_step(self.impact_step()).apply_thrust().update_state()
    }

    /// The state on the surface, reached by steps of the estimated time to
    /// impact until one is shorter than the tolerance.
    pub open spec fn loop_until_on_the_moon(self) -> Result<FlightState, Abort>
        decreases TIME_LIMIT - self.elapsed_time,
        when self.valid()
    {
        if self.step < TOLERANCE {
            Ok(self)
        } else if !self.can_refine() || !self.refine_once().valid() {
            Err(Abort::OutOfRange)
        } else if self.refine_once().step < TOLERANCE {
            Ok(self.refine_once())
        } else {
            self.refine_once().loop_until_on_the_moon()
        }
    }

    /// The state after `n` steps towards the impact.
    pub open spec fn refine_times(self, n: nat) -> FlightState
        decreases n,
    {
        if n == 0 {
            self
        } else {
            self.refine_once().refine_times((n - 1) as nat)
        }
    }

    /// How many steps the refinement of the impact takes.
    pub open spec fn refining_steps(self) -> nat
        decreases TIME_LIMIT - self.elapsed_time,
        when self.valid()
    {
        if self.step < TOLERANCE {
            0
        } else if !self.can_refine() || !self.refine_once().valid() {
            1
        } else if self.refine_once().step < TOLERANCE {
            1
        } else {
            1 + self.refine_once().refining_steps()
        }
    }

    /// What stands under the root in the time of the free fall.
    pub open spec fn free_fall_root(self) -> int {
        mul_spec(self.velocity, self.velocity) + mul_spec(2 * self.altitude, self.gravity)
    }

    /// The time in which the craft falls to the surface without thrust.
    pub open spec fn free_fall_time(self) -> int {
        div_spec(sqrt_spec(self.free_fall_root()) - self.velocity, self.gravity)
    }

    /// The state at the end of the free fall: the speed and the time are
    /// those of the impact, the altitude is still that at which the fuel
    /// ran out.
    pub open spec fn free_fall(self) -> FlightState {
        FlightState {
            step: self.free_fall_time(),
            velocity: self.velocity + mul_spec(self.gravity, self.free_fall_time()),
            elapsed_time: self.elapsed_time + self.free_fall_time(),
            ..self
        }
    }

    /// The state on the surface after the fuel has run out.
    pub open spec fn fuel_out(self) -> Result<FlightState, Abort> {
        if self.free_fall().valid() {
            Ok(self.free_fall())
        } else {
            Err(Abort::OutOfRange)
        }
    }

    /// The grade of the landing.
    pub open spec fn on_the_moon(self) -> Score {
        grade_spec(self.v_mph())
    }

    /// What the pilot is shown of the state.
    pub open spec fn snapshot(self) -> Snapshot {
        Snapshot {
            elapsed_time: self.elapsed_time as i128,
            altitude: self.altitude as i128,
            velocity: self.velocity as i128,
            fuel: self.fuel_remaining() as i128,
        }
    }

    /// A turn flown at `rate`, and the landing where the turn ends in one.
    pub open spec fn play_turn(self, rate: int) -> Progress {
        if !valid_rate(rate) {
            Progress::Aborted(Abort::InvalidRate)
        } else {
            match self.start_turn(rate).turn_loop() {
                Err(e) => Progress::Aborted(e),
                Ok((Phase::StartTurn, next)) => Progress::Flying(next),
                Ok((Phase::RefineImpact, end)) => match end.loop_until_on_the_moon() {
                    Ok(down) => Progress::Landed(down, None),
                    Err(e) => Progress::Aborted(e),
                },
                Ok((Phase::FuelOut, end)) => match end.fuel_out() {
                    Ok(down) => Progress::Landed(down, Some(end.elapsed_time)),
                    Err(e) => Progress::Aborted(e),
                },
            }
        }
    }
}

} // verus!
