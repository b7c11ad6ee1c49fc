//! The flight of the lander: the projection of a step, the steps of a turn,
//! the refinement of the impact and the free fall once the fuel is out.

use vstd::prelude::*;
use crate::fixed::{
    floor_div, fx_div, fx_mul, fx_mul_div, fx_sqrt, lemma_div_lower, lemma_div_upper,
    lemma_fraction_bound, lemma_mul_bound, lemma_mul_unit, lemma_ratio_bound, lemma_sqrt_upper,
    mul_spec, round, trunc, ONE,
};
use crate::laws::{
    lemma_advance, lemma_flight_stops, lemma_overshoot_step, lemma_play_turn,
    lemma_reversal_needs_thrust, lemma_turn_loop, lemma_turn_step,
};
use crate::io::{grade, reading_spec, Abort, Reading, Score, FEET_PER_MILE, IO};
use crate::model::{
    altitude_series, as_time, ends_as, flight, valid_rate, velocity_series, FlightLog, FlightState,
    Phase, Progress, Record, Snapshot, TurnEnd, ALTITUDE_LIMIT, EMPTY_WEIGHT, EXHAUST,
    FUEL_EPSILON, GRAVITY, HALF, LOADED_WEIGHT, MAX_RATE, MIN_RATE, SECONDS_PER_HOUR,
    START_ALTITUDE, START_VELOCITY, TIME_EPSILON, TIME_LIMIT, TOLERANCE, TURN, VELOCITY_LIMIT,
    WEIGHT_LIMIT, WEIGHT_MIN,
};

verus! {

/// Lander simulation.
#[derive(Clone, Copy, Debug)]
pub struct Lander {
    /// Altitude (miles).
    altitude: i128,
    /// Gravity (miles/sec squared).
    gravity: i128,
    /// Altitude at the end of the step last projected (miles).
    next_altitude: i128,
    /// Downward speed at the end of the step last projected (miles/sec).
    next_velocity: i128,
    /// Fuel rate (lbs/sec).
    thrust_rate: i128,
    /// Elapsed time (sec).
    elapsed_time: i128,
    /// Total weight (lbs).
    total_weight: i128,
    /// Empty weight (lbs).
    empty_weight: i128,
    /// Length of the step last considered (sec).
    step: i128,
    /// Time elapsed in current 10-second turn (sec).
    turn_elapsed: i128,
    /// Time remaining in current 10-second turn (sec).
    turn_remaining: i128,
    /// Downward speed (miles/sec).
    velocity: i128,
    /// Thrust per pound of fuel burned.
    exhaust_coefficient: i128,
}

impl View for Lander {
    type V = FlightState;

    closed spec fn view(&self) -> FlightState {
        FlightState {
            altitude: self.altitude as int,
            gravity: self.gravity as int,
            next_altitude: self.next_altitude as int,
            next_velocity: self.next_velocity as int,
            thrust_rate: self.thrust_rate as int,
            elapsed_time: self.elapsed_time as int,
            total_weight: self.total_weight as int,
            empty_weight: self.empty_weight as int,
            step: self.step as int,
            turn_elapsed: self.turn_elapsed as int,
            turn_remaining: self.turn_remaining as int,
            velocity: self.velocity as int,
            exhaust_coefficient: self.exhaust_coefficient as int,
        }
    }
}

/// Whether `rate` is a fuel rate that the pilot may command: none, or from
/// 8 to 200 pounds per second.
pub fn rate_is_valid(rate: i128) -> (ok: bool)
    ensures
        ok == valid_rate(rate as int),
{
    rate == 0 || (MIN_RATE <= rate && rate <= MAX_RATE)
}

/// Both series of a burnt fraction `q` between -1 and 1.
fn series(q: i128) -> (r: (i128, i128))
    requires
        -ONE <= q <= ONE,
    ensures
        r.0 == velocity_series(q as int),
        r.1 == altitude_series(q as int),
        -3 * ONE <= r.0 <= 3 * ONE,
        -2 * ONE <= r.1 <= 2 * ONE,
{
    proof {
        lemma_mul_unit(q as int, q as int);
    }
    let q2: i128 = fx_mul(q, q);
    proof {
        lemma_mul_unit(q2 as int, q as int);
    }
    let q3: i128 = fx_mul(q2, q);
    proof {
        lemma_mul_unit(q3 as int, q as int);
    }
    let q4: i128 = fx_mul(q3, q);
    proof {
        lemma_mul_unit(q4 as int, q as int);
    }
    let q5: i128 = fx_mul(q4, q);
    let dv: i128 = -q - floor_div(q2, 2) - floor_div(q3, 3) - floor_div(q4, 4) - floor_div(q5, 5);
    let da: i128 = floor_div(q, 2) + floor_div(q2, 6) + floor_div(q3, 12) + floor_div(q4, 20)
        + floor_div(q5, 30);
    (dv, da)
}

impl Lander {
    #[verifier::type_invariant]
    spec fn inv(self) -> bool {
        self@.bounded()
    }

    /// Return altitude in miles.
    pub fn altitude(&self) -> (r: i128)
        ensures
            r == self@.altitude,
    {
        self.altitude
    }

    /// Return downward speed in miles/sec.
    pub fn velocity(&self) -> (r: i128)
        ensures
            r == self@.velocity,
    {
        self.velocity
    }

    /// Return seconds elapsed since the start of the game.
    pub fn elapsed_secs(&self) -> (r: i128)
        ensures
            r == self@.elapsed_time,
    {
        self.elapsed_time
    }

    /// Return total weight in pounds.
    pub fn total_weight(&self) -> (r: i128)
        ensures
            r == self@.total_weight,
    {
        self.total_weight
    }

    /// Return the weight of the craft without fuel in pounds.
    pub fn empty_weight(&self) -> (r: i128)
        ensures
            r == self@.empty_weight,
    {
        self.empty_weight
    }

    /// Return the fuel rate of the current turn in pounds/sec.
    pub fn thrust_rate(&self) -> (r: i128)
        ensures
            r == self@.thrust_rate,
    {
        self.thrust_rate
    }

    /// Return gravity in miles/sec squared.
    pub fn gravity(&self) -> (r: i128)
        ensures
            r == self@.gravity,
    {
        self.gravity
    }

    /// Return the thrust per pound of fuel burned.
    pub fn exhaust_coefficient(&self) -> (r: i128)
        ensures
            r == self@.exhaust_coefficient,
    {
        self.exhaust_coefficient
    }

    /// Return the seconds used of the current turn.
    pub fn turn_elapsed(&self) -> (r: i128)
        ensures
            r == self@.turn_elapsed,
    {
        self.turn_elapsed
    }

    /// Return the seconds left of the current turn.
    pub fn turn_remaining(&self) -> (r: i128)
        ensures
            r == self@.turn_remaining,
    {
        self.turn_remaining
    }

    /// Return the length in seconds of the step last considered.
    pub fn step(&self) -> (r: i128)
        ensures
            r == self@.step,
    {
        self.step
    }

    /// Return the altitude at the end of the step last projected.
    pub fn next_altitude(&self) -> (r: i128)
        ensures
            r == self@.next_altitude,
    {
        self.next_altitude
    }

    /// Return the downward speed at the end of the step last projected.
    pub fn next_velocity(&self) -> (r: i128)
        ensures
            r == self@.next_velocity,
    {
        self.next_velocity
    }

    /// Return downward speed as miles/hour.
    pub fn v_mph(&self) -> (r: i128)
        ensures
            r == self@.v_mph(),
    {
        proof {
            use_type_invariant(self);
        }
        SECONDS_PER_HOUR * self.velocity
    }

    /// Return pounds of fuel remaining.
    pub fn fuel_remaining(&self) -> (r: i128)
        ensures
            r == self@.fuel_remaining(),
    {
        proof {
            use_type_invariant(self);
        }
        self.total_weight - self.empty_weight
    }

    /// Whether the craft is in a state of a game under way.
    pub fn is_valid(&self) -> (ok: bool)
        ensures
            ok == self@.valid(),
    {
        proof {
            use_type_invariant(self);
        }
        self.gravity == GRAVITY && self.empty_weight == EMPTY_WEIGHT && self.exhaust_coefficient
            == EXHAUST && self.total_weight >= WEIGHT_MIN && rate_is_valid(self.thrust_rate)
            && self.turn_elapsed + self.turn_remaining == TURN
    }

    /// Whether the craft is above the surface, within a turn of a game.
    pub fn is_in_flight(&self) -> (ok: bool)
        ensures
            ok == self@.in_flight(),
    {
        self.is_valid() && self.altitude > 0 && self.turn_remaining <= TURN
    }

    /// Puts the craft where every game starts.
    pub fn reset(&mut self)
        ensures
            final(self)@ == FlightState::initial(),
    {
        *self = Lander {
            altitude: START_ALTITUDE,
            gravity: GRAVITY,
            next_altitude: 0,
            next_velocity: 0,
            thrust_rate: 0,
            elapsed_time: 0,
            total_weight: LOADED_WEIGHT,
            empty_weight: EMPTY_WEIGHT,
            step: 0,
            turn_elapsed: 0,
            turn_remaining: TURN,
            velocity: START_VELOCITY,
            exhaust_coefficient: EXHAUST,
        };
    }

    /// Projects a step of `s` seconds: works out the altitude and the speed
    /// at its end, and changes nothing else.
    pub fn apply_thrust(&mut self, s: i128)
        requires
            old(self)@.valid(),
            -TIME_LIMIT <= s <= TIME_LIMIT,
            old(self)@.with_step(s as int).burn_fits(),
        ensures
            final(self)@ == old(self)@.with_step(s as int).apply_thrust(),
    {
        let k: i128 = self.thrust_rate;
        let m: i128 = self.total_weight;
        let v: i128 = self.velocity;
        let g: i128 = self.gravity;
        let z: i128 = self.exhaust_coefficient;
        proof {
            lemma_mul_bound(s as int, k as int, TIME_LIMIT as int, MAX_RATE as int);
            lemma_fraction_bound(s * k, m as int);
        }
        let q: i128 = fx_mul_div(s, k, m);
        let sums: (i128, i128) = series(q);
        let dv: i128 = sums.0;
        let da: i128 = sums.1;
        proof {
            lemma_mul_bound(s as int, s as int, TIME_LIMIT as int, TIME_LIMIT as int);
            lemma_mul_bound(v as int, s as int, VELOCITY_LIMIT as int, TIME_LIMIT as int);
        }
        let j: i128 = v + fx_mul(g, s) + fx_mul(z, dv);
        let ss: i128 = fx_mul(s, s);
        let zs: i128 = fx_mul(z, s);
        proof {
            lemma_mul_bound(zs as int, da as int, 18 * TIME_LIMIT, 2 * ONE);
        }
        let i: i128 = self.altitude - floor_div(fx_mul(g, ss), 2) - fx_mul(v, s) + fx_mul(zs, da);
        self.step = s;
        self.next_altitude = i;
        self.next_velocity = j;
    }

    /// Takes the step that was projected: the clock, the turn, the weight,
    /// the altitude and the speed move on by it. Where that would lead out of
    /// the limits, nothing changes.
    pub fn update_state(&mut self) -> (r: Result<(), Abort>)
        requires
            old(self)@.valid(),
        ensures
            r is Ok <==> old(self)@.update_state().valid(),
            r is Ok ==> final(self)@ == old(self)@.update_state(),
            r is Err ==> r == Err::<(), Abort>(Abort::OutOfRange) && final(self)@ == old(self)@,
    {
        proof {
            lemma_mul_bound(self.step as int, self.thrust_rate as int, TIME_LIMIT as int, MAX_RATE as int);
        }
        let l: i128 = self.elapsed_time + self.step;
        let e: i128 = self.turn_elapsed + self.step;
        let t: i128 = self.turn_remaining - self.step;
        let m: i128 = self.total_weight - fx_mul(self.step, self.thrust_rate);
        let a: i128 = self.next_altitude;
        let v: i128 = self.next_velocity;
        if a < -ALTITUDE_LIMIT || a > ALTITUDE_LIMIT || v < -VELOCITY_LIMIT || v > VELOCITY_LIMIT
            || m < WEIGHT_MIN || m > WEIGHT_LIMIT || l < 0 || l > TIME_LIMIT || t < -TIME_LIMIT
            || t > TIME_LIMIT {
            return Err(Abort::OutOfRange);
        }
        self.elapsed_time = l;
        self.turn_elapsed = e;
        self.turn_remaining = t;
        self.total_weight = m;
        self.altitude = a;
        self.velocity = v;
        Ok(())
    }

    /// Starts a turn of ten seconds at the fuel rate `rate`, unless the rate
    /// is one that cannot be commanded.
    pub fn start_turn(&mut self, rate: i128) -> (r: Result<(), Abort>)
        requires
            old(self)@.valid(),
        ensures
            r is Ok <==> valid_rate(rate as int),
            r is Ok ==> final(self)@ == old(self)@.start_turn(rate as int),
            r is Err ==> r == Err::<(), Abort>(Abort::InvalidRate) && final(self)@ == old(self)@,
    {
        if rate_is_valid(rate) {
            self.thrust_rate = rate;
            self.turn_elapsed = 0;
            self.turn_remaining = TURN;
            Ok(())
        } else {
            Err(Abort::InvalidRate)
        }
    }

    /// Whether a step of `s` seconds burns less than the craft weighs.
    pub fn burn_fits(&self, s: i128) -> (r: bool)
        requires
            self@.valid(),
            -TIME_LIMIT <= s <= TIME_LIMIT,
        ensures
            r == self@.with_step(s as int).burn_fits(),
    {
        proof {
            lemma_mul_bound(s as int, self.thrust_rate as int, TIME_LIMIT as int, MAX_RATE as int);
        }
        let burnt: i128 = s * self.thrust_rate;
        let limit: i128 = self.total_weight * ONE;
        -limit < burnt && burnt < limit
    }

    /// The length of the next step of the turn.
    pub fn turn_step(&self) -> (s: i128)
        requires
            self@.in_flight(),
            self@.fuel_remaining() >= FUEL_EPSILON,
            self@.turn_remaining >= TIME_EPSILON,
        ensures
            s == self@.turn_step(),
    {
        proof {
            lemma_turn_step(self@);
            lemma_mul_bound(self.turn_remaining as int, self.thrust_rate as int, TIME_LIMIT as int, MAX_RATE as int);
        }
        if self.empty_weight + fx_mul(self.turn_remaining, self.thrust_rate) - self.total_weight > 0 {
            fx_div(self.total_weight - self.empty_weight, self.thrust_rate)
        } else {
            self.turn_remaining
        }
    }

    /// The step that replaces one in which the descent would turn into a
    /// climb, if the correction has one to offer.
    pub fn overshoot_step(&self) -> (r: Option<i128>)
        requires
            self@.valid(),
            self@.velocity > 0,
            self@.thrust_rate >= MIN_RATE,
        ensures
            match r {
                Some(s) => self@.can_correct() && s == self@.overshoot_step(),
                None => !self@.can_correct(),
            },
    {
        let m: i128 = self.total_weight;
        let v: i128 = self.velocity;
        let mg: i128 = fx_mul(m, self.gravity);
        let zk: i128 = fx_mul(self.exhaust_coefficient, self.thrust_rate);
        proof {
            lemma_div_upper(mg * ONE, zk as int, 10_000_000_000_000);
            lemma_div_lower(mg * ONE, zk as int, 0);
        }
        let w: i128 = floor_div(ONE - fx_div(mg, zk), 2);
        proof {
            lemma_mul_bound(w as int, w as int, 5_000_000_000_000, 5_000_000_000_000);
            assert(w * w >= 0) by (nonlinear_arith);
        }
        let under: i128 = fx_mul(w, w) + fx_div(v, self.exhaust_coefficient);
        proof {
            lemma_sqrt_upper(under * ONE, 30_000_000_000_000);
        }
        let inner: i128 = w + fx_sqrt(under);
        proof {
            lemma_mul_bound(zk as int, inner as int, 360_000_000_000_000, 31_000_000_000_000);
        }
        let divisor: i128 = fx_mul(zk, inner);
        if divisor <= 0 {
            return None;
        }
        proof {
            lemma_mul_bound(m as int, v as int, WEIGHT_LIMIT as int, VELOCITY_LIMIT as int);
            lemma_ratio_bound(
                mul_spec(m as int, v as int) * ONE,
                divisor as int,
                100_000_000_000_000_000_000_000_000_000_000,
            );
            lemma_overshoot_step(self@);
        }
        let s: i128 = fx_div(fx_mul(m, v), divisor) + HALF;
        if s > TIME_LIMIT {
            return None;
        }
        if self.burn_fits(s) {
            Some(s)
        } else {
            None
        }
    }

    /// One step of a turn: the phase that the turn ends in, or none while
    /// the turn goes on.
    ///
    /// With no fuel left the turn ends in the free fall, and with no time
    /// left in the next turn. Else the next step is projected. Where it
    /// reaches the surface, the turn ends in the refinement of the impact.
    /// Where it would turn the descent into a climb, a corrected step is
    /// projected and taken in its place, again and again while the craft
    /// still descends and would still climb. Else the step is taken.
    pub fn advance(&mut self) -> (r: Result<Option<Phase>, Abort>)
        requires
            old(self)@.in_flight(),
        ensures
            match old(self)@.advance() {
                Ok((phase, end)) => r == Ok::<Option<Phase>, Abort>(phase) && final(self)@ == end,
                Err(e) => r == Err::<Option<Phase>, Abort>(e),
            },
    {
        if self.fuel_remaining() < FUEL_EPSILON {
            return Ok(Some(Phase::FuelOut));
        }
        if self.turn_remaining < TIME_EPSILON {
            return Ok(Some(Phase::StartTurn));
        }
        let s: i128 = self.turn_step();
        proof {
            lemma_turn_step(self@);
            if self.thrust_rate == 0 {
                lemma_reversal_needs_thrust(self@.with_step(s as int));
            }
        }
        self.apply_thrust(s);
        if self.next_altitude <= 0 {
            return Ok(Some(Phase::RefineImpact));
        }
        if self.velocity > 0 && self.next_velocity < 0 {
            loop
                invariant
                    self@.valid(),
                    self@.velocity > 0,
                    self@.thrust_rate >= MIN_RATE,
                    old(self)@.advance() == self@.correct_overshoot(),
                decreases TIME_LIMIT - self.elapsed_time,
            {
                let s: i128 = match self.overshoot_step() {
                    Some(s) => s,
                    None => {
                        return Err(Abort::OutOfRange);
                    },
                };
                self.apply_thrust(s);
                if self.next_altitude <= 0 {
                    return Ok(Some(Phase::RefineImpact));
                }
                match self.update_state() {
                    Ok(()) => {},
                    Err(e) => {
                        return Err(e);
                    },
                }
                if self.next_velocity >= 0 || self.velocity <= 0 {
                    return Ok(None);
                }
            }
        }
        match self.update_state() {
            Ok(()) => Ok(None),
            Err(e) => Err(e),
        }
    }

    /// The steps of a turn, up to the phase that the turn ends in.
    pub fn turn_loop(&mut self) -> (r: Result<Phase, Abort>)
        requires
            old(self)@.in_flight(),
        ensures
            match old(self)@.turn_loop() {
                Ok((phase, end)) => r == Ok::<Phase, Abort>(phase) && final(self)@ == end,
                Err(e) => r == Err::<Phase, Abort>(e),
            },
    {
        loop
            invariant
                self@.in_flight(),
                self@.turn_loop() == old(self)@.turn_loop(),
            decreases TIME_LIMIT - self.elapsed_time,
        {
            proof {
                lemma_advance(self@);
            }
            match self.advance() {
                Ok(Some(phase)) => {
                    return Ok(phase);
                },
                Ok(None) => {},
                Err(e) => {
                    return Err(e);
                },
            }
        }
    }

    /// The estimated time to impact under the present thrust, if the
    /// estimate exists and is a step that can be projected.
    pub fn impact_step(&self) -> (r: Option<i128>)
        requires
            self@.valid(),
        ensures
            match r {
                Some(s) => self@.can_refine() && s == self@.impact_step(),
                None => !self@.can_refine(),
            },
    {
        let v: i128 = self.velocity;
        let zk: i128 = self.exhaust_coefficient * self.thrust_rate;
        proof {
            lemma_div_upper(zk as int, self.total_weight as int, 360_000_000_000_000);
            lemma_div_lower(zk as int, self.total_weight as int, 0);
        }
        let net: i128 = self.gravity - fx_mul_div(self.exhaust_coefficient, self.thrust_rate, self.total_weight);
        let twice: i128 = 2 * self.altitude;
        proof {
            lemma_mul_bound(twice as int, net as int, 2 * ALTITUDE_LIMIT, 360_000_000_000_000);
            lemma_mul_bound(v as int, v as int, VELOCITY_LIMIT as int, VELOCITY_LIMIT as int);
        }
        let under: i128 = fx_mul(v, v) + fx_mul(twice, net);
        if under < 0 {
            return None;
        }
        proof {
            lemma_sqrt_upper(under * ONE, 30_000_000_000_000_000);
        }
        let divisor: i128 = v + fx_sqrt(under);
        if divisor == 0 {
            return None;
        }
        proof {
            lemma_ratio_bound(twice * ONE, divisor as int, 2 * ALTITUDE_LIMIT * ONE);
        }
        let s: i128 = fx_div(twice, divisor);
        if s < -TIME_LIMIT || s > TIME_LIMIT {
            return None;
        }
        if self.burn_fits(s) {
            Some(s)
        } else {
            None
        }
    }

    /// Finds the impact: takes steps of the estimated time to impact until
    /// one is shorter than the tolerance.
    pub fn loop_until_on_the_moon(&mut self) -> (r: Result<(), Abort>)
        requires
            old(self)@.valid(),
        ensures
            match old(self)@.loop_until_on_the_moon() {
                Ok(end) => r is Ok && final(self)@ == end,
                Err(e) => r == Err::<(), Abort>(e),
            },
    {
        while self.step >= TOLERANCE
            invariant
                self@.valid(),
                self@.loop_until_on_the_moon() == old(self)@.loop_until_on_the_moon(),
            decreases (if self.step >= TOLERANCE { 1int } else { 0int }), TIME_LIMIT - self.elapsed_time,
        {
            let s: i128 = match self.impact_step() {
                Some(s) => s,
                None => {
                    return Err(Abort::OutOfRange);
                },
            };
            self.apply_thrust(s);
            match self.update_state() {
                Ok(()) => {},
                Err(e) => {
                    return Err(e);
                },
            }
        }
        Ok(())
    }

    /// The free fall to the surface once the fuel is out: the speed and the
    /// clock are set to those of the impact. Where they would lie beyond the
    /// limits, nothing changes.
    pub fn fuel_out(&mut self) -> (r: Result<(), Abort>)
        requires
            old(self)@.valid(),
            old(self)@.altitude >= 0,
        ensures
            match old(self)@.fuel_out() {
                Ok(end) => r is Ok && final(self)@ == end,
                Err(e) => r == Err::<(), Abort>(e) && final(self)@ == old(self)@,
            },
    {
        let v: i128 = self.velocity;
        proof {
            lemma_mul_bound(v as int, v as int, VELOCITY_LIMIT as int, VELOCITY_LIMIT as int);
            assert(v * v >= 0) by (nonlinear_arith);
        }
        let under: i128 = fx_mul(v, v) + fx_mul(2 * self.altitude, self.gravity);
        proof {
            lemma_sqrt_upper(under * ONE, 1_100_000_000_000_000);
        }
        let s: i128 = fx_div(fx_sqrt(under) - v, self.gravity);
        let speed: i128 = v + fx_mul(self.gravity, s);
        let l: i128 = self.elapsed_time + s;
        if speed < -VELOCITY_LIMIT || speed > VELOCITY_LIMIT || l < 0 || l > TIME_LIMIT {
            return Err(Abort::OutOfRange);
        }
        self.step = s;
        self.velocity = speed;
        self.elapsed_time = l;
        Ok(())
    }

    /// Grades the landing by the speed of the impact.
    pub fn on_the_moon(&self) -> (score: Score)
        ensures
            score == self@.on_the_moon(),
    {
        grade(self.v_mph())
    }

    /// What the pilot is shown of the craft.
    pub fn snapshot(&self) -> (shot: Snapshot)
        ensures
            shot == self@.snapshot(),
    {
        Snapshot {
            elapsed_time: self.elapsed_time,
            altitude: self.altitude,
            velocity: self.velocity,
            fuel: self.fuel_remaining(),
        }
    }

    /// What the pilot reads of the craft: the time in whole seconds, the
    /// altitude in whole miles and feet, the speed in miles per hour and the
    /// fuel.
    pub fn reading(&self) -> (r: Reading)
        ensures
            r == reading_spec(self@.snapshot()),
    {
        proof {
            use_type_invariant(self);
        }
        let miles: i128 = trunc(self.altitude);
        Reading {
            seconds: round(self.elapsed_time),
            miles,
            feet: trunc(FEET_PER_MILE * (self.altitude - miles * ONE)),
            mph: self.v_mph(),
            fuel: self.fuel_remaining(),
        }
    }

    /// Flies a turn at the fuel rate `rate`, and lands where the turn ends
    /// in the refinement of the impact or in the free fall.
    pub fn play_turn(&mut self, rate: i128) -> (r: Result<TurnEnd, Abort>)
        requires
            old(self)@.in_flight(),
        ensures
            match old(self)@.play_turn(rate as int) {
                Progress::Flying(next) => final(self)@ == next && r == Ok::<TurnEnd, Abort>(
                    TurnEnd::NextTurn,
                ),
                Progress::Landed(down, at) => final(self)@ == down && match r {
                    Ok(TurnEnd::Landed { score, fuel_out_at }) => score == down.on_the_moon()
                        && as_time(fuel_out_at) == at,
                    _ => false,
                },
                Progress::Aborted(e) => r == Err::<TurnEnd, Abort>(e),
            },
    {
        match self.start_turn(rate) {
            Ok(()) => {},
            Err(e) => {
                return Err(e);
            },
        }
        proof {
            lemma_turn_loop(self@);
        }
        let phase: Phase = match self.turn_loop() {
            Ok(phase) => phase,
            Err(e) => {
                return Err(e);
            },
        };
        match phase {
            Phase::StartTurn => Ok(TurnEnd::NextTurn),
            Phase::RefineImpact => match self.loop_until_on_the_moon() {
                Ok(()) => Ok(TurnEnd::Landed { score: self.on_the_moon(), fuel_out_at: None }),
                Err(e) => Err(e),
            },
            Phase::FuelOut => {
                let at: i128 = self.elapsed_time;
                match self.fuel_out() {
                    Ok(()) => Ok(
                        TurnEnd::Landed { score: self.on_the_moon(), fuel_out_at: Some(at) },
                    ),
                    Err(e) => Err(e),
                }
            },
        }
    }

    /// Flies a game from its start with the fuel rates of `rates`, one for
    /// each turn, until the craft is on the surface, a turn aborts the game
    /// or the rates are used up.
    pub fn fly(&mut self, rates: &[i128]) -> (log: FlightLog)
        ensures
            log.snapshots@ == flight(rates@).snapshots,
            ends_as(flight(rates@).progress, log.outcome, final(self)@),
            as_time(log.fuel_out_at) == match flight(rates@).progress {
                Progress::Landed(_, at) => at,
                _ => None,
            },
    {
        self.reset();
        let mut snapshots: Vec<Snapshot> = Vec::new();
        let mut i: usize = 0;
        while i < rates.len()
            invariant
                i <= rates.len(),
                self@.in_flight(),
                flight(rates@.take(i as int)) == (Record {
                    snapshots: snapshots@,
                    progress: Progress::Flying(self@),
                }),
            decreases rates.len() - i,
        {
            snapshots.push(self.snapshot());
            proof {
                assert(rates@.take(i + 1).drop_last() =~= rates@.take(i as int));
                lemma_play_turn(self@, rates@[i as int] as int);
            }
            match self.play_turn(rates[i]) {
                Ok(TurnEnd::NextTurn) => {
                    i = i + 1;
                },
                Ok(TurnEnd::Landed { score, fuel_out_at }) => {
                    proof {
                        lemma_flight_stops(rates@, i + 1);
                    }
                    return FlightLog { snapshots, fuel_out_at, outcome: Ok(score) };
                },
                Err(e) => {
                    proof {
                        lemma_flight_stops(rates@, i + 1);
                    }
                    return FlightLog { snapshots, fuel_out_at: None, outcome: Err(e) };
                },
            }
        }
        proof {
            assert(rates@.take(rates.len() as int) =~= rates@);
        }
        FlightLog { snapshots, fuel_out_at: None, outcome: Err(Abort::InputExhausted) }
    }

    /// Run the simulation until the lander is on the moon.
    ///
    /// Methods of the `IO` object will be called to get input and report
    /// results. The game is the one that `flight` describes for the fuel
    /// rates that `io` hands out.
    pub fn play_game(&mut self, io: &mut dyn IO) -> (r: Result<Score, Abort>)
        ensures
            exists|rates: Seq<i128>| ends_as(#[trigger] flight(rates).progress, r, final(self)@),
    {
        self.reset();
        io.start_game(self);
        let ghost mut rates: Seq<i128> = Seq::empty();
        loop
            invariant
                self@.in_flight(),
                flight(rates).progress == Progress::Flying(self@),
            decreases TIME_LIMIT - self.elapsed_time,
        {
            let rate: i128 = match io.get_fuel_rate(self) {
                Some(rate) => rate,
                None => {
                    return Err(Abort::InputExhausted);
                },
            };
            proof {
                assert(rates.push(rate).drop_last() =~= rates);
                lemma_play_turn(self@, rate as int);
                rates = rates.push(rate);
            }
            match self.play_turn(rate) {
                Ok(TurnEnd::NextTurn) => {},
                Ok(TurnEnd::Landed { score, fuel_out_at }) => {
                    match fuel_out_at {
                        Some(l) => {
                            io.fuel_out(l);
                        },
                        None => {},
                    }
                    io.on_the_moon(self, score);
                    return Ok(score);
                },
                Err(e) => {
                    return Err(e);
                },
            }
        }
    }
}

impl Default for Lander {
    /// A lander with every quantity at zero, as it is before its first game.
    fn default() -> (lander: Lander)
        ensures
            lander@ == FlightState::zero(),
    {
        Lander {
            altitude: 0,
            gravity: 0,
            next_altitude: 0,
            next_velocity: 0,
            thrust_rate: 0,
            elapsed_time: 0,
            total_weight: 0,
            empty_weight: 0,
            step: 0,
            turn_elapsed: 0,
            turn_remaining: 0,
            velocity: 0,
            exhaust_coefficient: 0,
        }
    }
}

} // verus!
