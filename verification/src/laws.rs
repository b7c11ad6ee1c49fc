//! What holds of every flight.

use vstd::prelude::*;
use crate::fixed::{lemma_floor_bounds, lemma_ratio_sign, mul_spec, ONE};
use crate::model::{
    altitude_series, flight, valid_rate, velocity_series, FlightState, Phase, Progress, Snapshot,
    FUEL_EPSILON, HALF, MIN_RATE, TIME_EPSILON, TIME_LIMIT, TOLERANCE, TURN,
};

verus! {

/// The next step of a turn is longer than nothing and no longer than the
/// rest of the turn, and it burns no more fuel than is left: where the rest
/// of the turn would burn more, the rate is above zero and the step is cut
/// to the time in which the fuel burns, so that what is left after it counts
/// as none.
pub proof fn lemma_turn_step(st: FlightState)
    requires
        st.in_flight(),
        st.fuel_remaining() >= FUEL_EPSILON,
        st.turn_remaining >= TIME_EPSILON,
    ensures
        0 < st.turn_step() <= st.turn_remaining,
        st.fuel_short() ==> st.thrust_rate >= MIN_RATE,
        0 <= st.with_step(st.turn_step()).burn() <= st.fuel_remaining(),
        st.total_weight - st.with_step(st.turn_step()).burn() >= st.empty_weight,
        st.fuel_short() ==> st.fuel_remaining() - st.with_step(st.turn_step()).burn()
            < FUEL_EPSILON,
        st.with_step(st.turn_step()).burn_fits(),
{
    let k = st.thrust_rate;
    let t = st.turn_remaining;
    let fuel = st.fuel_remaining();
    let s = st.turn_step();
    assert(t * k >= 0) by (nonlinear_arith)
        requires
            t >= 0,
            k >= 0,
    ;
    lemma_floor_bounds(t * k, ONE as int);
    if st.fuel_short() {
        if k == 0 {
            assert(t * k == 0) by (nonlinear_arith)
                requires
                    k == 0,
            ;
        }
        lemma_ratio_sign(fuel * ONE, k);
        lemma_floor_bounds(fuel * ONE, k);
        assert(s < t && s * k >= 0) by (nonlinear_arith)
            requires
                s * k < t * k,
                k > 0,
                s >= 1,
        ;
        lemma_floor_bounds(s * k, ONE as int);
    }
}

/// Without thrust nothing of the weight is burnt, and a step is one of a
/// free fall: the speed grows by gravity times the step, and the altitude
/// falls by the speed times the step and half of gravity times its square.
pub proof fn lemma_coasting(st: FlightState)
    requires
        st.valid(),
        st.thrust_rate == 0,
    ensures
        st.mass_fraction() == 0,
        st.burn() == 0,
        st.projected_velocity() == st.velocity + mul_spec(st.gravity, st.step),
        st.projected_altitude() == st.altitude - mul_spec(
            st.gravity,
            mul_spec(st.step, st.step),
        ) / 2 - mul_spec(st.velocity, st.step),
{
    assert(st.step * st.thrust_rate == 0) by (nonlinear_arith)
        requires
            st.thrust_rate == 0,
    ;
    let zs = mul_spec(st.exhaust_coefficient, st.step);
    assert(zs * 0 == 0) by (nonlinear_arith);
}

/// Without thrust no step forward slows the descent: a step in which the
/// descent would turn into a climb is one at a fuel rate above zero.
pub proof fn lemma_reversal_needs_thrust(st: FlightState)
    requires
        st.valid(),
        st.step >= 0,
        st.thrust_rate == 0,
    ensures
        st.apply_thrust().next_velocity >= st.velocity,
{
    lemma_coasting(st);
}

/// A step forward that is taken moves the clock on by its length, uses up
/// as much of the turn, and leaves the craft no heavier; the two parts of
/// the turn still make ten seconds.
pub proof fn lemma_commit_forward(st: FlightState)
    requires
        st.valid(),
        st.step > 0,
    ensures
        st.update_state().elapsed_time > st.elapsed_time,
        st.update_state().turn_remaining < st.turn_remaining,
        st.update_state().total_weight <= st.total_weight,
        st.update_state().turn_elapsed + st.update_state().turn_remaining == TURN,
{
    let s = st.step;
    let k = st.thrust_rate;
    assert(s * k >= 0) by (nonlinear_arith)
        requires
            s >= 0,
            k >= 0,
    ;
    lemma_floor_bounds(s * k, ONE as int);
}

/// The corrected step is at least half a second long.
pub proof fn lemma_overshoot_step(st: FlightState)
    requires
        st.valid(),
        st.velocity > 0,
        st.overshoot_divisor() > 0,
    ensures
        st.overshoot_step() >= HALF,
{
    let m = st.total_weight;
    let v = st.velocity;
    assert(m * v >= 0) by (nonlinear_arith)
        requires
            m >= 0,
            v >= 0,
    ;
    lemma_floor_bounds(m * v, ONE as int);
    lemma_ratio_sign(mul_spec(m, v) * ONE, st.overshoot_divisor());
}

/// A step taken within a turn: the clock moves on, the craft gets no
/// heavier, and it is still in flight.
pub proof fn lemma_advance(st: FlightState)
    requires
        st.in_flight(),
    ensures
        match st.advance() {
            Ok((None, next)) => next.in_flight() && next.elapsed_time > st.elapsed_time
                && next.total_weight <= st.total_weight,
            _ => true,
        },
{
    if st.fuel_remaining() >= FUEL_EPSILON && st.turn_remaining >= TIME_EPSILON {
        lemma_turn_step(st);
        let probe = st.with_step(st.turn_step()).apply_thrust();
        if probe.next_altitude > 0 && probe.velocity > 0 && probe.next_velocity < 0
            && probe.can_correct() {
            lemma_overshoot_step(probe);
            let s = probe.overshoot_step();
            let k = probe.thrust_rate;
            assert(s * k >= 0) by (nonlinear_arith)
                requires
                    s >= 0,
                    k >= 0,
            ;
            lemma_floor_bounds(s * k, ONE as int);
        }
    }
}

/// The steps of a turn leave the craft in a state of the game, no earlier
/// and no heavier than it was. A turn ends in the free fall with no fuel
/// left, in the next turn with fuel but no time left, and in the refinement
/// of the impact with a step foreseen to reach the surface from above it. A
/// turn that ends in the next turn or in the free fall leaves the craft in
/// flight, and one that ends in the next turn after it had time left has
/// moved the clock on.
pub proof fn lemma_turn_loop(st: FlightState)
    requires
        st.in_flight(),
    ensures
        match st.turn_loop() {
            Ok((phase, end)) => {
                &&& end.valid()
                &&& end.altitude > 0
                &&& end.elapsed_time >= st.elapsed_time
                &&& end.total_weight <= st.total_weight
                &&& phase == Phase::FuelOut <==> end.fuel_remaining() < FUEL_EPSILON
                &&& phase == Phase::StartTurn ==> end.turn_remaining < TIME_EPSILON
                &&& phase == Phase::RefineImpact ==> end.next_altitude <= 0
                &&& phase != Phase::RefineImpact ==> end.in_flight()
                &&& phase == Phase::StartTurn && st.turn_remaining >= TIME_EPSILON
                    ==> end.elapsed_time > st.elapsed_time
            },
            Err(_) => true,
        },
    decreases TIME_LIMIT - st.elapsed_time,
{
    lemma_advance(st);
    match st.advance() {
        Ok((None, next)) => {
            lemma_turn_loop(next);
        },
        Ok((Some(_), end)) => {
            if st.fuel_remaining() >= FUEL_EPSILON && st.turn_remaining >= TIME_EPSILON {
                lemma_turn_step(st);
            }
        },
        Err(_) => {},
    }
}

/// After a turn that the craft is still flying after, it is in flight at a
/// later time, and no heavier.
pub proof fn lemma_play_turn(st: FlightState, rate: int)
    requires
        st.in_flight(),
    ensures
        match st.play_turn(rate) {
            Progress::Flying(next) => next.in_flight() && next.elapsed_time > st.elapsed_time
                && next.total_weight <= st.total_weight,
            _ => true,
        },
{
    if valid_rate(rate) {
        lemma_turn_loop(st.start_turn(rate));
    }
}

/// A game that is over stays as it is, whatever the pilot commands after it.
pub proof fn lemma_flight_stops(rates: Seq<i128>, n: int)
    requires
        0 <= n <= rates.len(),
        !(flight(rates.take(n)).progress is Flying),
    ensures
        flight(rates) == flight(rates.take(n)),
    decreases rates.len() - n,
{
    if n == rates.len() {
        assert(rates.take(n) =~= rates);
    } else {
        assert(rates.take(n + 1).drop_last() =~= rates.take(n));
        lemma_flight_stops(rates, n + 1);
    }
}

/// The snapshots are in the order of their times, each later than the one
/// before it and with no more fuel.
pub open spec fn ordered(shots: Seq<Snapshot>) -> bool {
    forall|i: int, j: int|
        0 <= i < j < shots.len() ==> shots[i].elapsed_time < shots[j].elapsed_time
            && shots[i].fuel >= shots[j].fuel
}

/// The state `st` lies after every one of the snapshots, with no more fuel.
pub open spec fn follows(st: FlightState, shots: Seq<Snapshot>) -> bool {
    forall|i: int|
        0 <= i < shots.len() ==> shots[i].elapsed_time < st.elapsed_time
            && shots[i].fuel >= st.fuel_remaining()
}

/// From turn to turn of a game the clock moves on and the fuel gets no
/// more: what the pilot is shown comes in the order of its times, and the
/// craft that is still flying lies after all of it.
pub proof fn lemma_flight_ordered(rates: Seq<i128>)
    ensures
        ordered(flight(rates).snapshots),
        flight(rates).snapshots.len() <= rates.len(),
        match flight(rates).progress {
            Progress::Flying(st) => st.in_flight() && follows(st, flight(rates).snapshots)
                && flight(rates).snapshots.len() == rates.len(),
            _ => true,
        },
    decreases rates.len(),
{
    if rates.len() > 0 {
        lemma_flight_ordered(rates.drop_last());
        let before = flight(rates.drop_last());
        match before.progress {
            Progress::Flying(st) => {
                lemma_play_turn(st, rates.last() as int);
                let shots = before.snapshots.push(st.snapshot());
                assert forall|i: int, j: int| 0 <= i < j < shots.len() implies shots[i].elapsed_time
                    < shots[j].elapsed_time && shots[i].fuel >= shots[j].fuel by {
                }
                match flight(rates).progress {
                    Progress::Flying(next) => {
                        assert forall|i: int| 0 <= i < shots.len() implies shots[i].elapsed_time
                            < next.elapsed_time && shots[i].fuel >= next.fuel_remaining() by {
                        }
                    },
                    _ => {},
                }
            },
            _ => {},
        }
    }
}

/// What the pilot is shown up to a turn depends on the rates up to that
/// turn alone: the game over the first `n` rates shows the first part of
/// what the game over all of them shows.
pub proof fn lemma_flight_prefix(rates: Seq<i128>, n: int)
    requires
        0 <= n <= rates.len(),
    ensures
        flight(rates.take(n)).snapshots.is_prefix_of(flight(rates).snapshots),
    decreases rates.len() - n,
{
    if n == rates.len() {
        assert(rates.take(n) =~= rates);
    } else {
        assert(rates.take(n + 1).drop_last() =~= rates.take(n));
        lemma_flight_prefix(rates, n + 1);
    }
}

/// The refinement of the impact ends: each of its steps but the last moves
/// the clock on by the tolerance or more, so that it takes no more steps
/// than the time left to the limit holds tolerances, and one.
pub proof fn lemma_refining_steps_bounded(st: FlightState)
    requires
        st.valid(),
    ensures
        st.refining_steps() * TOLERANCE <= TIME_LIMIT - st.elapsed_time + TOLERANCE,
    decreases TIME_LIMIT - st.elapsed_time,
{
    if st.step >= TOLERANCE && st.can_refine() && st.refine_once().valid()
        && st.refine_once().step >= TOLERANCE {
        lemma_refining_steps_bounded(st.refine_once());
    }
}

/// The refinement of the impact leaves the craft where as many steps
/// towards the impact take it as the refinement counts.
pub proof fn lemma_refining_steps_reach(st: FlightState)
    requires
        st.valid(),
    ensures
        match st.loop_until_on_the_moon() {
            Ok(down) => down == st.refine_times(st.refining_steps()) && down.valid()
                && down.step < TOLERANCE,
            Err(_) => true,
        },
    decreases TIME_LIMIT - st.elapsed_time,
{
    if st.step >= TOLERANCE && st.can_refine() && st.refine_once().valid() {
        let next = st.refine_once();
        if next.step >= TOLERANCE {
            lemma_refining_steps_reach(next);
        } else {
            assert(next.refine_times(0) == next);
        }
        assert(st.refine_times(st.refining_steps()) == next.refine_times(
            (st.refining_steps() - 1) as nat,
        ));
    }
}

} // verus!
