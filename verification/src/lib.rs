//! Descent of a lunar module under gravity and the thrust that its pilot
//! commands, turn by turn of ten seconds, down to the impact and its grade.
//!
//! Every quantity (miles, miles per second, pounds, seconds) is an `i128`
//! that counts its `10^-12` parts, so that each step of the flight is a
//! matter of whole numbers and is stated and proved exactly.
//!
//! - `fixed` holds the arithmetic of such quantities;
//! - `model` the flight as mathematics: the state of the craft and what the
//!   projection of a step, a turn, the refinement of the impact, the free
//!   fall and a whole game make of it;
//! - `lander` the craft that flies so;
//! - `io` what a game asks of its pilot and reports, and the grade of a
//!   landing;
//! - `laws` what holds of every flight.

pub mod fixed;
pub mod io;
pub mod lander;
pub mod laws;
pub mod model;
