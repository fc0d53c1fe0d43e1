//! Deterministic, tick-based character simulation: fixed-point percentages,
//! attributes and their modifiers, timed statuses, the casting state
//! machine, skill manifestations, the simulation clock and the collision
//! policy. Times are integer milliseconds and positions integer thousandths
//! of a world unit, so that every machine computes the same results.

pub mod attributes;
pub mod casting;
pub mod char_state;
pub mod collision;
pub mod collisions;
pub mod coords;
pub mod fire_bomb;
pub mod manifestation;
pub mod percentage;
pub mod skill;
pub mod status;
pub mod systems;
pub mod time;
