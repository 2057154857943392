//! Orientation rules shared by the arc magnets.
//!
//! An arc magnet is bounded by an arc facing the core and an arc facing the
//! air gap. The sign of each radius says whether that surface is convex
//! (positive) or concave (negative). The air gap arc is traced from the stop
//! point of the core arc back to its start point, so its direction of travel
//! follows from both signs.

use vstd::prelude::*;

verus! {

/// Whether the air gap arc of an arc magnet runs in positive (counterclockwise)
/// direction: exactly when the core radius and the air gap radius have
/// different signs.
pub open spec fn air_gap_arc_runs_positive(core_radius_positive: bool, air_gap_radius_positive: bool) -> bool {
    core_radius_positive != air_gap_radius_positive
}

/// Whether the air gap radius of an arc magnet is positive, given the direction
/// of its air gap arc and the sign of its core radius.
pub open spec fn air_gap_radius_is_positive(core_radius_positive: bool, air_gap_arc_positive: bool) -> bool {
    air_gap_arc_positive != core_radius_positive
}

/// Returns the direction in which the air gap arc is traced when the magnet is
/// built from its core radius and its air gap radius: for a positive core
/// radius the arc is positive if the air gap radius is negative, for a negative
/// core radius it is positive if the air gap radius is positive.
pub fn air_gap_arc_positive(core_radius_positive: bool, air_gap_radius_positive: bool) -> (r: bool)
    ensures
        r == air_gap_arc_runs_positive(core_radius_positive, air_gap_radius_positive),
{
    if core_radius_positive {
        !air_gap_radius_positive
    } else {
        air_gap_radius_positive
    }
}

/// Returns whether the air gap radius is positive when the magnet is built from
/// its center thickness, so that the air gap arc (a three-point arc) fixes its
/// direction: a positive arc over a positive core radius, or a negative arc
/// over a negative core radius, gives a negative air gap radius.
pub fn air_gap_radius_positive(core_radius_positive: bool, air_gap_arc_positive: bool) -> (r: bool)
    ensures
        r == air_gap_radius_is_positive(core_radius_positive, air_gap_arc_positive),
{
    if air_gap_arc_positive {
        !core_radius_positive
    } else {
        core_radius_positive
    }
}

/// The two orientation rules undo each other: building the air gap arc from an
/// air gap radius and reading the radius sign back from that arc gives the sign
/// that was given, so the constructor from the air gap radius and the
/// constructor from the center thickness agree on the sign of the air gap
/// radius.
pub proof fn lemma_air_gap_radius_sign_roundtrip(core_radius_positive: bool, air_gap_radius_positive: bool)
    ensures
        air_gap_radius_is_positive(
            core_radius_positive,
            air_gap_arc_runs_positive(core_radius_positive, air_gap_radius_positive),
        ) == air_gap_radius_positive,
{
}

/// Reading the radius sign from an arc direction and building the arc again
/// from that sign gives back the arc direction.
pub proof fn lemma_air_gap_arc_direction_roundtrip(core_radius_positive: bool, air_gap_arc_positive: bool)
    ensures
        air_gap_arc_runs_positive(
            core_radius_positive,
            air_gap_radius_is_positive(core_radius_positive, air_gap_arc_positive),
        ) == air_gap_arc_positive,
{
}

} // verus!
