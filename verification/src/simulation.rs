use vstd::prelude::*;

use crate::components::{GameState, Outcome};

verus! {

/// The most trail dots that may be on screen at once.
pub const MAX_TRAIL: usize = 200;

/// The attempt failed: the flight stops.
pub open spec fn failed(s: GameState) -> GameState {
    GameState { outcome: Outcome::Fail, simulating: false, ..s }
}

/// The ship reached the target: the flight stops.
pub open spec fn won(s: GameState) -> GameState {
    GameState { outcome: Outcome::Win, simulating: false, ..s }
}

/// Some fixed or placed body was hit.
pub open spec fn any_hit(hits: Seq<bool>) -> bool {
    exists|i: int| 0 <= i < hits.len() && #[trigger] hits[i]
}

/// The verdict on a frame of flight: a body that was hit ends the attempt as
/// a failure, before the target is looked at; reaching the target wins.
pub open spec fn judged(s: GameState, body_hits: Seq<bool>, target_hit: bool) -> GameState {
    if any_hit(body_hits) {
        failed(s)
    } else if target_hit {
        won(s)
    } else {
        s
    }
}

/// The state after a flight step that may have left the playing field.
pub open spec fn stepped(s: GameState, out_of_bounds: bool) -> GameState {
    if out_of_bounds {
        failed(s)
    } else {
        s
    }
}

/// Decisions of a flight step, once the ship has moved: whether a trail dot
/// is laid (one is due and the trail is not full), and whether the ship has
/// left the playing field, which fails the attempt.
pub fn step_physics(
    game: &mut GameState,
    trail_due: bool,
    trail_count: usize,
    out_of_bounds: bool,
) -> (spawn_trail: bool)
    ensures
        spawn_trail == (trail_due && trail_count < MAX_TRAIL),
        *final(game) == stepped(*old(game), out_of_bounds),
        out_of_bounds ==> final(game).outcome == Outcome::Fail && !final(game).simulating,
        !out_of_bounds ==> *final(game) == *old(game),
        final(game).current_level == old(game).current_level,
        final(game).placed_count == old(game).placed_count,
        final(game).active_tool == old(game).active_tool,
{
    let spawn_trail = trail_due && trail_count < MAX_TRAIL;
    if out_of_bounds {
        game.outcome = Outcome::Fail;
        game.simulating = false;
    }
    spawn_trail
}

/// Judges a frame of flight: `body_hits[i]` tells whether the ship touches
/// body `i`, `target_hit` whether it is inside the target zone.
pub fn check_win_fail(game: &mut GameState, body_hits: &Vec<bool>, target_hit: bool)
    ensures
        *final(game) == judged(*old(game), body_hits@, target_hit),
        forall|i: int|
            0 <= i < body_hits@.len() && body_hits@[i] ==> final(game).outcome == Outcome::Fail
                && !final(game).simulating,
        (forall|i: int| 0 <= i < body_hits@.len() ==> !body_hits@[i]) ==> if target_hit {
            final(game).outcome == Outcome::Win && !final(game).simulating
        } else {
            *final(game) == *old(game)
        },
        final(game).current_level == old(game).current_level,
        final(game).placed_count == old(game).placed_count,
        final(game).active_tool == old(game).active_tool,
{
    let n = body_hits.len();
    for i in 0..n
        invariant
            n == body_hits@.len(),
            *game == *old(game),
            forall|j: int| 0 <= j < i ==> !body_hits@[j],
    {
        if body_hits[i] {
            game.outcome = Outcome::Fail;
            game.simulating = false;
            return;
        }
    }
    if target_hit {
        game.outcome = Outcome::Win;
        game.simulating = false;
    }
}

} // verus!
