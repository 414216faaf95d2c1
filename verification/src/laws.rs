//! Properties that hold across the game's operations.
use vstd::prelude::*;

use crate::components::{BodyKind, BodyStats, GameState, Outcome, PlaceTool};
use crate::levels::level_table;
use crate::simulation::{any_hit, judged, stepped};
use crate::ui::{
    after_next_level, after_reset, click_step, launched, next_level_visible, select_tools, status_text, Placement,
};

verus! {

/// A session starts coherent, and every operation keeps it coherent: the
/// ship only flies while the attempt is undecided.
pub proof fn law_operations_keep_consistency(
    s: GameState,
    pressed_tools: Seq<PlaceTool>,
    max_placed: usize,
    clicked: bool,
    near: Seq<bool>,
    body_hits: Seq<bool>,
    target_hit: bool,
    out_of_bounds: bool,
)
    requires
        s.is_consistent(),
    ensures
        GameState::initial().is_consistent(),
        launched(s).is_consistent(),
        after_reset(s).is_consistent(),
        after_next_level(s).is_consistent(),
        select_tools(s, pressed_tools).is_consistent(),
        click_step(select_tools(s, pressed_tools), max_placed, clicked, near).0.is_consistent(),
        judged(s, body_hits, target_hit).is_consistent(),
        stepped(s, out_of_bounds).is_consistent(),
{
}

/// Placing never takes the count of placed bodies past the level's
/// allowance.
pub proof fn law_placement_respects_allowance(
    s: GameState,
    pressed_tools: Seq<PlaceTool>,
    max_placed: usize,
    clicked: bool,
    near: Seq<bool>,
)
    requires
        s.placed_count <= max_placed,
    ensures
        click_step(select_tools(s, pressed_tools), max_placed, clicked, near).0.placed_count
            <= max_placed,
{
}

/// During a flight a click changes nothing and places nothing.
pub proof fn law_no_placement_in_flight(
    s: GameState,
    max_placed: usize,
    clicked: bool,
    near: Seq<bool>,
)
    requires
        s.simulating,
    ensures
        click_step(s, max_placed, clicked, near) == (s, Placement::Nothing),
{
}

/// Erasing a body right after placing one brings the count back to where it
/// was.
pub proof fn law_erase_undoes_place(
    s: GameState,
    max_placed: usize,
    near: Seq<bool>,
)
    requires
        click_step(s, max_placed, true, near).1 is Spawn,
        exists|i: int| 0 <= i < near.len() && near[i],
    ensures
        ({
            let placed = click_step(s, max_placed, true, near).0;
            let erased = click_step(select_tools(placed, seq![PlaceTool::Erase]), max_placed, true, near);
            &&& erased.1 is Erase
            &&& erased.0.placed_count == s.placed_count
        }),
{
    let i = choose|i: int| 0 <= i < near.len() && near[i];
    lemma_some_first_hit(near, i);
}

/// Where some position holds, there is a first one.
proof fn lemma_some_first_hit(near: Seq<bool>, i: int)
    requires
        0 <= i < near.len(),
        near[i],
    ensures
        exists|k: int| crate::ui::is_first_hit(near, k),
    decreases i,
{
    if exists|j: int| 0 <= j < i && near[j] {
        let j = choose|j: int| 0 <= j < i && near[j];
        lemma_some_first_hit(near, j);
    } else {
        assert(crate::ui::is_first_hit(near, i));
    }
}

/// A body hit in a flight frame fails the attempt and stops the flight,
/// whether or not the target is reached in the same frame; the level, the
/// placed count and the tool stay.
pub proof fn law_crash_fails_the_attempt(s: GameState, body_hits: Seq<bool>, target_hit: bool, i: int)
    requires
        0 <= i < body_hits.len(),
        body_hits[i],
    ensures
        judged(s, body_hits, target_hit).outcome == Outcome::Fail,
        !judged(s, body_hits, target_hit).simulating,
        judged(s, body_hits, target_hit).current_level == s.current_level,
        judged(s, body_hits, target_hit).placed_count == s.placed_count,
        judged(s, body_hits, target_hit).active_tool == s.active_tool,
{
}

/// Without a body hit, reaching the target wins and stops the flight, and a
/// frame that reaches nothing changes nothing.
pub proof fn law_frame_without_crash(s: GameState, body_hits: Seq<bool>, target_hit: bool)
    requires
        forall|i: int| 0 <= i < body_hits.len() ==> !body_hits[i],
    ensures
        target_hit ==> judged(s, body_hits, target_hit) == (GameState {
            outcome: Outcome::Win,
            simulating: false,
            ..s
        }),
        !target_hit ==> judged(s, body_hits, target_hit) == s,
{
}

/// Leaving the playing field fails the attempt and stops the flight, whatever
/// else the state holds; staying on it changes nothing.
pub proof fn law_leaving_field_fails(s: GameState)
    ensures
        stepped(s, true) == (GameState { outcome: Outcome::Fail, simulating: false, ..s }),
        stepped(s, false) == s,
{
}

/// Launching an undecided attempt that is not flying starts the flight,
/// however many bodies are placed, and changes nothing else; launching in
/// any other state changes nothing.
pub proof fn law_launch_starts_flight(s: GameState)
    ensures
        !s.simulating && s.outcome == Outcome::Playing ==> launched(s) == (GameState {
            simulating: true,
            ..s
        }),
        s.simulating || s.outcome != Outcome::Playing ==> launched(s) == s,
{
}

/// A reset, from any state, stops the flight, reopens the attempt and clears
/// the placed count; only the level and the tool stay.
pub proof fn law_reset_clears_attempt(s: GameState)
    ensures
        after_reset(s) == (GameState {
            simulating: false,
            outcome: Outcome::Playing,
            current_level: s.current_level,
            placed_count: 0,
            active_tool: s.active_tool,
        }),
{
}

/// Moving on goes to the level after the current one and starts it afresh,
/// keeping the tool.
pub proof fn law_next_level_starts_afresh(s: GameState)
    requires
        s.current_level < usize::MAX,
    ensures
        after_next_level(s) == (GameState {
            simulating: false,
            outcome: Outcome::Playing,
            current_level: (s.current_level + 1) as usize,
            placed_count: 0,
            active_tool: s.active_tool,
        }),
{
}

/// The tool buttons pressed in a frame leave the last of them active and
/// touch nothing else.
pub proof fn law_last_pressed_tool_wins(s: GameState, pressed_tools: Seq<PlaceTool>)
    ensures
        pressed_tools.len() > 0 ==> select_tools(s, pressed_tools) == (GameState {
            active_tool: pressed_tools[pressed_tools.len() - 1],
            ..s
        }),
        pressed_tools.len() == 0 ==> select_tools(s, pressed_tools) == s,
{
}

/// A click with a placing tool, outside a flight and below the allowance,
/// puts down exactly the body of that tool (a planet of mass 3000 and radius
/// 24, a star of 8000 and 36, a black hole of 14000 and 18) and counts it.
pub proof fn law_click_places_body_of_active_tool(
    s: GameState,
    max_placed: usize,
    near: Seq<bool>,
)
    requires
        !s.simulating,
        s.active_tool != PlaceTool::Erase,
        s.placed_count < max_placed,
    ensures
        click_step(s, max_placed, true, near).0 == (GameState {
            placed_count: (s.placed_count + 1) as usize,
            ..s
        }),
        s.active_tool == PlaceTool::Planet ==> click_step(s, max_placed, true, near).1
            == Placement::Spawn(BodyStats { mass: 3000, radius: 24, kind: BodyKind::Placed }),
        s.active_tool == PlaceTool::Star ==> click_step(s, max_placed, true, near).1
            == Placement::Spawn(BodyStats { mass: 8000, radius: 36, kind: BodyKind::Star }),
        s.active_tool == PlaceTool::BlackHole ==> click_step(s, max_placed, true, near).1
            == Placement::Spawn(BodyStats { mass: 14000, radius: 18, kind: BodyKind::BlackHole }),
{
}

/// Once the allowance is used up, a placing click changes nothing.
pub proof fn law_click_refused_at_allowance(s: GameState, max_placed: usize, near: Seq<bool>)
    requires
        s.active_tool != PlaceTool::Erase,
        s.placed_count >= max_placed,
    ensures
        click_step(s, max_placed, true, near) == (s, Placement::Nothing),
{
}

/// A click with the eraser, outside a flight, removes the first placed body
/// within reach and lowers the count by one (never below zero); with none
/// within reach it changes nothing. No other field changes.
pub proof fn law_click_erases_first_near_body(
    s: GameState,
    max_placed: usize,
    near: Seq<bool>,
    i: int,
)
    requires
        !s.simulating,
        s.active_tool == PlaceTool::Erase,
    ensures
        0 <= i < near.len() && near[i] && (forall|j: int| 0 <= j < i ==> !near[j]) ==> click_step(
            s,
            max_placed,
            true,
            near,
        ) == (
            GameState {
                placed_count: if s.placed_count == 0 {
                    0usize
                } else {
                    (s.placed_count - 1) as usize
                },
                ..s
            },
            Placement::Erase(i as usize),
        ),
        (forall|j: int| 0 <= j < near.len() ==> !near[j]) ==> click_step(s, max_placed, true, near)
            == (s, Placement::Nothing),
{
    if 0 <= i < near.len() && near[i] && (forall|j: int| 0 <= j < i ==> !near[j]) {
        assert(crate::ui::is_first_hit(near, i));
        let c = choose|k: int| crate::ui::is_first_hit(near, k);
        assert(crate::ui::is_first_hit(near, c));
        if c < i {
            assert(!near[c]);
        } else if c > i {
            assert(!near[i]);
        }
    }
    if forall|j: int| 0 <= j < near.len() ==> !near[j] {
        assert(!exists|k: int| crate::ui::is_first_hit(near, k));
    }
}

/// Without a click nothing is placed or erased.
pub proof fn law_no_click_no_change(s: GameState, max_placed: usize, near: Seq<bool>)
    ensures
        click_step(s, max_placed, false, near) == (s, Placement::Nothing),
{
}

/// An attempt that is already decided cannot be launched again before a
/// reset; after a reset it can.
pub proof fn law_launch_needs_reset_after_decision(s: GameState)
    requires
        s.outcome != Outcome::Playing,
    ensures
        launched(s) == s,
        launched(after_reset(s)).simulating,
{
}

/// Hitting a body fails the attempt even when the target is reached in the
/// same frame.
pub proof fn law_crash_beats_target(s: GameState, body_hits: Seq<bool>)
    requires
        any_hit(body_hits),
    ensures
        judged(s, body_hits, true).outcome == Outcome::Fail,
        !judged(s, body_hits, true).simulating,
{
}

/// Resetting keeps the level and the tool, and a second reset changes
/// nothing more.
pub proof fn law_reset_keeps_level_and_tool(s: GameState)
    ensures
        after_reset(s).current_level == s.current_level,
        after_reset(s).active_tool == s.active_tool,
        after_reset(after_reset(s)) == after_reset(s),
{
}

/// Moving on from a level that has a successor stays inside the level
/// table, and the level found there is numbered by its position.
pub proof fn law_next_level_stays_in_table(s: GameState)
    requires
        s.current_level + 1 < level_table().len(),
    ensures
        after_next_level(s).current_level < level_table().len(),
        level_table()[after_next_level(s).current_level as int].index
            == after_next_level(s).current_level,
{
}

/// The next-level button is only shown where pressing it moves on to the
/// following level.
pub proof fn law_next_button_shown_only_when_it_works(s: GameState, level_count: usize)
    requires
        next_level_visible(s, level_count as nat),
    ensures
        s.current_level + 1 < level_count,
        after_next_level(s).current_level == s.current_level + 1,
        after_next_level(s).outcome == Outcome::Playing,
{
}

/// The next-level button shows exactly after a win on a level that has a
/// successor.
pub proof fn law_next_button_visibility(s: GameState, level_count: nat)
    ensures
        next_level_visible(s, level_count) <==> (s.outcome == Outcome::Win && s.current_level + 1
            < level_count),
{
}

/// Each way an attempt can stand has its own status line.
pub proof fn law_status_lines(s: GameState)
    ensures
        s.outcome == Outcome::Playing && !s.simulating ==> status_text(s) == "Place bodies\nthen Launch"@,
        s.outcome == Outcome::Playing && s.simulating ==> status_text(s) == "Simulating..."@,
        s.outcome == Outcome::Win ==> status_text(s) == "SUCCESS!\nReached target!"@,
        s.outcome == Outcome::Fail ==> status_text(s) == "FAILED!\nReset & retry."@,
{
}

/// Every level of the table is numbered by its position, lets the player
/// place at least one body and has at least one fixed body.
pub proof fn law_level_table_well_formed()
    ensures
        forall|i: int|
            0 <= i < level_table().len() ==> {
                &&& #[trigger] level_table()[i].index == i
                &&& level_table()[i].max_placed >= 1
                &&& level_table()[i].bodies.len() >= 1
            },
{
    assert forall|i: int| 0 <= i < level_table().len() implies {
        &&& #[trigger] level_table()[i].index == i
        &&& level_table()[i].max_placed >= 1
        &&& level_table()[i].bodies.len() >= 1
    } by {
        if i == 0 {
        } else if i == 1 {
        } else if i == 2 {
        } else if i == 3 {
        } else {
        }
    }
}

} // verus!
