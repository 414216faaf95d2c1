use vstd::prelude::*;
use vstd::string::*;

use crate::components::{BodyKind, BodyStats, GameState, LevelConfig, LevelView, Outcome, PlaceTool};
use crate::text::{decimal, push_decimal};

verus! {

// ── Tool selection & body placement ──────────────────────────────────────────

/// Mass, radius and kind of the body that a placing tool puts down.
pub open spec fn tool_body(tool: PlaceTool) -> BodyStats {
    match tool {
        PlaceTool::Planet => BodyStats { mass: 3000, radius: 24, kind: BodyKind::Placed },
        PlaceTool::Star => BodyStats { mass: 8000, radius: 36, kind: BodyKind::Star },
        _ => BodyStats { mass: 14000, radius: 18, kind: BodyKind::BlackHole },
    }
}

/// Mass, radius and kind of the body that a placing tool puts down. The
/// eraser places nothing.
pub fn tool_stats(tool: PlaceTool) -> (stats: BodyStats)
    requires
        tool != PlaceTool::Erase,
    ensures
        stats == tool_body(tool),
        tool == PlaceTool::Planet ==> stats == (BodyStats { mass: 3000, radius: 24, kind: BodyKind::Placed }),
        tool == PlaceTool::Star ==> stats == (BodyStats { mass: 8000, radius: 36, kind: BodyKind::Star }),
        tool == PlaceTool::BlackHole ==> stats == (BodyStats {
            mass: 14000,
            radius: 18,
            kind: BodyKind::BlackHole,
        }),
{
    match tool {
        PlaceTool::Planet => BodyStats { mass: 3000, radius: 24, kind: BodyKind::Placed },
        PlaceTool::Star => BodyStats { mass: 8000, radius: 36, kind: BodyKind::Star },
        _ => BodyStats { mass: 14000, radius: 18, kind: BodyKind::BlackHole },
    }
}

/// What the front end does after a click on the playing field.
#[derive(Clone, Copy, PartialEq, Eq, Structural, Debug)]
pub enum Placement {
    /// Nothing changes on the field.
    Nothing,
    /// Despawn the placed body with this position in the list of placed bodies.
    Erase(usize),
    /// Spawn a body with these stats where the cursor points.
    Spawn(BodyStats),
}

/// The tool buttons pressed this frame, in order, select the tool: the last
/// one wins.
pub open spec fn select_tools(s: GameState, pressed_tools: Seq<PlaceTool>) -> GameState {
    if pressed_tools.len() == 0 {
        s
    } else {
        GameState { active_tool: pressed_tools.last(), ..s }
    }
}

/// `i` is the first position at which `near` holds.
pub open spec fn is_first_hit(near: Seq<bool>, i: int) -> bool {
    &&& 0 <= i < near.len()
    &&& near[i]
    &&& forall|j: int| 0 <= j < i ==> !near[j]
}

/// The first position at which `near` holds, if there is one.
pub open spec fn first_hit(near: Seq<bool>) -> Option<int> {
    if exists|i: int| is_first_hit(near, i) {
        Some(choose|i: int| is_first_hit(near, i))
    } else {
        None
    }
}

/// The effect of a click on the playing field with the active tool; `near`
/// tells, for each placed body in order, whether it lies within the eraser's
/// reach of the cursor.
///
/// Nothing happens during a flight. The eraser removes the first placed body
/// within reach and lowers the count, never below zero. A placing tool adds a
/// body while the level's allowance is not used up.
pub open spec fn click_step(s: GameState, max_placed: usize, clicked: bool, near: Seq<bool>) -> (
    GameState,
    Placement,
) {
    if s.simulating || !clicked {
        (s, Placement::Nothing)
    } else if s.active_tool == PlaceTool::Erase {
        match first_hit(near) {
            Some(i) => (
                GameState {
                    placed_count: if s.placed_count == 0 {
                        0
                    } else {
                        (s.placed_count - 1) as usize
                    },
                    ..s
                },
                Placement::Erase(i as usize),
            ),
            None => (s, Placement::Nothing),
        }
    } else if s.placed_count >= max_placed {
        (s, Placement::Nothing)
    } else {
        (
            GameState { placed_count: (s.placed_count + 1) as usize, ..s },
            Placement::Spawn(tool_body(s.active_tool)),
        )
    }
}

/// The first position at which `near` holds.
pub fn find_first_hit(near: &Vec<bool>) -> (r: Option<usize>)
    ensures
        match r {
            Some(i) => is_first_hit(near@, i as int),
            None => forall|i: int| 0 <= i < near@.len() ==> !near@[i],
        },
        r matches Some(i) ==> first_hit(near@) == Some(i as int),
        r is None ==> first_hit(near@) is None,
{
    let n = near.len();
    for i in 0..n
        invariant
            n == near@.len(),
            forall|j: int| 0 <= j < i ==> !near@[j],
    {
        if near[i] {
            proof {
                assert(is_first_hit(near@, i as int));
                let c = choose|k: int| is_first_hit(near@, k);
                assert(is_first_hit(near@, c));
                if c < i {
                    assert(!near@[c]);
                } else if c > i {
                    assert(!near@[i as int]);
                }
            }
            return Some(i);
        }
    }
    None
}

/// Handles the tool buttons and a click on the playing field.
///
/// `pressed_tools` are the tools whose buttons were pressed this frame;
/// `clicked` tells whether the left button was just pressed over the playing
/// field (not over the sidebar); `near_placed` tells, for each placed body,
/// whether it lies within the eraser's reach of the cursor; `max_placed` is
/// the level's allowance of placed bodies.
pub fn handle_planet_placement(
    game: &mut GameState,
    pressed_tools: &Vec<PlaceTool>,
    clicked: bool,
    near_placed: &Vec<bool>,
    max_placed: usize,
) -> (action: Placement)
    ensures
        (*final(game), action) == click_step(
            select_tools(*old(game), pressed_tools@),
            max_placed,
            clicked,
            near_placed@,
        ),
        final(game).simulating == old(game).simulating,
        final(game).outcome == old(game).outcome,
        final(game).current_level == old(game).current_level,
        final(game).active_tool == if pressed_tools@.len() == 0 {
            old(game).active_tool
        } else {
            pressed_tools@.last()
        },
        action is Spawn ==> action == Placement::Spawn(tool_body(final(game).active_tool))
            && final(game).placed_count == old(game).placed_count + 1
            && old(game).placed_count < max_placed && clicked && !old(game).simulating
            && final(game).active_tool != PlaceTool::Erase,
        action matches Placement::Erase(i) ==> i < near_placed@.len() && near_placed@[i as int]
            && (forall|j: int| 0 <= j < i ==> !near_placed@[j]) && clicked
            && !old(game).simulating && final(game).active_tool == PlaceTool::Erase
            && final(game).placed_count == (if old(game).placed_count == 0 {
                0
            } else {
                old(game).placed_count - 1
            }),
        action is Nothing ==> final(game).placed_count == old(game).placed_count,
        clicked && !old(game).simulating && final(game).active_tool != PlaceTool::Erase
            && old(game).placed_count < max_placed ==> action is Spawn,
        clicked && !old(game).simulating && final(game).active_tool == PlaceTool::Erase
            && (exists|i: int| 0 <= i < near_placed@.len() && near_placed@[i]) ==> action is Erase,
{
    let n = pressed_tools.len();
    if n > 0 {
        game.active_tool = pressed_tools[n - 1];
    }
    if game.simulating || !clicked {
        return Placement::Nothing;
    }
    match game.active_tool {
        PlaceTool::Erase => {
            match find_first_hit(near_placed) {
                Some(i) => {
                    if game.placed_count > 0 {
                        game.placed_count = game.placed_count - 1;
                    }
                    Placement::Erase(i)
                },
                None => Placement::Nothing,
            }
        },
        tool => {
            if game.placed_count >= max_placed {
                return Placement::Nothing;
            }
            let stats = tool_stats(tool);
            game.placed_count = game.placed_count + 1;
            Placement::Spawn(stats)
        },
    }
}

// ── Launch / Reset / Next Level ───────────────────────────────────────────────

/// Launching starts the flight of an attempt that is still undecided and
/// not already flying.
pub open spec fn launched(s: GameState) -> GameState {
    if !s.simulating && s.outcome == Outcome::Playing {
        GameState { simulating: true, ..s }
    } else {
        s
    }
}

/// Resetting stops the flight, reopens the attempt and clears the placed
/// bodies; the level and the tool stay.
pub open spec fn after_reset(s: GameState) -> GameState {
    GameState { simulating: false, outcome: Outcome::Playing, placed_count: 0, ..s }
}

/// Moving on to the following level, which starts reset.
pub open spec fn after_next_level(s: GameState) -> GameState {
    after_reset(GameState { current_level: (s.current_level + 1) as usize, ..s })
}

/// Handles a press of the launch button.
pub fn handle_launch(game: &mut GameState, pressed: bool)
    ensures
        *final(game) == if pressed {
            launched(*old(game))
        } else {
            *old(game)
        },
        pressed && !old(game).simulating && old(game).outcome == Outcome::Playing
            ==> final(game).simulating,
        final(game).simulating == (old(game).simulating || (pressed && old(game).outcome
            == Outcome::Playing)),
        final(game).outcome == old(game).outcome,
        final(game).current_level == old(game).current_level,
        final(game).placed_count == old(game).placed_count,
        final(game).active_tool == old(game).active_tool,
{
    if pressed && !game.simulating && game.outcome == Outcome::Playing {
        game.simulating = true;
    }
}

/// Resets the state of the current attempt.
pub fn do_reset(game: &mut GameState)
    ensures
        *final(game) == after_reset(*old(game)),
        final(game).placed_count == 0,
        !final(game).simulating,
        final(game).outcome == Outcome::Playing,
        final(game).current_level == old(game).current_level,
        final(game).active_tool == old(game).active_tool,
{
    game.simulating = false;
    game.outcome = Outcome::Playing;
    game.placed_count = 0;
}

/// Handles a press of the reset button.
pub fn handle_reset(game: &mut GameState, pressed: bool)
    ensures
        *final(game) == if pressed {
            after_reset(*old(game))
        } else {
            *old(game)
        },
        pressed ==> final(game).placed_count == 0 && !final(game).simulating
            && final(game).outcome == Outcome::Playing,
        final(game).current_level == old(game).current_level,
        final(game).active_tool == old(game).active_tool,
{
    if pressed {
        do_reset(game);
    }
}

/// Handles a press of the next-level button: when a level follows the
/// current one in `levels`, it becomes the current level and the attempt
/// starts over. Tells whether it moved on.
pub fn handle_next_level(
    game: &mut GameState,
    level: &mut LevelConfig,
    levels: &Vec<LevelConfig>,
    pressed: bool,
) -> (advanced: bool)
    ensures
        advanced == (pressed && old(game).current_level + 1 < levels@.len()),
        advanced ==> *final(game) == after_next_level(*old(game)),
        advanced ==> final(level)@ == levels@[old(game).current_level + 1]@,
        !advanced ==> *final(game) == *old(game),
        !advanced ==> final(level)@ == old(level)@,
        advanced ==> final(game).current_level == old(game).current_level + 1
            && final(game).placed_count == 0 && !final(game).simulating
            && final(game).outcome == Outcome::Playing
            && final(game).active_tool == old(game).active_tool,
{
    if !pressed || levels.len() == 0 || game.current_level >= levels.len() - 1 {
        return false;
    }
    let next = game.current_level + 1;
    *level = levels[next].clone();
    game.current_level = next;
    do_reset(game);
    true
}

// ── UI state ─────────────────────────────────────────────────────────────────

/// The status line for the state of the game.
pub open spec fn status_text(s: GameState) -> Seq<char> {
    match s.outcome {
        Outcome::Playing => if s.simulating {
            "Simulating..."@
        } else {
            "Place bodies\nthen Launch"@
        },
        Outcome::Win => "SUCCESS!\nReached target!"@,
        Outcome::Fail => "FAILED!\nReset & retry."@,
    }
}

/// The level heading: the level's number, counted from one, and its name.
pub open spec fn level_heading(l: LevelView) -> Seq<char> {
    "Level "@ + decimal((l.index + 1) as nat) + ": "@ + l.name
}

/// How many bodies are placed out of how many may be.
pub open spec fn placed_text(s: GameState, max_placed: usize) -> Seq<char> {
    "Placed: "@ + decimal(s.placed_count as nat) + " / "@ + decimal(max_placed as nat)
}

/// The next-level button shows after a win when a level follows.
pub open spec fn next_level_visible(s: GameState, level_count: nat) -> bool {
    s.outcome == Outcome::Win && s.current_level + 1 < level_count
}

/// What the sidebar shows.
pub struct UiState {
    pub status: String,
    pub level_label: String,
    pub placed_label: String,
    pub show_next_level: bool,
    pub launch_dimmed: bool,
}

/// The status line for the state of the game.
pub fn status_string(game: &GameState) -> (s: String)
    ensures
        s@ == status_text(*game),
{
    match game.outcome {
        Outcome::Playing => {
            if game.simulating {
                String::from_str("Simulating...")
            } else {
                String::from_str("Place bodies\nthen Launch")
            }
        },
        Outcome::Win => String::from_str("SUCCESS!\nReached target!"),
        Outcome::Fail => String::from_str("FAILED!\nReset & retry."),
    }
}

/// The level heading, as "Level 1: Gravity Assist".
pub fn level_string(level: &LevelConfig) -> (s: String)
    requires
        level.index < usize::MAX,
    ensures
        s@ == level_heading(level@),
{
    let mut s = String::from_str("Level ");
    push_decimal(&mut s, level.index + 1);
    s.append(": ");
    s.append(level.name.as_str());
    s
}

/// The placed-body counter, as "Placed: 1 / 2".
pub fn placed_string(game: &GameState, max_placed: usize) -> (s: String)
    ensures
        s@ == placed_text(*game, max_placed),
{
    let mut s = String::from_str("Placed: ");
    push_decimal(&mut s, game.placed_count);
    s.append(" / ");
    push_decimal(&mut s, max_placed);
    s
}

/// Whether the button of `tool` is shown as the active one.
pub fn tool_button_active(game: &GameState, tool: PlaceTool) -> (b: bool)
    ensures
        b == (game.active_tool == tool),
{
    game.active_tool == tool
}

/// What the sidebar shows for the state of the game, the current level and
/// the number of levels.
pub fn update_ui_state(game: &GameState, level: &LevelConfig, level_count: usize) -> (ui: UiState)
    requires
        level.index < usize::MAX,
    ensures
        ui.status@ == status_text(*game),
        ui.level_label@ == level_heading(level@),
        ui.placed_label@ == placed_text(*game, level.max_placed),
        ui.show_next_level == next_level_visible(*game, level_count as nat),
        ui.launch_dimmed == game.simulating,
{
    let show_next_level = game.outcome == Outcome::Win && level_count > 0 && game.current_level
        < level_count - 1;
    UiState {
        status: status_string(game),
        level_label: level_string(level),
        placed_label: placed_string(game, level.max_placed),
        show_next_level,
        launch_dimmed: game.simulating,
    }
}

} // verus!
