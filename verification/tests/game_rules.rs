use orbital_sandbox::components::{BodyKind, BodyStats, GameState, LevelConfig, Outcome, PlaceTool};
use orbital_sandbox::levels::{build_levels, level_count};
use orbital_sandbox::simulation::{check_win_fail, step_physics, MAX_TRAIL};
use orbital_sandbox::ui::{
    do_reset, find_first_hit, handle_launch, handle_next_level, handle_planet_placement,
    handle_reset, tool_button_active, tool_stats, Placement,
};

fn state(simulating: bool, outcome: Outcome, level: usize, placed: usize, tool: PlaceTool) -> GameState {
    GameState {
        simulating,
        outcome,
        current_level: level,
        placed_count: placed,
        active_tool: tool,
    }
}

fn click(game: &mut GameState, near: &[bool], max_placed: usize) -> Placement {
    handle_planet_placement(game, &Vec::new(), true, &near.to_vec(), max_placed)
}

#[test]
fn default_state_starts_first_level_with_planet_tool() {
    let g = GameState::default();
    assert!(!g.simulating);
    assert_eq!(g.outcome, Outcome::Playing);
    assert_eq!(g.current_level, 0);
    assert_eq!(g.placed_count, 0);
    assert_eq!(g.active_tool, PlaceTool::Planet);
    assert!(!g.is_simulating());
}

#[test]
fn launch_starts_flight_of_undecided_attempt() {
    let mut g = GameState::default();
    handle_launch(&mut g, false);
    assert!(!g.simulating);
    handle_launch(&mut g, true);
    assert!(g.simulating);
    assert!(g.is_simulating());
    handle_launch(&mut g, true);
    assert!(g.simulating);
}

#[test]
fn launch_ignored_after_decision_until_reset() {
    for outcome in [Outcome::Win, Outcome::Fail] {
        let mut g = state(false, outcome, 1, 2, PlaceTool::Star);
        handle_launch(&mut g, true);
        assert!(!g.simulating);
        assert_eq!(g.outcome, outcome);
        handle_reset(&mut g, true);
        handle_launch(&mut g, true);
        assert!(g.simulating);
        assert_eq!(g.outcome, Outcome::Playing);
    }
}

#[test]
fn reset_clears_attempt_and_keeps_level_and_tool() {
    let mut g = state(true, Outcome::Playing, 3, 2, PlaceTool::BlackHole);
    handle_reset(&mut g, false);
    assert!(g.simulating);
    assert_eq!(g.placed_count, 2);
    handle_reset(&mut g, true);
    assert!(!g.simulating);
    assert_eq!(g.outcome, Outcome::Playing);
    assert_eq!(g.placed_count, 0);
    assert_eq!(g.current_level, 3);
    assert_eq!(g.active_tool, PlaceTool::BlackHole);

    let mut h = state(false, Outcome::Fail, 2, 1, PlaceTool::Erase);
    do_reset(&mut h);
    assert_eq!(h.outcome, Outcome::Playing);
    assert_eq!(h.placed_count, 0);
    do_reset(&mut h);
    assert_eq!(h.outcome, Outcome::Playing);
    assert_eq!(h.placed_count, 0);
    assert_eq!(h.current_level, 2);
}

#[test]
fn next_level_loads_following_level_and_resets() {
    let levels = build_levels();
    let mut g = state(false, Outcome::Win, 0, 2, PlaceTool::Star);
    let mut level = LevelConfig::default();
    assert!(handle_next_level(&mut g, &mut level, &levels, true));
    assert_eq!(g.current_level, 1);
    assert_eq!(g.outcome, Outcome::Playing);
    assert_eq!(g.placed_count, 0);
    assert!(!g.simulating);
    assert_eq!(g.active_tool, PlaceTool::Star);
    assert_eq!(level.index, 1);
    assert_eq!(level.name, "Solar Slingshot");
}

#[test]
fn next_level_stops_at_last_level() {
    let levels = build_levels();
    let mut level = levels[4].clone();
    let mut g = state(false, Outcome::Win, 4, 3, PlaceTool::Planet);
    assert!(!handle_next_level(&mut g, &mut level, &levels, true));
    assert_eq!(g.current_level, 4);
    assert_eq!(g.outcome, Outcome::Win);
    assert_eq!(g.placed_count, 3);
    assert_eq!(level.index, 4);
}

#[test]
fn next_level_needs_a_press() {
    let levels = build_levels();
    let mut level = LevelConfig::default();
    let mut g = state(false, Outcome::Win, 0, 1, PlaceTool::Planet);
    assert!(!handle_next_level(&mut g, &mut level, &levels, false));
    assert_eq!(g.current_level, 0);
    assert_eq!(g.placed_count, 1);
    assert_eq!(level.name, "Gravity Assist");
}

#[test]
fn next_level_walks_the_whole_table() {
    let levels = build_levels();
    let mut level = LevelConfig::default();
    let mut g = GameState::default();
    let mut seen = vec![level.index];
    while handle_next_level(&mut g, &mut level, &levels, true) {
        seen.push(level.index);
        assert_eq!(g.current_level, level.index);
    }
    assert_eq!(seen, vec![0, 1, 2, 3, 4]);
}

#[test]
fn tool_stats_of_each_placing_tool() {
    assert_eq!(tool_stats(PlaceTool::Planet), BodyStats { mass: 3000, radius: 24, kind: BodyKind::Placed });
    assert_eq!(tool_stats(PlaceTool::Star), BodyStats { mass: 8000, radius: 36, kind: BodyKind::Star });
    assert_eq!(
        tool_stats(PlaceTool::BlackHole),
        BodyStats { mass: 14000, radius: 18, kind: BodyKind::BlackHole }
    );
}

#[test]
fn placing_spawns_body_of_active_tool() {
    let mut g = state(false, Outcome::Playing, 0, 0, PlaceTool::Star);
    let a = click(&mut g, &[], 2);
    assert_eq!(a, Placement::Spawn(BodyStats { mass: 8000, radius: 36, kind: BodyKind::Star }));
    assert_eq!(g.placed_count, 1);
}

#[test]
fn placing_stops_at_allowance() {
    let mut g = state(false, Outcome::Playing, 0, 0, PlaceTool::Planet);
    assert!(matches!(click(&mut g, &[], 2), Placement::Spawn(_)));
    assert!(matches!(click(&mut g, &[false], 2), Placement::Spawn(_)));
    assert_eq!(g.placed_count, 2);
    assert_eq!(click(&mut g, &[false, false], 2), Placement::Nothing);
    assert_eq!(g.placed_count, 2);
}

#[test]
fn no_click_changes_nothing() {
    let mut g = state(false, Outcome::Playing, 0, 0, PlaceTool::Planet);
    let a = handle_planet_placement(&mut g, &Vec::new(), false, &Vec::new(), 2);
    assert_eq!(a, Placement::Nothing);
    assert_eq!(g.placed_count, 0);
}

#[test]
fn no_placement_during_flight() {
    let mut g = state(true, Outcome::Playing, 0, 1, PlaceTool::Planet);
    assert_eq!(click(&mut g, &[true], 4), Placement::Nothing);
    assert_eq!(g.placed_count, 1);
    g.active_tool = PlaceTool::Erase;
    assert_eq!(click(&mut g, &[true], 4), Placement::Nothing);
    assert_eq!(g.placed_count, 1);
}

#[test]
fn tool_buttons_select_tool_even_during_flight() {
    let mut g = state(true, Outcome::Playing, 0, 0, PlaceTool::Planet);
    let a = handle_planet_placement(&mut g, &vec![PlaceTool::Star, PlaceTool::Erase], false, &Vec::new(), 2);
    assert_eq!(a, Placement::Nothing);
    assert_eq!(g.active_tool, PlaceTool::Erase);
    assert!(tool_button_active(&g, PlaceTool::Erase));
    assert!(!tool_button_active(&g, PlaceTool::Star));
}

#[test]
fn erase_removes_first_body_within_reach() {
    let mut g = state(false, Outcome::Playing, 0, 3, PlaceTool::Erase);
    assert_eq!(click(&mut g, &[false, true, true], 4), Placement::Erase(1));
    assert_eq!(g.placed_count, 2);
}

#[test]
fn erase_without_hit_does_nothing() {
    let mut g = state(false, Outcome::Playing, 0, 2, PlaceTool::Erase);
    assert_eq!(click(&mut g, &[false, false], 4), Placement::Nothing);
    assert_eq!(click(&mut g, &[], 4), Placement::Nothing);
    assert_eq!(g.placed_count, 2);
}

#[test]
fn erase_count_never_goes_below_zero() {
    let mut g = state(false, Outcome::Playing, 0, 0, PlaceTool::Erase);
    assert_eq!(click(&mut g, &[true], 4), Placement::Erase(0));
    assert_eq!(g.placed_count, 0);
}

#[test]
fn erase_after_place_restores_count() {
    let mut g = state(false, Outcome::Playing, 0, 1, PlaceTool::BlackHole);
    assert!(matches!(click(&mut g, &[true], 3), Placement::Spawn(_)));
    assert_eq!(g.placed_count, 2);
    let a = handle_planet_placement(&mut g, &vec![PlaceTool::Erase], true, &vec![true, false], 3);
    assert_eq!(a, Placement::Erase(0));
    assert_eq!(g.placed_count, 1);
}

#[test]
fn find_first_hit_positions() {
    assert_eq!(find_first_hit(&vec![]), None);
    assert_eq!(find_first_hit(&vec![false, false]), None);
    assert_eq!(find_first_hit(&vec![true]), Some(0));
    assert_eq!(find_first_hit(&vec![false, false, true, true]), Some(2));
}

#[test]
fn crash_fails_even_at_target() {
    let mut g = state(true, Outcome::Playing, 0, 0, PlaceTool::Planet);
    check_win_fail(&mut g, &vec![false, true], true);
    assert_eq!(g.outcome, Outcome::Fail);
    assert!(!g.simulating);
}

#[test]
fn reaching_target_wins() {
    let mut g = state(true, Outcome::Playing, 2, 1, PlaceTool::Planet);
    check_win_fail(&mut g, &vec![false, false, false], true);
    assert_eq!(g.outcome, Outcome::Win);
    assert!(!g.simulating);
    assert_eq!(g.current_level, 2);
    assert_eq!(g.placed_count, 1);
}

#[test]
fn flight_goes_on_without_hits() {
    let mut g = state(true, Outcome::Playing, 0, 0, PlaceTool::Planet);
    check_win_fail(&mut g, &vec![false], false);
    assert_eq!(g.outcome, Outcome::Playing);
    assert!(g.simulating);
    check_win_fail(&mut g, &vec![], false);
    assert!(g.simulating);
}

#[test]
fn leaving_the_field_fails() {
    let mut g = state(true, Outcome::Playing, 0, 0, PlaceTool::Planet);
    assert!(!step_physics(&mut g, false, 0, false));
    assert!(g.simulating);
    step_physics(&mut g, false, 0, true);
    assert_eq!(g.outcome, Outcome::Fail);
    assert!(!g.simulating);
}

#[test]
fn trail_dots_are_capped() {
    let mut g = state(true, Outcome::Playing, 0, 0, PlaceTool::Planet);
    assert_eq!(MAX_TRAIL, 200);
    assert!(step_physics(&mut g, true, 0, false));
    assert!(step_physics(&mut g, true, 199, false));
    assert!(!step_physics(&mut g, true, 200, false));
    assert!(!step_physics(&mut g, false, 10, false));
}

#[test]
fn operations_keep_flight_tied_to_undecided_attempt() {
    let levels = build_levels();
    let mut level = LevelConfig::default();
    let mut g = GameState::default();
    let consistent = |g: &GameState| !g.simulating || g.outcome == Outcome::Playing;
    for step in 0..60usize {
        match step % 7 {
            0 => handle_launch(&mut g, true),
            1 => {
                click(&mut g, &[step % 2 == 0], level.max_placed);
            }
            2 => check_win_fail(&mut g, &vec![step % 3 == 0], step % 5 == 0),
            3 => {
                step_physics(&mut g, true, step, step % 4 == 0);
            }
            4 => {
                handle_next_level(&mut g, &mut level, &levels, step % 2 == 1);
            }
            5 => handle_reset(&mut g, step % 3 == 1),
            _ => {
                handle_planet_placement(&mut g, &vec![PlaceTool::Erase], true, &vec![true], level.max_placed);
            }
        }
        assert!(consistent(&g));
        assert!(g.placed_count <= level.max_placed);
        assert!(g.current_level < level_count());
    }
}
