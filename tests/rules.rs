use tile_game::game::{Enemy, Game, GameInputPlugin, GameState};
use tile_game::geometry::{boxes_overlap, collides_with_any, collision_check, Position, TILE};
use tile_game::input::Keys;
use tile_game::player::{
    player_encounter_checking, player_movement, spawn_player, EncounterTracker, Player,
    ENCOUNTER_MS,
};
use tile_game::timer::Timer;

fn at(x: i64, y: i64) -> Position {
    Position::new(x, y, 0)
}

fn up() -> Keys {
    let mut k = Keys::none();
    k.up = true;
    k
}

fn player_at(x: i64, y: i64, speed: u16) -> Player {
    Player { position: at(x, y), active: true, just_moved: false, move_speed: speed }
}

fn tracker() -> EncounterTracker {
    EncounterTracker { timer: Timer::from_millis(ENCOUNTER_MS) }
}

#[test]
fn collision_one_tile_apart_does_not_collide() {
    assert!(!collision_check(at(0, 0), at(TILE, 0)));
    assert!(!collision_check(at(0, 0), at(0, -TILE)));
    assert!(!collision_check(at(TILE, 0), at(0, 0)));
}

#[test]
fn collision_half_tile_apart_collides() {
    assert!(collision_check(at(0, 0), at(TILE / 2, 0)));
    assert!(collision_check(at(0, 0), at(0, TILE / 2)));
    assert!(collision_check(at(0, 0), at(0, 0)));
}

#[test]
fn collision_edge_of_combined_footprint() {
    // Half-widths 450 and 500 give a reach of 950 on each axis, exclusive.
    assert!(collision_check(at(0, 0), at(949, 0)));
    assert!(!collision_check(at(0, 0), at(950, 0)));
    assert!(!collision_check(at(0, 0), at(500, 950)));
}

#[test]
fn collision_symmetric_when_sizes_swap() {
    let a = at(123, -456);
    let b = at(900, 100);
    assert_eq!(boxes_overlap(a, 900, b, 1000), boxes_overlap(b, 1000, a, 900));
    assert!(boxes_overlap(a, 900, b, 1000));
    assert!(!boxes_overlap(a, 100, b, 100));
}

#[test]
fn collides_with_any_finds_one_of_many() {
    let walls = vec![at(5000, 5000), at(0, 400), at(-5000, 0)];
    assert!(collides_with_any(at(0, 0), &walls));
    assert!(!collides_with_any(at(2000, 2000), &walls));
    assert!(!collides_with_any(at(0, 0), &Vec::new()));
}

#[test]
fn inactive_player_does_not_move() {
    let mut p = player_at(10, 20, 3000);
    p.active = false;
    p.just_moved = true;
    let mut keys = up();
    keys.d = true;
    player_movement(&mut p, &Vec::new(), keys, 500);
    assert_eq!(p.position, at(10, 20));
    assert!(!p.just_moved);
    assert!(!p.active);
}

#[test]
fn movement_step_formula() {
    // 3000 thousandths of a tile per second for 500 ms: 1.5 tiles.
    let mut p = player_at(0, 0, 3000);
    player_movement(&mut p, &Vec::new(), up(), 500);
    assert_eq!(p.position, at(0, 1500));
    assert!(p.just_moved);
    let mut keys = Keys::none();
    keys.left = true;
    keys.s = true;
    player_movement(&mut p, &Vec::new(), keys, 16);
    assert_eq!(p.position, at(-48, 1452));
}

#[test]
fn opposite_keys_cancel() {
    let mut p = player_at(0, 0, 3000);
    let mut keys = up();
    keys.s = true;
    keys.a = true;
    keys.right = true;
    player_movement(&mut p, &Vec::new(), keys, 500);
    assert_eq!(p.position, at(0, 0));
    assert!(!p.just_moved);
}

#[test]
fn no_time_no_movement() {
    let mut p = player_at(0, 0, 3000);
    player_movement(&mut p, &Vec::new(), up(), 0);
    assert_eq!(p.position, at(0, 0));
    assert!(!p.just_moved);
}

#[test]
fn move_onto_obstacle_rejected_on_that_axis() {
    // Moving right by exactly one tile would land on the wall.
    let walls = vec![at(1000, 0)];
    let mut p = player_at(0, 0, 2000);
    let mut keys = Keys::none();
    keys.d = true;
    player_movement(&mut p, &walls, keys, 500);
    assert_eq!(p.position, at(0, 0));
    assert!(p.just_moved);
}

#[test]
fn move_parallel_to_wall_succeeds() {
    let walls = vec![at(1000, 0), at(1000, 1000), at(1000, 2000)];
    let mut p = player_at(0, 0, 2000);
    player_movement(&mut p, &walls, up(), 500);
    assert_eq!(p.position, at(0, 1000));
    assert!(p.just_moved);
}

#[test]
fn blocked_axis_does_not_block_the_other() {
    let walls = vec![at(1000, 0)];
    let mut p = player_at(0, 0, 2000);
    let mut keys = up();
    keys.right = true;
    player_movement(&mut p, &walls, keys, 500);
    assert_eq!(p.position, at(0, 1000));
}

#[test]
fn player_adjacent_to_obstacle_above_pressing_up() {
    let walls = vec![at(0, 1000)];
    let mut p = player_at(0, 0, 3000);
    player_movement(&mut p, &walls, up(), 500);
    assert_eq!(p.position.y, 0);
    assert_eq!(p.position.x, 0);
    assert!(p.just_moved);
}

#[test]
fn timer_ticks_and_wraps() {
    let mut t = Timer::from_millis(1500);
    t.tick(1000);
    assert_eq!(t.elapsed_ms, 1000);
    assert!(!t.just_finished());
    t.tick(700);
    assert_eq!(t.elapsed_ms, 200);
    assert_eq!(t.times_finished, 1);
    assert!(t.just_finished());
    t.tick(3000);
    assert_eq!(t.elapsed_ms, 200);
    assert_eq!(t.times_finished, 2);
    t.tick(1);
    assert!(!t.just_finished());
}

#[test]
fn three_qualifying_half_second_frames_fire_once() {
    let zones = vec![at(0, 0)];
    let mut p = player_at(0, 0, 100);
    let mut tr = tracker();
    let mut fired = Vec::new();
    for _ in 0..3 {
        player_movement(&mut p, &Vec::new(), up(), 500);
        fired.push(player_encounter_checking(&mut p, &mut tr, &zones, 500));
    }
    assert_eq!(fired, vec![false, false, true]);
    assert!(!p.active);
    // The player is now locked: further frames neither move nor fire.
    player_movement(&mut p, &Vec::new(), up(), 500);
    assert!(!player_encounter_checking(&mut p, &mut tr, &zones, 500));
    assert_eq!(p.position, at(0, 150));
}

#[test]
fn non_qualifying_frames_do_not_count() {
    let zones = vec![at(0, 0)];
    let mut p = player_at(0, 0, 100);
    let mut tr = tracker();
    // 1.4 s of qualifying time.
    p.just_moved = true;
    assert!(!player_encounter_checking(&mut p, &mut tr, &zones, 1400));
    assert_eq!(tr.timer.elapsed_ms, 1400);
    // A long frame standing still adds nothing.
    p.just_moved = false;
    assert!(!player_encounter_checking(&mut p, &mut tr, &zones, 1000));
    assert_eq!(tr.timer.elapsed_ms, 1400);
    // Neither does moving outside every zone.
    let mut outside = player_at(5000, 5000, 100);
    outside.just_moved = true;
    assert!(!player_encounter_checking(&mut outside, &mut tr, &zones, 1000));
    assert_eq!(tr.timer.elapsed_ms, 1400);
    assert!(p.active);
    // Another qualifying 0.1 s reaches the threshold.
    p.just_moved = true;
    assert!(player_encounter_checking(&mut p, &mut tr, &zones, 100));
    assert!(!p.active);
}

#[test]
fn spawned_player_and_tracker() {
    let (p, tr) = spawn_player();
    assert_eq!(p.position, Position::new(2 * TILE, -2 * TILE, 900));
    assert!(p.active);
    assert!(!p.just_moved);
    assert_eq!(p.move_speed, 3000);
    assert_eq!(tr.timer.duration_ms, 1500);
    assert_eq!(tr.timer.elapsed_ms, 0);
}

#[test]
fn second_request_while_pending_is_dropped() {
    let mut g = Game::new(Vec::new(), Vec::new());
    assert_eq!(g.state, GameState::Overworld);
    assert!(g.request_transition(GameState::Combat));
    assert!(!g.request_transition(GameState::Overworld));
    assert_eq!(g.pending, Some(GameState::Combat));
    assert_eq!(g.state, GameState::Overworld);
    g.finish_transition();
    assert_eq!(g.state, GameState::Combat);
    assert_eq!(g.pending, None);
    // Nothing more is pending, so nothing more changes.
    g.finish_transition();
    assert_eq!(g.state, GameState::Combat);
}

#[test]
fn entering_and_leaving_combat_runs_hooks() {
    let mut g = Game::new(Vec::new(), Vec::new());
    assert!(g.player_visible);
    assert_eq!(g.children_visible, vec![true]);
    g.camera = Position::new(7, 8, 1000);
    g.request_transition(GameState::Combat);
    g.finish_transition();
    assert!(!g.player_visible);
    assert_eq!(g.children_visible, vec![false]);
    assert_eq!(g.enemies, vec![Enemy { position: Position::new(0, 5 * TILE, 100) }]);
    assert_eq!(g.camera, Position::new(0, 0, 1000));
    g.player.active = false;
    let mut space = Keys::none();
    space.space = true;
    assert!(!g.update(Keys::none(), space, 16));
    assert_eq!(g.pending, Some(GameState::Overworld));
    g.finish_transition();
    assert_eq!(g.state, GameState::Overworld);
    assert!(g.enemies.is_empty());
    assert!(g.player_visible);
    assert_eq!(g.children_visible, vec![true]);
    assert!(g.player.active);
}

#[test]
fn transition_to_current_mode_changes_nothing() {
    let mut g = Game::new(Vec::new(), Vec::new());
    g.request_transition(GameState::Overworld);
    g.finish_transition();
    assert_eq!(g.state, GameState::Overworld);
    assert!(g.enemies.is_empty());
    assert!(g.player_visible);
}

#[test]
fn combat_frame_without_space_does_nothing() {
    let mut g = Game::new(Vec::new(), Vec::new());
    g.request_transition(GameState::Combat);
    g.finish_transition();
    assert!(!g.update(up(), Keys::none(), 500));
    assert_eq!(g.pending, None);
    assert_eq!(g.player.position, Position::new(2000, -2000, 900));
}

#[test]
fn camera_follows_player_in_overworld() {
    let mut g = Game::new(Vec::new(), Vec::new());
    g.update(up(), Keys::none(), 500);
    assert_eq!(g.player.position, Position::new(2000, -500, 900));
    assert_eq!(g.camera, Position::new(2000, -500, 1000));
}

#[test]
fn quit_keys() {
    let mut g = Game::new(Vec::new(), Vec::new());
    let mut k = Keys::none();
    k.escape = true;
    assert!(g.update(k, Keys::none(), 0));
    let mut k = Keys::none();
    k.q = true;
    assert!(GameInputPlugin.update(k));
    assert!(!GameInputPlugin.update(up()));
}

#[test]
fn encounter_in_zone_requests_combat() {
    let mut g = Game::new(Vec::new(), vec![at(0, 0)]);
    g.player = player_at(0, 0, 100);
    for frame in 0..3 {
        g.update(up(), Keys::none(), 500);
        if frame < 2 {
            assert!(g.player.active);
            assert_eq!(g.pending, None);
        }
    }
    assert!(!g.player.active);
    assert_eq!(g.pending, Some(GameState::Combat));
    assert_eq!(g.state, GameState::Overworld);
    assert_eq!(g.camera, Position::new(0, 150, 1000));
    g.finish_transition();
    assert_eq!(g.state, GameState::Combat);
}
