use vstd::prelude::*;

use crate::geometry::Position;
use crate::input::Keys;
use crate::player::{
    after_movement, fires, player_encounter_checking, player_movement, qualifies, spawn_player, initial_player, ENCOUNTER_MS,
    EncounterTracker, Player,
};

verus! {

/// The global mode of the game.
#[derive(Clone, Copy, Debug, PartialEq, Eq, Structural)]
pub enum GameState {
    Overworld,
    Combat,
}

/// An actor that exists only while in combat.
#[derive(Clone, Copy, Debug, PartialEq, Eq, Structural)]
pub struct Enemy {
    pub position: Position,
}

/// Where the combat enemy appears: five tiles above the origin.
pub open spec fn enemy_spawn() -> Enemy {
    Enemy { position: Position { x: 0, y: 5000, z: 100 } }
}

/// The pending slot after asking for `target`: a request made while another
/// is pending is dropped.
pub open spec fn requested(pending: Option<GameState>, target: GameState) -> Option<GameState> {
    match pending {
        Some(p) => Some(p),
        None => Some(target),
    }
}

/// Everything the simulation owns: the mode and its single pending
/// transition, the player and its visuals, the camera, the combat actors,
/// and the level's walls and encounter zones.
pub struct Game {
    pub state: GameState,
    /// The transition handed to the fade effect and not yet applied.
    pub pending: Option<GameState>,
    pub player: Player,
    pub tracker: EncounterTracker,
    pub player_visible: bool,
    /// Visibility of each visual child of the player, by child index.
    pub children_visible: Vec<bool>,
    pub camera: Position,
    pub enemies: Vec<Enemy>,
    pub walls: Vec<Position>,
    pub zones: Vec<Position>,
}

/// Sets every entry of `flags` to `value`.
fn set_all(flags: &mut Vec<bool>, value: bool)
    ensures
        final(flags)@.len() == old(flags)@.len(),
        forall|i: int| 0 <= i < final(flags)@.len() ==> final(flags)@[i] == value,
{
    let n = flags.len();
    let mut i: usize = 0;
    while i < n
        invariant
            i <= n,
            flags@.len() == n,
            forall|j: int| 0 <= j < i ==> flags@[j] == value,
        decreases n - i,
    {
        flags.set(i, value);
        i = i + 1;
    }
}

/// Makes the player and all its visual children visible, and gives the
/// player control again.
pub fn show_player(player: &mut Player, visible: &mut bool, children: &mut Vec<bool>)
    ensures
        *final(player) == (Player { active: true, ..*old(player) }),
        *final(visible),
        final(children)@.len() == old(children)@.len(),
        forall|i: int| 0 <= i < final(children)@.len() ==> final(children)@[i],
{
    player.active = true;
    *visible = true;
    set_all(children, true);
}

/// Hides the player and all its visual children; control is left as it is.
pub fn hide_player(visible: &mut bool, children: &mut Vec<bool>)
    ensures
        !*final(visible),
        final(children)@.len() == old(children)@.len(),
        forall|i: int| 0 <= i < final(children)@.len() ==> !final(children)@[i],
{
    *visible = false;
    set_all(children, false);
}

/// Adds the combat enemy.
pub fn spawn_enemy(enemies: &mut Vec<Enemy>)
    ensures
        final(enemies)@ == old(enemies)@.push(enemy_spawn()),
{
    enemies.push(Enemy { position: Position { x: 0, y: 5000, z: 100 } });
}

/// Removes every combat actor.
pub fn despawn_enemy(enemies: &mut Vec<Enemy>)
    ensures
        final(enemies)@.len() == 0,
{
    enemies.clear();
}

/// Recentres the camera on the origin.
pub fn combat_camera(camera: &mut Position)
    ensures
        *final(camera) == (Position { x: 0, y: 0, z: old(camera).z }),
{
    camera.x = 0;
    camera.y = 0;
}

/// Snaps the camera onto the player.
pub fn camera_follow(player: &Player, camera: &mut Position)
    ensures
        *final(camera) == (Position { x: player.position.x, y: player.position.y, z: old(camera).z }),
{
    camera.x = player.position.x;
    camera.y = player.position.y;
}

/// Whether the keys held ask to leave the game.
pub fn handle_game_input(pressed: Keys) -> (r: bool)
    ensures
        r == pressed.quit_held(),
{
    pressed.q || pressed.escape
}

/// Runs the overworld systems: enter, exit, and one frame.
pub struct PlayerPlugin;

/// Runs the combat systems: enter, exit, and one frame.
pub struct CombatPlugin;

/// Handles input that applies in every mode.
pub struct GameInputPlugin;

impl GameInputPlugin {
    /// Whether this frame asks to quit.
    pub fn update(&self, pressed: Keys) -> (r: bool)
        ensures
            r == pressed.quit_held(),
    {
        handle_game_input(pressed)
    }
}

impl Game {
    pub open spec fn wf(&self) -> bool {
        self.tracker.timer.wf()
    }

    /// Every visual of the player is shown.
    pub open spec fn all_shown(&self) -> bool {
        self.player_visible && forall|i: int|
            0 <= i < self.children_visible@.len() ==> self.children_visible@[i]
    }

    /// Every visual of the player is hidden.
    pub open spec fn all_hidden(&self) -> bool {
        !self.player_visible && forall|i: int|
            0 <= i < self.children_visible@.len() ==> !self.children_visible@[i]
    }

    /// A new game in the overworld: the player at its spawn point with one
    /// visual child (its background), everything shown, the camera at the
    /// origin, no combat actor and nothing pending.
    pub fn new(walls: Vec<Position>, zones: Vec<Position>) -> (r: Game)
        ensures
            r.wf(),
            r.state == GameState::Overworld,
            r.pending.is_none(),
            r.player == initial_player(),
            r.tracker.timer.duration_ms == ENCOUNTER_MS,
            r.tracker.timer.elapsed_ms == 0,
            r.tracker.timer.times_finished == 0,
            r.all_shown(),
            r.children_visible@.len() == 1,
            r.camera == (Position { x: 0, y: 0, z: 1000 }),
            r.enemies@.len() == 0,
            r.walls@ == walls@,
            r.zones@ == zones@,
    {
        let (player, tracker) = spawn_player();
        Game {
            state: GameState::Overworld,
            pending: None,
            player,
            tracker,
            player_visible: true,
            children_visible: vec![true],
            camera: Position { x: 0, y: 0, z: 1000 },
            enemies: Vec::new(),
            walls,
            zones,
        }
    }

    /// Hands a transition to `target` to the fade effect, unless one is
    /// already in flight, in which case the request is dropped. Returns
    /// whether it was taken.
    pub fn request_transition(&mut self, target: GameState) -> (taken: bool)
        ensures
            taken == old(self).pending.is_none(),
            final(self).pending == requested(old(self).pending, target),
            final(self).state == old(self).state,
            final(self).player == old(self).player,
            final(self).tracker == old(self).tracker,
            final(self).player_visible == old(self).player_visible,
            final(self).children_visible@ == old(self).children_visible@,
            final(self).camera == old(self).camera,
            final(self).enemies@ == old(self).enemies@,
            final(self).walls@ == old(self).walls@,
            final(self).zones@ == old(self).zones@,
    {
        if self.pending.is_none() {
            self.pending = Some(target);
            true
        } else {
            false
        }
    }
}

impl Game {
    /// `self` and `other` agree on the player, its visuals, the camera and
    /// the combat actors.
    pub open spec fn same_scene(&self, other: &Game) -> bool {
        &&& self.player == other.player
        &&& self.player_visible == other.player_visible
        &&& self.children_visible@ == other.children_visible@
        &&& self.camera == other.camera
        &&& self.enemies@ == other.enemies@
    }

    /// `self` and `other` agree on the level and the encounter tracker.
    pub open spec fn same_level(&self, other: &Game) -> bool {
        &&& self.tracker == other.tracker
        &&& self.walls@ == other.walls@
        &&& self.zones@ == other.zones@
    }

    /// Applies the transition that the fade effect was handed, once the
    /// fade has completed: the exit hooks of the old mode run, then the
    /// mode changes, then the enter hooks of the new one run. A transition
    /// to the mode already current changes nothing but the pending slot.
    pub fn finish_transition(&mut self)
        requires
            old(self).wf(),
        ensures
            final(self).wf(),
            final(self).pending.is_none(),
            final(self).same_level(&*old(self)),
            final(self).children_visible@.len() == old(self).children_visible@.len(),
            old(self).pending.is_none() ==> final(self).state == old(self).state
                && final(self).same_scene(&*old(self)),
            old(self).pending == Some(old(self).state) ==> final(self).state == old(self).state
                && final(self).same_scene(&*old(self)),
            old(self).state == GameState::Overworld && old(self).pending == Some(GameState::Combat)
                ==> {
                &&& final(self).state == GameState::Combat
                &&& final(self).all_hidden()
                &&& final(self).player == old(self).player
                &&& final(self).enemies@ == old(self).enemies@.push(enemy_spawn())
                &&& final(self).camera == (Position { x: 0, y: 0, z: old(self).camera.z })
            },
            old(self).state == GameState::Combat && old(self).pending == Some(GameState::Overworld)
                ==> {
                &&& final(self).state == GameState::Overworld
                &&& final(self).all_shown()
                &&& final(self).player == (Player { active: true, ..old(self).player })
                &&& final(self).enemies@.len() == 0
                &&& final(self).camera == old(self).camera
            },
    {
        let target = match self.pending {
            Some(t) => t,
            None => {
                return;
            },
        };
        self.pending = None;
        if target == self.state {
            return;
        }
        match self.state {
            GameState::Overworld => PlayerPlugin.on_exit(self),
            GameState::Combat => CombatPlugin.on_exit(self),
        }
        self.state = target;
        match target {
            GameState::Overworld => PlayerPlugin.on_enter(self),
            GameState::Combat => CombatPlugin.on_enter(self),
        }
    }

    /// One frame. Input that applies in every mode is read first; then the
    /// systems of the current mode run. Returns whether the frame asks to
    /// quit.
    pub fn update(&mut self, pressed: Keys, just_pressed: Keys, dt_ms: u32) -> (quit: bool)
        requires
            old(self).wf(),
        ensures
            final(self).wf(),
            quit == pressed.quit_held(),
            final(self).state == old(self).state,
            final(self).walls@ == old(self).walls@,
            final(self).zones@ == old(self).zones@,
            old(self).state == GameState::Overworld ==> final(self).overworld_frame(
                &*old(self),
                pressed,
                dt_ms,
            ),
            old(self).state == GameState::Combat ==> final(self).combat_frame(
                &*old(self),
                just_pressed,
            ),
    {
        let quit = GameInputPlugin.update(pressed);
        match self.state {
            GameState::Overworld => PlayerPlugin.update(self, pressed, dt_ms),
            GameState::Combat => CombatPlugin.update(self, just_pressed),
        }
        quit
    }

    /// `self` is what one overworld frame makes of `old`: the player moves,
    /// the encounter check runs on the moved player (asking for combat when
    /// it fires), and the camera snaps onto the player.
    pub open spec fn overworld_frame(&self, old: &Game, pressed: Keys, dt_ms: u32) -> bool {
        let moved = after_movement(old.player, pressed, dt_ms, old.walls@);
        let fired = qualifies(moved, old.zones@) && fires(old.tracker, dt_ms as int);
        &&& self.player == (if fired {
            Player { active: false, ..moved }
        } else {
            moved
        })
        &&& qualifies(moved, old.zones@) ==> self.tracker.timer == old.tracker.timer.ticked(
            dt_ms as int,
        )
        &&& !qualifies(moved, old.zones@) ==> self.tracker == old.tracker
        &&& self.pending == (if fired {
            requested(old.pending, GameState::Combat)
        } else {
            old.pending
        })
        &&& self.camera == (Position {
            x: self.player.position.x,
            y: self.player.position.y,
            z: old.camera.z,
        })
        &&& self.state == old.state
        &&& self.player_visible == old.player_visible
        &&& self.children_visible@ == old.children_visible@
        &&& self.enemies@ == old.enemies@
        &&& self.walls@ == old.walls@
        &&& self.zones@ == old.zones@
    }

    /// `self` is what one combat frame makes of `old`: pressing space asks
    /// to go back to the overworld; nothing else changes.
    pub open spec fn combat_frame(&self, old: &Game, just_pressed: Keys) -> bool {
        &&& self.pending == (if just_pressed.space {
            requested(old.pending, GameState::Overworld)
        } else {
            old.pending
        })
        &&& self.state == old.state
        &&& self.same_scene(old)
        &&& self.same_level(old)
    }
}

impl PlayerPlugin {
    /// Entering the overworld shows the player and gives it control.
    pub fn on_enter(&self, game: &mut Game)
        ensures
            final(game).player == (Player { active: true, ..old(game).player }),
            final(game).all_shown(),
            final(game).children_visible@.len() == old(game).children_visible@.len(),
            final(game).state == old(game).state,
            final(game).pending == old(game).pending,
            final(game).camera == old(game).camera,
            final(game).enemies@ == old(game).enemies@,
            final(game).same_level(&*old(game)),
    {
        show_player(&mut game.player, &mut game.player_visible, &mut game.children_visible);
    }

    /// Leaving the overworld hides the player.
    pub fn on_exit(&self, game: &mut Game)
        ensures
            final(game).all_hidden(),
            final(game).player == old(game).player,
            final(game).children_visible@.len() == old(game).children_visible@.len(),
            final(game).state == old(game).state,
            final(game).pending == old(game).pending,
            final(game).camera == old(game).camera,
            final(game).enemies@ == old(game).enemies@,
            final(game).same_level(&*old(game)),
    {
        hide_player(&mut game.player_visible, &mut game.children_visible);
    }

    /// One overworld frame: movement, then the encounter check, then the
    /// camera.
    pub fn update(&self, game: &mut Game, pressed: Keys, dt_ms: u32)
        requires
            old(game).wf(),
        ensures
            final(game).wf(),
            final(game).overworld_frame(&*old(game), pressed, dt_ms),
    {
        player_movement(&mut game.player, &game.walls, pressed, dt_ms);
        let fired = player_encounter_checking(
            &mut game.player,
            &mut game.tracker,
            &game.zones,
            dt_ms,
        );
        if fired {
            game.request_transition(GameState::Combat);
        }
        camera_follow(&game.player, &mut game.camera);
    }
}

impl CombatPlugin {
    /// Entering combat spawns the enemy and recentres the camera.
    pub fn on_enter(&self, game: &mut Game)
        ensures
            final(game).enemies@ == old(game).enemies@.push(enemy_spawn()),
            final(game).camera == (Position { x: 0, y: 0, z: old(game).camera.z }),
            final(game).player == old(game).player,
            final(game).player_visible == old(game).player_visible,
            final(game).children_visible@ == old(game).children_visible@,
            final(game).state == old(game).state,
            final(game).pending == old(game).pending,
            final(game).same_level(&*old(game)),
    {
        spawn_enemy(&mut game.enemies);
        combat_camera(&mut game.camera);
    }

    /// Leaving combat removes every combat actor.
    pub fn on_exit(&self, game: &mut Game)
        ensures
            final(game).enemies@.len() == 0,
            final(game).player == old(game).player,
            final(game).player_visible == old(game).player_visible,
            final(game).children_visible@ == old(game).children_visible@,
            final(game).camera == old(game).camera,
            final(game).state == old(game).state,
            final(game).pending == old(game).pending,
            final(game).same_level(&*old(game)),
    {
        despawn_enemy(&mut game.enemies);
    }

    /// One combat frame: space asks to go back to the overworld.
    pub fn update(&self, game: &mut Game, just_pressed: Keys)
        ensures
            final(game).combat_frame(&*old(game), just_pressed),
    {
        test_exit_combat(game, just_pressed);
    }
}

/// Asks for the overworld when space was pressed this frame.
pub fn test_exit_combat(game: &mut Game, just_pressed: Keys)
    ensures
        final(game).combat_frame(&*old(game), just_pressed),
{
    if just_pressed.space {
        game.request_transition(GameState::Overworld);
    }
}

} // verus!
