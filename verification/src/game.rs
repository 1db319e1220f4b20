use vstd::prelude::*;
use crate::animation::{after_enemy_animation, after_player_animation, animate_looping_sprites};
use crate::enemies::{
    after_enemies_movement,
    after_enemies_offscreen,
    after_enemy_spawn,
    can_rearm,
    difficulty_setter,
    draws_made,
    enemies_cleanup,
    enemies_movement,
    enemies_offscreen,
    enemy_spawn,
    reset_spawn_timer,
    Enemy,
    EnemySpawnSettings,
    SpawnDraws,
    SpawnTimer,
    LANE_BASE,
    LANE_STEP,
    SPAWN_X,
};
use crate::gamestate::{handle_gamestate, GameState, Input};
use crate::physics::{gravity_system, Gravity};
use crate::player::{
    after_collision,
    after_dead_animation,
    after_dead_movement,
    after_jump,
    after_movement,
    after_reset,
    animate_dead_player,
    death_complete,
    player_check_collision,
    player_dead_cleanup,
    player_dead_movement,
    player_jump,
    player_movement,
    player_spawn,
    reset_player_pos,
    spawned,
    DeadPlayer,
    Player,
    PlayerAlive,
};
use crate::score::{
    after_update_score,
    menu_text_cleanup,
    menu_text_spawn,
    score_cleanup,
    score_spawn,
    update_score,
    MenuText,
    Score,
};
use crate::units::{fits, small, Transform, WinSize, LIMIT, SCALE_MAX};

verus! {

/// The pull of gravity in the game, in pixels per second squared.
pub const GRAVITY: i64 = 1125;

/// Longest time, in nanoseconds, that the upper bound of the spawn
/// interval may be set to in a game that is ticked.
pub const TIME_MAX: u64 = 400_000_000_000_000_000;

/// Largest difficulty, in units of the spawn timer, with which a game can
/// be ticked.
pub const DIFFICULTY_MAX: u64 = 10_000_000_000_000_000_000;

/// The whole state of one game: what it is set to, the state of the game
/// flow, and every entity.
#[derive(Clone, Debug)]
pub struct Game {
    pub win_size: WinSize,
    pub gravity: Gravity,
    pub enemy_settings: EnemySpawnSettings,
    pub state: GameState,
    pub alive: PlayerAlive,
    pub player: Option<Player>,
    pub dead_player: Option<DeadPlayer>,
    pub enemies: Vec<Enemy>,
    pub spawn_timer: SpawnTimer,
    pub score: Option<Score>,
    pub menu_text: Option<MenuText>,
}

/// The mathematical value of a `Game`: the same fields, the enemies as a
/// sequence.
pub struct GameModel {
    pub win_size: WinSize,
    pub gravity: Gravity,
    pub enemy_settings: EnemySpawnSettings,
    pub state: GameState,
    pub alive: PlayerAlive,
    pub player: Option<Player>,
    pub dead_player: Option<DeadPlayer>,
    pub enemies: Seq<Enemy>,
    pub spawn_timer: SpawnTimer,
    pub score: Option<Score>,
    pub menu_text: Option<MenuText>,
}

impl View for Game {
    type V = GameModel;

    open spec fn view(&self) -> GameModel {
        GameModel {
            win_size: self.win_size,
            gravity: self.gravity,
            enemy_settings: self.enemy_settings,
            state: self.state,
            alive: self.alive,
            player: self.player,
            dead_player: self.dead_player,
            enemies: self.enemies@,
            spawn_timer: self.spawn_timer,
            score: self.score,
            menu_text: self.menu_text,
        }
    }
}

impl GameModel {
    /// A game as it starts: in the main menu, with the player on its start
    /// position and the prompt on display.
    pub open spec fn start(win_size: WinSize) -> GameModel {
        GameModel {
            win_size,
            gravity: Gravity(GRAVITY),
            enemy_settings: EnemySpawnSettings::spec_new(),
            state: GameState::MainMenu,
            alive: PlayerAlive(true),
            player: spawned(win_size),
            dead_player: None,
            enemies: Seq::empty(),
            spawn_timer: SpawnTimer::spec_new(),
            score: None,
            menu_text: Some(MenuText),
        }
    }

    /// What holds of every game that was started and ticked: there is a
    /// live player exactly while the player is alive and a dead player
    /// exactly while it is not, the dead state is only reached with a dead
    /// player, the prompt is on display exactly in the main menu and the
    /// score exactly outside it, and the main menu has no enemies.
    pub open spec fn wf(self) -> bool {
        &&& self.win_size.wf()
        &&& self.alive.0 <==> self.player is Some
        &&& self.alive.0 <==> self.dead_player is None
        &&& self.state == GameState::Dead ==> !self.alive.0
        &&& self.state == GameState::MainMenu ==> self.alive.0 && self.enemies.len() == 0
        &&& self.state == GameState::MainMenu <==> self.menu_text is Some
        &&& self.state == GameState::MainMenu <==> self.score is None
    }

    /// The game after the hooks that run on leaving `state`: leaving the
    /// menu removes the prompt; leaving the dead state puts a fresh player
    /// in, removes the dead player and sets the player alive, and removes
    /// every enemy and the score.
    pub open spec fn on_exit(self, state: GameState) -> GameModel {
        match state {
            GameState::MainMenu => GameModel { menu_text: None, ..self },
            GameState::Playing => self,
            GameState::Dead => GameModel {
                player: spawned(self.win_size),
                dead_player: None,
                alive: if self.dead_player is Some {
                    PlayerAlive(true)
                } else {
                    self.alive
                },
                enemies: Seq::empty(),
                score: None,
                ..self
            },
        }
    }

    /// The game after the hooks that run on entering `state`: entering the
    /// menu puts a fresh player in and shows the prompt; entering play
    /// puts the player on its start position and starts the spawn timer
    /// and the score anew.
    pub open spec fn on_enter(self, state: GameState) -> GameModel {
        match state {
            GameState::MainMenu => GameModel {
                player: spawned(self.win_size),
                menu_text: Some(MenuText),
                ..self
            },
            GameState::Playing => GameModel {
                player: after_reset(self.player, self.win_size),
                spawn_timer: SpawnTimer::spec_new(),
                score: Some(Score::spec_new()),
                ..self
            },
            GameState::Dead => self,
        }
    }

    /// The game after a change of state to `next`: the hooks of leaving
    /// the old state, then those of entering the new one. Without a change
    /// no hook runs.
    pub open spec fn entered(self, next: GameState) -> GameModel {
        if next == self.state {
            self
        } else {
            GameModel { state: next, ..self.on_exit(self.state) }.on_enter(next)
        }
    }

    /// The game after one tick of gravity on the player and on the dead
    /// player.
    pub open spec fn after_physics(self) -> GameModel {
        GameModel {
            player: match self.player {
                Some(player) => Some(
                    Player {
                        velocity: player.velocity.after_gravity(self.gravity, player.in_air),
                        ..player
                    },
                ),
                None => None,
            },
            dead_player: match self.dead_player {
                Some(dead) => Some(
                    DeadPlayer {
                        velocity: dead.velocity.after_gravity(self.gravity, dead.in_air),
                        ..dead
                    },
                ),
                None => None,
            },
            ..self
        }
    }

    /// The game after the player's systems: motion and jump in every
    /// state; while play is active also the collision test, the motion
    /// of the dead player and its animation, which asks for the dead state
    /// once it has finished.
    pub open spec fn after_player(self, input: Input, delta: u64, active: GameState) -> GameModel {
        let player = after_jump(
            after_movement(self.player, input, self.win_size, self.alive),
            input,
            self.win_size,
            self.alive,
        );
        if active != GameState::Playing {
            GameModel { player, ..self }
        } else {
            let (alive, player, dead) = after_collision(
                self.alive,
                player,
                self.dead_player,
                self.enemies,
            );
            let dead = after_dead_movement(dead, self.win_size);
            GameModel {
                alive,
                player,
                dead_player: after_dead_animation(dead, delta),
                state: if death_complete(dead) {
                    self.state.after_request(GameState::Dead)
                } else {
                    self.state
                },
                ..self
            }
        }
    }

    /// The game after the enemies' systems: while play is active the
    /// spawn, the motion, the removal at the left edge and the decay of
    /// the difficulty; while the dead state is active the motion and the
    /// removal; in the menu nothing.
    pub open spec fn after_enemies(
        self,
        delta: u64,
        bob: i64,
        active: GameState,
        draws: Option<SpawnDraws>,
    ) -> GameModel {
        match active {
            GameState::MainMenu => self,
            GameState::Playing => {
                let (spawn_timer, enemies) = after_enemy_spawn(
                    self.enemy_settings,
                    self.spawn_timer,
                    self.enemies,
                    self.alive,
                    delta,
                    draws,
                );
                GameModel {
                    spawn_timer: spawn_timer.decayed(delta),
                    enemies: after_enemies_offscreen(after_enemies_movement(enemies, bob)),
                    ..self
                }
            },
            GameState::Dead => GameModel {
                enemies: after_enemies_offscreen(after_enemies_movement(self.enemies, bob)),
                ..self
            },
        }
    }

    /// The game after the score's system, which runs while play is active.
    pub open spec fn after_score(self, delta: u64, active: GameState) -> GameModel {
        if active == GameState::Playing {
            GameModel { score: after_update_score(self.score, delta, self.alive), ..self }
        } else {
            self
        }
    }

    /// The game after the looping animations.
    pub open spec fn after_animation(self, delta: u64) -> GameModel {
        GameModel {
            player: after_player_animation(self.player, delta),
            enemies: after_enemy_animation(self.enemies, delta),
            ..self
        }
    }

    /// The state that is active in a tick: the state after the input was
    /// read. It decides which systems run in the tick.
    pub open spec fn active(self, input: Input) -> GameState {
        self.state.after_input(input)
    }

    /// The game after one tick, given the draws made in it: the state
    /// machine with its hooks, then physics, the player, the enemies,
    /// the score, and the looping animations.
    pub open spec fn ticked(
        self,
        input: Input,
        delta: u64,
        bob: i64,
        draws: Option<SpawnDraws>,
    ) -> GameModel {
        let active = self.active(input);
        self.entered(active).after_physics().after_player(input, delta, active).after_enemies(
            delta,
            bob,
            active,
            draws,
        ).after_score(delta, active).after_animation(delta)
    }

    /// Gravity can act without leaving the range of the velocities.
    pub open spec fn can_run_physics(self) -> bool {
        &&& self.player matches Some(player) ==> (player.in_air.0 ==> fits(
            player.velocity.0.y - self.gravity.0,
        ))
        &&& self.dead_player matches Some(dead) ==> (dead.in_air.0 ==> fits(
            dead.velocity.0.y - self.gravity.0,
        ))
    }

    /// The player's systems can run without leaving the range of the
    /// coordinates.
    pub open spec fn can_run_player(self, active: GameState) -> bool {
        &&& self.win_size.wf()
        &&& self.alive.0 ==> (self.player matches Some(player) ==> player.can_move())
        &&& active == GameState::Playing ==> (self.dead_player matches Some(dead) ==> dead.can_move()
            && dead.animation.wf())
    }

    /// The enemies' systems can run without leaving the range of the
    /// coordinates and of the spawn timer.
    pub open spec fn can_run_enemies(self, bob: i64, active: GameState) -> bool {
        &&& active != GameState::MainMenu ==> forall|i: int|
            0 <= i < self.enemies.len() ==> (#[trigger] self.enemies[i]).can_move(bob)
        &&& active == GameState::Playing ==> {
            &&& self.enemy_settings.wf()
            &&& can_rearm(self.enemy_settings, self.spawn_timer)
            &&& fits(SPAWN_X + self.enemy_settings.speed)
            &&& fits(LANE_BASE + bob)
            &&& fits(LANE_BASE + LANE_STEP + bob)
        }
    }

    /// The score's system can run without leaving the range of the score.
    pub open spec fn can_run_score(self, delta: u64, active: GameState) -> bool {
        active == GameState::Playing && self.alive.0 ==> (self.score matches Some(score)
            ==> score.elapsed + delta <= u64::MAX)
    }

    /// Every looping clip lies inside the range of the frame numbers.
    pub open spec fn can_animate(self) -> bool {
        &&& self.player matches Some(player) ==> player.animation.wf()
        &&& forall|i: int|
            0 <= i < self.enemies.len() ==> (#[trigger] self.enemies[i]).animation.wf()
    }
}

impl GameModel {
    /// The game before the enemies' systems of a tick run.
    pub open spec fn before_enemies(self, input: Input, delta: u64) -> GameModel {
        let active = self.active(input);
        self.entered(active).after_physics().after_player(input, delta, active)
    }

    /// What holds of the draws that a tick returns: they are the draws of
    /// the enemies' spawn in that tick, which is made only while play is
    /// active.
    pub open spec fn draws_fit(self, input: Input, delta: u64, draws: Option<SpawnDraws>) -> bool {
        let before = self.before_enemies(input, delta);
        if self.active(input) == GameState::Playing {
            draws_made(before.enemy_settings, before.spawn_timer, before.alive, delta, draws)
        } else {
            draws is None
        }
    }

    /// The game can take a tick of `delta` nanoseconds with the bobbing
    /// offset `bob` without leaving the range of its numbers: positions,
    /// velocities, gravity and offset are small, scales are in range, the
    /// clips lie inside the range of the frame numbers, the spawn interval
    /// and the difficulty are bounded, and the score has room for `delta`.
    pub open spec fn can_tick(self, delta: u64, bob: i64) -> bool {
        &&& self.win_size.wf()
        &&& small(self.gravity.0 as int)
        &&& small(bob as int)
        &&& small(self.enemy_settings.speed as int)
        &&& self.enemy_settings.wf()
        &&& self.enemy_settings.max_time <= TIME_MAX
        &&& self.spawn_timer.difficulty <= DIFFICULTY_MAX
        &&& self.player matches Some(player) ==> {
            &&& transform_small(player.transform)
            &&& player.transform.scale_in_range()
            &&& small(player.velocity.0.y as int)
            &&& player.animation.wf()
        }
        &&& self.dead_player matches Some(dead) ==> {
            &&& transform_small(dead.transform)
            &&& small(dead.velocity.0.x as int)
            &&& small(dead.velocity.0.y as int)
            &&& dead.animation.wf()
        }
        &&& forall|i: int| 0 <= i < self.enemies.len() ==> enemy_small(#[trigger] self.enemies[i])
        &&& self.score matches Some(score) ==> score.elapsed + delta <= u64::MAX
    }
}

/// Whether both coordinates of a position are small.
pub open spec fn transform_small(transform: Transform) -> bool {
    small(transform.translation.x as int) && small(transform.translation.y as int)
}

/// Whether the position and the horizontal velocity of an enemy are small
/// and its clip lies inside the range of the frame numbers.
pub open spec fn enemy_small(enemy: Enemy) -> bool {
    &&& transform_small(enemy.transform)
    &&& small(enemy.velocity.0.x as int)
    &&& enemy.animation.wf()
}

/// Executable form of `small`.
fn is_small(v: i64) -> (b: bool)
    ensures
        b == small(v as int),
{
    -LIMIT <= v && v <= LIMIT
}

impl Game {
    /// Starts a game in a window of the given size.
    pub fn new(win_size: WinSize) -> (game: Game)
        requires
            win_size.wf(),
        ensures
            game@ == GameModel::start(win_size),
            game@.wf(),
    {
        let mut game = Game {
            win_size,
            gravity: Gravity(GRAVITY),
            enemy_settings: EnemySpawnSettings::new(),
            state: GameState::MainMenu,
            alive: PlayerAlive(true),
            player: None,
            dead_player: None,
            enemies: Vec::new(),
            spawn_timer: SpawnTimer::new(),
            score: None,
            menu_text: None,
        };
        game.on_enter(GameState::MainMenu);
        assert(game@.enemies =~= Seq::<Enemy>::empty());
        game
    }

    /// Runs the hooks of leaving `state`.
    pub fn on_exit(&mut self, state: GameState)
        requires
            old(self).win_size.wf(),
        ensures
            final(self)@ == old(self)@.on_exit(state),
    {
        let win_size = self.win_size;
        match state {
            GameState::MainMenu => {
                menu_text_cleanup(&mut self.menu_text);
            },
            GameState::Playing => {},
            GameState::Dead => {
                player_spawn(&win_size, &mut self.player);
                player_dead_cleanup(&mut self.alive, &mut self.dead_player);
                enemies_cleanup(&mut self.enemies);
                score_cleanup(&mut self.score);
            },
        }
    }

    /// Runs the hooks of entering `state`.
    pub fn on_enter(&mut self, state: GameState)
        requires
            old(self).win_size.wf(),
        ensures
            final(self)@ == old(self)@.on_enter(state),
    {
        let win_size = self.win_size;
        match state {
            GameState::MainMenu => {
                player_spawn(&win_size, &mut self.player);
                menu_text_spawn(&mut self.menu_text);
            },
            GameState::Playing => {
                reset_player_pos(&win_size, &mut self.player);
                reset_spawn_timer(&mut self.spawn_timer);
                score_spawn(&mut self.score);
            },
            GameState::Dead => {},
        }
    }

    /// Changes the state to `next` and runs the hooks of the change. Where
    /// `next` is the state that the game is in, nothing happens.
    pub fn enter(&mut self, next: GameState)
        requires
            old(self).win_size.wf(),
        ensures
            final(self)@ == old(self)@.entered(next),
    {
        if next != self.state {
            let previous = self.state;
            self.on_exit(previous);
            self.state = next;
            self.on_enter(next);
        }
    }

    /// Applies one tick of gravity to the player and to the dead player.
    pub fn physics(&mut self)
        requires
            old(self)@.can_run_physics(),
        ensures
            final(self)@ == old(self)@.after_physics(),
    {
        let gravity = self.gravity;
        match self.player {
            Some(player) => {
                let mut player = player;
                gravity_system(&gravity, &mut player.velocity, &player.in_air);
                self.player = Some(player);
            },
            None => {},
        }
        match self.dead_player {
            Some(dead) => {
                let mut dead = dead;
                gravity_system(&gravity, &mut dead.velocity, &dead.in_air);
                self.dead_player = Some(dead);
            },
            None => {},
        }
    }

    /// Runs the player's systems for one tick of `delta` nanoseconds, in
    /// which `active` is the active state.
    pub fn player_systems(&mut self, input: &Input, delta: u64, active: GameState)
        requires
            old(self)@.can_run_player(active),
        ensures
            final(self)@ == old(self)@.after_player(*input, delta, active),
    {
        let win_size = self.win_size;
        let alive = self.alive;
        player_movement(input, &win_size, &alive, &mut self.player);
        player_jump(input, &win_size, &alive, &mut self.player);
        if active == GameState::Playing {
            player_check_collision(
                &mut self.alive,
                &mut self.player,
                &mut self.dead_player,
                &self.enemies,
            );
            player_dead_movement(&win_size, &mut self.dead_player);
            animate_dead_player(&mut self.state, delta, &mut self.dead_player);
        }
    }

    /// Runs the enemies' systems for one tick of `delta` nanoseconds, in
    /// which `active` is the active state, with the bobbing offset `bob`.
    /// Returns the draws of the spawn, where one took place.
    pub fn enemy_systems(&mut self, delta: u64, bob: i64, active: GameState) -> (draws: Option<
        SpawnDraws,
    >)
        requires
            old(self)@.can_run_enemies(bob, active),
        ensures
            final(self)@ == old(self)@.after_enemies(delta, bob, active, draws),
            active == GameState::Playing ==> draws_made(
                old(self).enemy_settings,
                old(self).spawn_timer,
                old(self).alive,
                delta,
                draws,
            ),
            active != GameState::Playing ==> draws is None,
    {
        match active {
            GameState::MainMenu => None,
            GameState::Playing => {
                let settings = self.enemy_settings;
                let alive = self.alive;
                let draws = enemy_spawn(
                    &settings,
                    delta,
                    &mut self.spawn_timer,
                    &mut self.enemies,
                    &alive,
                );
                enemies_movement(bob, &mut self.enemies);
                enemies_offscreen(&mut self.enemies);
                difficulty_setter(delta, &mut self.spawn_timer);
                draws
            },
            GameState::Dead => {
                enemies_movement(bob, &mut self.enemies);
                enemies_offscreen(&mut self.enemies);
                None
            },
        }
    }

    /// Runs the score's system for one tick of `delta` nanoseconds, in which
    /// `active` is the active state.
    pub fn score_systems(&mut self, delta: u64, active: GameState)
        requires
            old(self)@.can_run_score(delta, active),
        ensures
            final(self)@ == old(self)@.after_score(delta, active),
    {
        if active == GameState::Playing {
            let alive = self.alive;
            update_score(delta, &mut self.score, &alive);
        }
    }

    /// Plays the looping animations for one tick of `delta` nanoseconds.
    pub fn animate(&mut self, delta: u64)
        requires
            old(self)@.can_animate(),
        ensures
            final(self)@ == old(self)@.after_animation(delta),
    {
        animate_looping_sprites(delta, &mut self.player, &mut self.enemies);
    }

    /// Tells whether the game can take a tick of `delta` nanoseconds with
    /// the bobbing offset `bob`.
    pub fn ready(&self, delta: u64, bob: i64) -> (ok: bool)
        ensures
            ok == self@.can_tick(delta, bob),
    {
        if !(0 <= self.win_size.w && self.win_size.w <= crate::units::WIN_MAX && 0
            <= self.win_size.h && self.win_size.h <= crate::units::WIN_MAX) {
            return false;
        }
        if !(is_small(self.gravity.0) && is_small(bob) && is_small(self.enemy_settings.speed)) {
            return false;
        }
        if !(self.enemy_settings.min_time < self.enemy_settings.max_time
            && self.enemy_settings.max_time <= TIME_MAX && self.spawn_timer.difficulty
            <= DIFFICULTY_MAX) {
            return false;
        }
        match self.player {
            Some(player) => {
                if !(is_small(player.transform.translation.x) && is_small(
                    player.transform.translation.y,
                ) && is_small(player.velocity.0.y) && -SCALE_MAX <= player.transform.scale.x
                    && player.transform.scale.x <= SCALE_MAX && -SCALE_MAX
                    <= player.transform.scale.y && player.transform.scale.y <= SCALE_MAX
                    && player.animation.size <= u32::MAX - player.animation.index) {
                    return false;
                }
            },
            None => {},
        }
        match self.dead_player {
            Some(dead) => {
                if !(is_small(dead.transform.translation.x) && is_small(dead.transform.translation.y)
                    && is_small(dead.velocity.0.x) && is_small(dead.velocity.0.y)
                    && dead.animation.size <= u32::MAX - dead.animation.index) {
                    return false;
                }
            },
            None => {},
        }
        match self.score {
            Some(score) => {
                if delta > u64::MAX - score.elapsed {
                    return false;
                }
            },
            None => {},
        }
        let mut i: usize = 0;
        while i < self.enemies.len()
            invariant
                i <= self.enemies@.len(),
                forall|j: int| 0 <= j < i ==> enemy_small(#[trigger] self.enemies@[j]),
            decreases self.enemies@.len() - i,
        {
            let enemy: Enemy = self.enemies[i];
            if !(is_small(enemy.transform.translation.x) && is_small(enemy.transform.translation.y)
                && is_small(enemy.velocity.0.x) && enemy.animation.size <= u32::MAX
                - enemy.animation.index) {
                assert(!enemy_small(self@.enemies[i as int]));
                return false;
            }
            i += 1;
        }
        true
    }

    /// Advances the game by one tick: `input` is the input polled for the
    /// tick, `delta` the time since the tick before, in nanoseconds, and
    /// `bob` the bobbing offset of the enemies in this tick, in subpixels.
    /// The state machine is evaluated first and decides which systems run in the
    /// tick; then come physics, the player, the enemies, the score and the
    /// looping animations. Returns the draws of the spawn, where one took
    /// place.
    pub fn tick(&mut self, input: &Input, delta: u64, bob: i64) -> (draws: Option<SpawnDraws>)
        requires
            old(self)@.can_tick(delta, bob),
        ensures
            final(self)@ == old(self)@.ticked(*input, delta, bob, draws),
            old(self)@.draws_fit(*input, delta, draws),
            old(self)@.wf() ==> final(self)@.wf(),
    {
        let active = handle_gamestate(&self.state, input);
        self.enter(active);
        self.physics();
        self.player_systems(input, delta, active);
        let draws = self.enemy_systems(delta, bob, active);
        self.score_systems(delta, active);
        proof {
            lemma_enemies_keep_clips(old(self)@.before_enemies(*input, delta), delta, bob, active, draws);
        }
        self.animate(delta);
        proof {
            if old(self)@.wf() {
                lemma_tick_keeps_wf(old(self)@, *input, delta, bob, draws);
            }
        }
        draws
    }

    /// Advances the game by one tick where it can take the tick, and
    /// leaves it as it is where it cannot. Returns whether the tick was
    /// taken.
    pub fn try_tick(&mut self, input: &Input, delta: u64, bob: i64) -> (ticked: bool)
        ensures
            ticked == old(self)@.can_tick(delta, bob),
            !ticked ==> final(self)@ == old(self)@,
            ticked ==> exists|draws: Option<SpawnDraws>|
                old(self)@.draws_fit(*input, delta, draws) && final(self)@ == #[trigger] old(
                    self,
                )@.ticked(*input, delta, bob, draws),
            old(self)@.wf() ==> final(self)@.wf(),
    {
        if self.ready(delta, bob) {
            let draws = self.tick(input, delta, bob);
            true
        } else {
            false
        }
    }
}

/// The enemies' systems leave every enemy with a clip inside the range of
/// the frame numbers, where every enemy had one before.
proof fn lemma_enemies_keep_clips(
    game: GameModel,
    delta: u64,
    bob: i64,
    active: GameState,
    draws: Option<SpawnDraws>,
)
    requires
        forall|i: int| 0 <= i < game.enemies.len() ==> (#[trigger] game.enemies[i]).animation.wf(),
    ensures
        forall|i: int|
            0 <= i < game.after_enemies(delta, bob, active, draws).enemies.len() ==> (
            #[trigger] game.after_enemies(delta, bob, active, draws).enemies[i]).animation.wf(),
{
    let after = game.after_enemies(delta, bob, active, draws).enemies;
    if active != GameState::MainMenu {
        let present = if active == GameState::Playing {
            after_enemy_spawn(
                game.enemy_settings,
                game.spawn_timer,
                game.enemies,
                game.alive,
                delta,
                draws,
            ).1
        } else {
            game.enemies
        };
        let moved = after_enemies_movement(present, bob);
        assert(after == after_enemies_offscreen(moved));
        crate::enemies::lemma_offscreen_removes_exactly(moved);
        assert forall|i: int| 0 <= i < after.len() implies (#[trigger] after[i]).animation.wf() by {
            assert(after.contains(after[i]));
            assert(moved.contains(after[i]));
            let j = choose|j: int| 0 <= j < moved.len() && moved[j] == after[i];
            assert(moved[j] == present[j].moved(bob));
            if j < game.enemies.len() {
                assert(present[j] == game.enemies[j]);
            }
        }
    }
}

/// A tick keeps a game well formed, whatever the input, the time, the
/// offset and the draws.
pub proof fn lemma_tick_keeps_wf(
    game: GameModel,
    input: Input,
    delta: u64,
    bob: i64,
    draws: Option<SpawnDraws>,
)
    requires
        game.wf(),
    ensures
        game.ticked(input, delta, bob, draws).wf(),
{
}

/// After a tick in which play or the dead state is active, no enemy is
/// left that has reached the left edge.
pub proof fn lemma_tick_clears_left_edge(
    game: GameModel,
    input: Input,
    delta: u64,
    bob: i64,
    draws: Option<SpawnDraws>,
)
    requires
        game.active(input) != GameState::MainMenu,
    ensures
        forall|i: int|
            0 <= i < game.ticked(input, delta, bob, draws).enemies.len() ==> !(
            #[trigger] game.ticked(input, delta, bob, draws).enemies[i]).offscreen(),
{
    let active = game.active(input);
    let before = game.before_enemies(input, delta);
    let present = if active == GameState::Playing {
        after_enemy_spawn(
            before.enemy_settings,
            before.spawn_timer,
            before.enemies,
            before.alive,
            delta,
            draws,
        ).1
    } else {
        before.enemies
    };
    let kept = after_enemies_offscreen(after_enemies_movement(present, bob));
    crate::enemies::lemma_offscreen_removes_exactly(after_enemies_movement(present, bob));
    let after = game.ticked(input, delta, bob, draws).enemies;
    assert(after == after_enemy_animation(kept, delta));
    assert forall|i: int| 0 <= i < after.len() implies !(#[trigger] after[i]).offscreen() by {
        assert(after[i] == kept[i].animated(delta));
    }
}

/// A retry from the dead state starts the round anew: the game is in play,
/// the spawn timer stands at its first interval with the initial
/// difficulty, the score is blank, the player is alive, there is one live
/// player, as it is spawned, and no dead player, and no enemy is left.
pub proof fn lemma_retry_restores(game: GameModel, input: Input)
    requires
        game.wf(),
        game.state == GameState::Dead,
        input.retry,
    ensures
        ({
            let fresh = game.entered(game.active(input));
            &&& fresh.state == GameState::Playing
            &&& fresh.spawn_timer == SpawnTimer::spec_new()
            &&& fresh.spawn_timer.difficulty == crate::enemies::INITIAL_DIFFICULTY
            &&& fresh.spawn_timer.timer.duration == crate::enemies::INITIAL_INTERVAL
            &&& fresh.spawn_timer.timer.elapsed == 0
            &&& fresh.score == Some(Score::spec_new())
            &&& Score::spec_new().spec_text() == Seq::<char>::empty()
            &&& fresh.alive.0
            &&& fresh.player == Some(Player::spec_spawn(game.win_size))
            &&& fresh.dead_player is None
            &&& fresh.enemies.len() == 0
            &&& fresh.wf()
        }),
{
}

} // verus!
