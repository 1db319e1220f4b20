use vstd::prelude::*;
use crate::animation::Animation;
use crate::enemies::Enemy;
use crate::gamestate::{GameState, Input};
use crate::physics::{AffectedByGravity, Velocity};
use crate::timer::Timer;
use crate::units::{abs, fits, Transform, Vec2, Vec3, WinSize};

verus! {

/// Width of the player's sprite, in pixels at scale one.
pub const PLAYER_WIDTH: i64 = 416;

/// Height of the player's sprite, in pixels at scale one.
pub const PLAYER_HEIGHT: i64 = 454;

/// Scale at which the player is drawn, in hundredths.
pub const PLAYER_SCALE: i64 = 30;

/// Depth at which the player is drawn.
pub const PLAYER_DEPTH: i64 = 10;

/// Walking speed, in subpixels per tick: 300 pixels per second.
pub const WALK_SPEED: i64 = 18_000;

/// Upward speed at the start of a jump, in subpixels per tick: 570 pixels
/// per second.
pub const JUMP_SPEED: i64 = 34_200;

/// What a bounding box is shrunk by in each direction, in subpixels: 17
/// pixels.
pub const MARGIN: i64 = 61_200;

/// Subpixels that one pixel of sprite covers at a scale of one hundredth.
pub const SUBPIXELS_PER_SCALED_PIXEL: i64 = 36;

/// Period of the live player's frame timer, in nanoseconds.
pub const PLAYER_FRAME_NANOS: u64 = 70_000_000;

/// Period of the dead player's frame timer, in nanoseconds.
pub const DEAD_FRAME_NANOS: u64 = 50_000_000;

/// The clip shown while the player stands.
pub open spec fn idle_clip() -> Animation {
    Animation { index: 0, size: 16 }
}

/// The clip shown while the player walks.
pub open spec fn walk_clip() -> Animation {
    Animation { index: 16, size: 20 }
}

/// The clip shown while the player is in the air.
pub open spec fn jump_clip() -> Animation {
    Animation { index: 36, size: 30 }
}

/// The clip of the death animation.
pub open spec fn death_clip() -> Animation {
    Animation { index: 0, size: 30 }
}

/// Whether the player is alive. False from the collision with an enemy
/// until the dead player has been cleaned up.
#[derive(Clone, Copy, Debug, PartialEq, Eq, Structural)]
pub struct PlayerAlive(pub bool);

/// The live player.
#[derive(Clone, Copy, Debug, PartialEq, Eq, Structural)]
pub struct Player {
    pub transform: Transform,
    pub velocity: Velocity,
    /// Gravity acts on the player exactly while it is in the air.
    pub in_air: AffectedByGravity,
    pub animation: Animation,
    /// The frame of the sprite sheet that is shown.
    pub sprite: u32,
    pub timer: Timer,
}

/// What is left of the player after a collision: it falls to the ground
/// while its death animation plays.
#[derive(Clone, Copy, Debug, PartialEq, Eq, Structural)]
pub struct DeadPlayer {
    pub transform: Transform,
    pub velocity: Velocity,
    pub in_air: AffectedByGravity,
    pub animation: Animation,
    pub sprite: u32,
    pub timer: Timer,
}

/// Edge of a bounding box along one axis, in subpixels: the sprite's edge
/// in pixels, scaled, less the margin.
pub open spec fn box_edge(pixels: int, scale: int) -> int {
    pixels * abs(scale) * SUBPIXELS_PER_SCALED_PIXEL - MARGIN
}

/// Whether two boxes, each given by its centre and its size, overlap along
/// both axes. Boxes that only touch do not overlap. The comparison is made
/// on the doubled coordinates, so that no half has to be taken.
pub open spec fn overlap(a_pos: Vec3, a_w: int, a_h: int, b_pos: Vec3, b_w: int, b_h: int) -> bool {
    &&& 2 * a_pos.x - a_w < 2 * b_pos.x + b_w
    &&& 2 * a_pos.x + a_w > 2 * b_pos.x - b_w
    &&& 2 * a_pos.y - a_h < 2 * b_pos.y + b_h
    &&& 2 * a_pos.y + a_h > 2 * b_pos.y - b_h
}

/// Whether the bounding box of a player with transform `player` overlaps
/// that of an enemy with transform `enemy`.
pub open spec fn touches(player: Transform, enemy: Transform) -> bool {
    overlap(
        player.translation,
        box_edge(PLAYER_WIDTH as int, player.scale.x as int),
        box_edge(PLAYER_HEIGHT as int, player.scale.y as int),
        enemy.translation,
        box_edge(crate::enemies::ENEMY_WIDTH as int, enemy.scale.x as int),
        box_edge(crate::enemies::ENEMY_HEIGHT as int, enemy.scale.y as int),
    )
}

/// Whether the player touches at least one of the enemies.
pub open spec fn touches_any(player: Transform, enemies: Seq<Enemy>) -> bool {
    exists|i: int| 0 <= i < enemies.len() && touches(player, #[trigger] enemies[i].transform)
}

/// Horizontal velocity that the input asks for. Left wins over right.
pub open spec fn steer(input: Input) -> int {
    if input.left {
        -WALK_SPEED
    } else if input.right {
        WALK_SPEED as int
    } else {
        0
    }
}

/// Horizontal scale after the input: its sign follows the direction that
/// the input asks for, its magnitude stays.
pub open spec fn facing(scale_x: int, input: Input) -> int {
    if input.left {
        -abs(scale_x)
    } else if input.right {
        abs(scale_x)
    } else {
        scale_x
    }
}

/// How far from the centre of the window the player's centre may be, in
/// subpixels: half the window less half the scaled sprite.
pub open spec fn reach(win_size: WinSize, scale_x: int) -> int {
    win_size.w * (crate::units::SUBPIXELS / 2) - PLAYER_WIDTH * abs(scale_x) * (
    SUBPIXELS_PER_SCALED_PIXEL / 2)
}

/// `x` held below `limit` and then above `-limit`.
pub open spec fn clamp_to(x: int, limit: int) -> int {
    let low = if x < limit {
        x
    } else {
        limit
    };
    if low > -limit {
        low
    } else {
        -limit
    }
}

impl Player {
    /// The player as it enters the game: at the start position on the
    /// ground, facing right, at rest, standing, on the first frame.
    pub open spec fn spec_spawn(win_size: WinSize) -> Player {
        Player {
            transform: Transform {
                translation: Vec3 {
                    x: win_size.spec_left() as i64,
                    y: win_size.spec_bottom() as i64,
                    z: PLAYER_DEPTH,
                },
                scale: Vec3 { x: PLAYER_SCALE, y: PLAYER_SCALE, z: crate::units::SCALE_ONE },
            },
            velocity: Velocity::spec_zero(),
            in_air: AffectedByGravity(false),
            animation: idle_clip(),
            sprite: 0,
            timer: Timer::spec_new(PLAYER_FRAME_NANOS),
        }
    }

    /// One step of motion stays inside the range of the coordinates.
    pub open spec fn can_move(self) -> bool {
        &&& self.transform.scale_in_range()
        &&& fits(self.transform.translation.y + self.velocity.0.y)
        &&& fits(self.transform.translation.x - WALK_SPEED)
        &&& fits(self.transform.translation.x + WALK_SPEED)
    }

    /// The clip after the input: unchanged in the air; on the ground the
    /// walking clip where the input asks for motion, else the idle clip.
    pub open spec fn clip_after(self, input: Input) -> Animation {
        if self.in_air.0 {
            self.animation
        } else if steer(input) != 0 {
            walk_clip()
        } else {
            idle_clip()
        }
    }

    /// The player after one tick of steering and motion: it faces and
    /// moves as the input asks, its position advances by its velocity, and
    /// it is held inside the window.
    pub open spec fn moved(self, input: Input, win_size: WinSize) -> Player {
        let scale_x = facing(self.transform.scale.x as int, input);
        Player {
            transform: Transform {
                translation: Vec3 {
                    x: clamp_to(
                        self.transform.translation.x + steer(input),
                        reach(win_size, scale_x),
                    ) as i64,
                    y: (self.transform.translation.y + self.velocity.0.y) as i64,
                    z: self.transform.translation.z,
                },
                scale: Vec3 {
                    x: scale_x as i64,
                    y: self.transform.scale.y,
                    z: self.transform.scale.z,
                },
            },
            velocity: Velocity(Vec2 { x: steer(input) as i64, y: self.velocity.0.y }),
            animation: self.clip_after(input),
            ..self
        }
    }

    /// The player after the jump input was read: on the ground a jump
    /// input puts it in the air with the jump clip and the jump speed.
    pub open spec fn launched(self, input: Input) -> Player {
        if !self.in_air.0 && input.jump {
            Player {
                in_air: AffectedByGravity(true),
                animation: jump_clip(),
                velocity: Velocity(Vec2 { x: self.velocity.0.x, y: JUMP_SPEED }),
                ..self
            }
        } else {
            self
        }
    }

    /// The player after the landing test: below the ground line it is put
    /// on the line, at rest vertically and no longer in the air.
    pub open spec fn landed(self, win_size: WinSize) -> Player {
        if self.transform.translation.y < win_size.spec_bottom() {
            Player {
                transform: Transform {
                    translation: Vec3 {
                        x: self.transform.translation.x,
                        y: win_size.spec_bottom() as i64,
                        z: self.transform.translation.z,
                    },
                    scale: self.transform.scale,
                },
                velocity: Velocity(Vec2 { x: self.velocity.0.x, y: 0 }),
                in_air: AffectedByGravity(false),
                ..self
            }
        } else {
            self
        }
    }

    /// The player after one tick of the jump rule: the jump, then the
    /// landing test.
    pub open spec fn jumped(self, input: Input, win_size: WinSize) -> Player {
        self.launched(input).landed(win_size)
    }

    /// The player put back on the start position, at rest.
    pub open spec fn reset(self, win_size: WinSize) -> Player {
        Player {
            transform: Transform {
                translation: Vec3 {
                    x: win_size.spec_left() as i64,
                    y: win_size.spec_bottom() as i64,
                    z: PLAYER_DEPTH,
                },
                scale: self.transform.scale,
            },
            velocity: Velocity::spec_zero(),
            ..self
        }
    }

    /// The player after a tick of `delta` nanoseconds of its animation.
    pub open spec fn animated(self, delta: u64) -> Player {
        Player {
            sprite: crate::animation::frame_after(self.animation, self.timer, self.sprite, delta),
            timer: self.timer.after(delta),
            ..self
        }
    }

    /// Creates the player as it enters the game.
    pub fn spawn(win_size: &WinSize) -> (player: Player)
        requires
            win_size.wf(),
        ensures
            player == Player::spec_spawn(*win_size),
    {
        Player {
            transform: Transform {
                translation: Vec3 { x: win_size.left(), y: win_size.bottom(), z: PLAYER_DEPTH },
                scale: Vec3 { x: PLAYER_SCALE, y: PLAYER_SCALE, z: crate::units::SCALE_ONE },
            },
            velocity: Velocity::zero(),
            in_air: AffectedByGravity(false),
            animation: Animation { index: 0, size: 16 },
            sprite: 0,
            timer: Timer::new(PLAYER_FRAME_NANOS),
        }
    }
}

impl DeadPlayer {
    /// The dead player as it appears at `translation`: facing right, at
    /// rest, under gravity, on the first frame of the death clip.
    pub open spec fn spec_spawn_at(translation: Vec3) -> DeadPlayer {
        DeadPlayer {
            transform: Transform {
                translation,
                scale: Vec3 { x: PLAYER_SCALE, y: PLAYER_SCALE, z: crate::units::SCALE_ONE },
            },
            velocity: Velocity::spec_zero(),
            in_air: AffectedByGravity(true),
            animation: death_clip(),
            sprite: 0,
            timer: Timer::spec_new(DEAD_FRAME_NANOS),
        }
    }

    /// One step of motion stays inside the range of the coordinates.
    pub open spec fn can_move(self) -> bool {
        &&& fits(self.transform.translation.y + self.velocity.0.y)
        &&& fits(self.transform.translation.x + self.velocity.0.x)
    }

    /// The dead player after one tick of motion: its position advances by
    /// its velocity; below the ground line it is put on the line, at rest
    /// vertically and out of gravity's reach.
    pub open spec fn moved(self, win_size: WinSize) -> DeadPlayer {
        let x = (self.transform.translation.x + self.velocity.0.x) as i64;
        let y = self.transform.translation.y + self.velocity.0.y;
        if y < win_size.spec_bottom() {
            DeadPlayer {
                transform: Transform {
                    translation: Vec3 {
                        x,
                        y: win_size.spec_bottom() as i64,
                        z: self.transform.translation.z,
                    },
                    scale: self.transform.scale,
                },
                velocity: Velocity(Vec2 { x: self.velocity.0.x, y: 0 }),
                in_air: AffectedByGravity(false),
                ..self
            }
        } else {
            DeadPlayer {
                transform: Transform {
                    translation: Vec3 { x, y: y as i64, z: self.transform.translation.z },
                    scale: self.transform.scale,
                },
                ..self
            }
        }
    }

    /// Whether the death animation has reached its last frame.
    pub open spec fn finished(self) -> bool {
        self.animation.at_end(self.sprite)
    }

    /// The dead player after one tick of `delta` nanoseconds of its
    /// animation: unchanged once the animation has finished, else the
    /// frame timer advances and the frame with it where the timer fires.
    pub open spec fn animated(self, delta: u64) -> DeadPlayer {
        if self.finished() {
            self
        } else {
            DeadPlayer {
                sprite: crate::animation::frame_after(self.animation, self.timer, self.sprite, delta),
                timer: self.timer.after(delta),
                ..self
            }
        }
    }

    /// Creates the dead player at `translation`.
    pub fn spawn_at(translation: Vec3) -> (dead: DeadPlayer)
        ensures
            dead == DeadPlayer::spec_spawn_at(translation),
    {
        DeadPlayer {
            transform: Transform {
                translation,
                scale: Vec3 { x: PLAYER_SCALE, y: PLAYER_SCALE, z: crate::units::SCALE_ONE },
            },
            velocity: Velocity::zero(),
            in_air: AffectedByGravity(true),
            animation: Animation { index: 0, size: 30 },
            sprite: 0,
            timer: Timer::new(DEAD_FRAME_NANOS),
        }
    }
}

/// The player slot after `player_spawn`.
pub open spec fn spawned(win_size: WinSize) -> Option<Player> {
    Some(Player::spec_spawn(win_size))
}

/// Puts a fresh player into the slot, whatever the slot held.
pub fn player_spawn(win_size: &WinSize, query: &mut Option<Player>)
    requires
        win_size.wf(),
    ensures
        *final(query) == spawned(*win_size),
{
    *query = Some(Player::spawn(win_size));
}

/// The player slot after `player_movement`.
pub open spec fn after_movement(
    query: Option<Player>,
    input: Input,
    win_size: WinSize,
    alive: PlayerAlive,
) -> Option<Player> {
    match query {
        Some(player) => if alive.0 {
            Some(player.moved(input, win_size))
        } else {
            query
        },
        None => None,
    }
}

/// Steers and moves the live player for one tick. Without a player, or
/// while the player is not alive, nothing happens.
pub fn player_movement(
    keyboard_input: &Input,
    win_size: &WinSize,
    alive: &PlayerAlive,
    query: &mut Option<Player>,
)
    requires
        win_size.wf(),
        alive.0 ==> (*old(query) matches Some(player) ==> player.can_move()),
    ensures
        *final(query) == after_movement(*old(query), *keyboard_input, *win_size, *alive),
{
    match *query {
        Some(player) => {
            if !alive.0 {
                return ;
            }
            let mut player = player;
            let scale_x: i64 = player.transform.scale.x;
            let size_x: i64 = if scale_x < 0 {
                -scale_x
            } else {
                scale_x
            };
            if keyboard_input.left {
                player.transform.scale.x = -size_x;
                player.velocity.0.x = -WALK_SPEED;
            } else if keyboard_input.right {
                player.transform.scale.x = size_x;
                player.velocity.0.x = WALK_SPEED;
            } else {
                if !player.in_air.0 {
                    player.animation = Animation { index: 0, size: 16 };
                }
                player.velocity.0.x = 0;
            }
            if player.velocity.0.x != 0 && !player.in_air.0 {
                player.animation = Animation { index: 16, size: 20 };
            }
            player.transform.translation.y = player.transform.translation.y + player.velocity.0.y;
            player.transform.translation.x = player.transform.translation.x + player.velocity.0.x;

            let limit: i64 = win_size.w * (crate::units::SUBPIXELS / 2) - PLAYER_WIDTH * size_x * (
            SUBPIXELS_PER_SCALED_PIXEL / 2);
            if player.transform.translation.x > limit {
                player.transform.translation.x = limit;
            }
            if player.transform.translation.x < -limit {
                player.transform.translation.x = -limit;
            }
            *query = Some(player);
        },
        None => {},
    }
}

/// The player slot after `player_jump`.
pub open spec fn after_jump(
    query: Option<Player>,
    input: Input,
    win_size: WinSize,
    alive: PlayerAlive,
) -> Option<Player> {
    match query {
        Some(player) => if alive.0 {
            Some(player.jumped(input, win_size))
        } else {
            query
        },
        None => None,
    }
}

/// Starts a jump where the input asks for one and the player stands, and
/// lands the player where it has fallen below the ground line. Without a
/// player, or while the player is not alive, nothing happens.
pub fn player_jump(
    kb: &Input,
    win_size: &WinSize,
    alive: &PlayerAlive,
    query: &mut Option<Player>,
)
    requires
        win_size.wf(),
    ensures
        *final(query) == after_jump(*old(query), *kb, *win_size, *alive),
{
    match *query {
        Some(player) => {
            if !alive.0 {
                return ;
            }
            let mut player = player;
            if !player.in_air.0 && kb.jump {
                player.in_air = AffectedByGravity(true);
                player.animation = Animation { index: 36, size: 30 };
                player.velocity.0.y = JUMP_SPEED;
            }
            let ground: i64 = win_size.bottom();
            if player.transform.translation.y < ground {
                player.velocity.0.y = 0;
                player.transform.translation.y = ground;
                player.in_air = AffectedByGravity(false);
            }
            *query = Some(player);
        },
        None => {},
    }
}

/// Executable form of `touches`.
pub fn collide(player: &Transform, enemy: &Transform) -> (hit: bool)
    ensures
        hit == touches(*player, *enemy),
{
    let a_w: i128 = box_size(PLAYER_WIDTH, player.scale.x);
    let a_h: i128 = box_size(PLAYER_HEIGHT, player.scale.y);
    let b_w: i128 = box_size(crate::enemies::ENEMY_WIDTH, enemy.scale.x);
    let b_h: i128 = box_size(crate::enemies::ENEMY_HEIGHT, enemy.scale.y);
    let ax: i128 = 2 * (player.translation.x as i128);
    let ay: i128 = 2 * (player.translation.y as i128);
    let bx: i128 = 2 * (enemy.translation.x as i128);
    let by: i128 = 2 * (enemy.translation.y as i128);
    ax - a_w < bx + b_w && ax + a_w > bx - b_w && ay - a_h < by + b_h && ay + a_h > by - b_h
}

/// Executable form of `box_edge`, for a sprite edge of at most 1000
/// pixels.
pub fn box_size(pixels: i64, scale: i64) -> (edge: i128)
    requires
        0 <= pixels <= 1000,
    ensures
        edge == box_edge(pixels as int, scale as int),
        -MARGIN <= edge <= 0x1_0000_0000_0000_0000_0000,
{
    let size: i128 = if scale < 0 {
        -(scale as i128)
    } else {
        scale as i128
    };
    assert(0 <= pixels * size <= 1000 * 0x8000_0000_0000_0000) by (nonlinear_arith)
        requires
            0 <= pixels <= 1000,
            0 <= size <= 0x8000_0000_0000_0000,
    ;
    let scaled: i128 = (pixels as i128) * size;
    scaled * (SUBPIXELS_PER_SCALED_PIXEL as i128) - (MARGIN as i128)
}

/// Whether the live player has collided: there is a player, it is alive,
/// and it touches an enemy.
pub open spec fn collided(alive: PlayerAlive, player: Option<Player>, enemies: Seq<Enemy>) -> bool {
    &&& alive.0
    &&& player matches Some(p)
    &&& touches_any(p.transform, enemies)
}

/// The flag, the player slot and the dead player slot after
/// `player_check_collision`: on a collision the flag is cleared, the
/// player leaves its slot and a dead player appears where it was; else
/// nothing changes.
pub open spec fn after_collision(
    alive: PlayerAlive,
    player: Option<Player>,
    dead: Option<DeadPlayer>,
    enemies: Seq<Enemy>,
) -> (PlayerAlive, Option<Player>, Option<DeadPlayer>) {
    if collided(alive, player, enemies) {
        (
            PlayerAlive(false),
            None,
            Some(DeadPlayer::spec_spawn_at(player->Some_0.transform.translation)),
        )
    } else {
        (alive, player, dead)
    }
}

/// Tests the live player against every enemy. On a collision the player
/// dies: the flag is cleared, the player leaves its slot, and a dead player
/// appears where it was. However many enemies it touches, it dies once.
/// Without a player, or while the player is not alive, nothing happens.
/// Returns whether the player died.
pub fn player_check_collision(
    alive: &mut PlayerAlive,
    player_query: &mut Option<Player>,
    dead_query: &mut Option<DeadPlayer>,
    enemy_query: &Vec<Enemy>,
) -> (died: bool)
    ensures
        died == collided(*old(alive), *old(player_query), enemy_query@),
        (*final(alive), *final(player_query), *final(dead_query)) == after_collision(
            *old(alive),
            *old(player_query),
            *old(dead_query),
            enemy_query@,
        ),
{
    match *player_query {
        Some(player) => {
            if !alive.0 {
                return false;
            }
            let mut hit: bool = false;
            let mut i: usize = 0;
            while i < enemy_query.len()
                invariant
                    i <= enemy_query.len(),
                    hit ==> touches_any(player.transform, enemy_query@),
                    !hit ==> forall|j: int|
                        0 <= j < i ==> !touches(
                            player.transform,
                            #[trigger] enemy_query@[j].transform,
                        ),
                decreases enemy_query.len() - i,
            {
                if collide(&player.transform, &enemy_query[i].transform) {
                    assert(touches(player.transform, enemy_query@[i as int].transform));
                    hit = true;
                }
                i += 1;
            }
            if hit {
                alive.0 = false;
                *player_query = None;
                *dead_query = Some(DeadPlayer::spawn_at(player.transform.translation));
            }
            hit
        },
        None => false,
    }
}

/// The player slot after `reset_player_pos`.
pub open spec fn after_reset(query: Option<Player>, win_size: WinSize) -> Option<Player> {
    match query {
        Some(player) => Some(player.reset(win_size)),
        None => None,
    }
}

/// Puts the player back on the start position, at rest. Without a player
/// nothing happens.
pub fn reset_player_pos(win_size: &WinSize, player_query: &mut Option<Player>)
    requires
        win_size.wf(),
    ensures
        *final(player_query) == after_reset(*old(player_query), *win_size),
{
    match *player_query {
        Some(player) => {
            let mut player = player;
            player.transform.translation = Vec3 {
                x: win_size.left(),
                y: win_size.bottom(),
                z: PLAYER_DEPTH,
            };
            player.velocity = Velocity::zero();
            *player_query = Some(player);
        },
        None => {},
    }
}

/// The dead player slot after `player_dead_movement`.
pub open spec fn after_dead_movement(query: Option<DeadPlayer>, win_size: WinSize) -> Option<
    DeadPlayer,
> {
    match query {
        Some(dead) => Some(dead.moved(win_size)),
        None => None,
    }
}

/// Moves the dead player for one tick and lands it where it has fallen
/// below the ground line. Without a dead player nothing happens.
pub fn player_dead_movement(win_size: &WinSize, player_query: &mut Option<DeadPlayer>)
    requires
        win_size.wf(),
        *old(player_query) matches Some(dead) ==> dead.can_move(),
    ensures
        *final(player_query) == after_dead_movement(*old(player_query), *win_size),
{
    match *player_query {
        Some(dead) => {
            let mut dead = dead;
            dead.transform.translation.y = dead.transform.translation.y + dead.velocity.0.y;
            dead.transform.translation.x = dead.transform.translation.x + dead.velocity.0.x;
            let ground: i64 = win_size.bottom();
            if dead.transform.translation.y < ground {
                dead.velocity.0.y = 0;
                dead.transform.translation.y = ground;
                dead.in_air = AffectedByGravity(false);
            }
            *player_query = Some(dead);
        },
        None => {},
    }
}

/// Whether `animate_dead_player` asks for the dead state: there is a dead
/// player whose animation has finished.
pub open spec fn death_complete(query: Option<DeadPlayer>) -> bool {
    query matches Some(dead) && dead.finished()
}

/// The dead player slot after `animate_dead_player`.
pub open spec fn after_dead_animation(query: Option<DeadPlayer>, delta: u64) -> Option<DeadPlayer> {
    match query {
        Some(dead) => Some(dead.animated(delta)),
        None => None,
    }
}

/// Plays the death animation for one tick of `delta` nanoseconds. Once the
/// animation stands on its last frame, every tick asks the state machine
/// for the dead state instead; a request that the machine cannot follow
/// changes nothing. Without a dead player nothing happens.
pub fn animate_dead_player(game_state: &mut GameState, delta: u64, query: &mut Option<DeadPlayer>)
    requires
        *old(query) matches Some(dead) ==> dead.animation.wf(),
    ensures
        *final(query) == after_dead_animation(*old(query), delta),
        *final(game_state) == if death_complete(*old(query)) {
            old(game_state).after_request(GameState::Dead)
        } else {
            *old(game_state)
        },
{
    match *query {
        Some(dead) => {
            if dead.animation.is_at_end(dead.sprite) {
                game_state.set(GameState::Dead);
                return ;
            }
            let mut dead = dead;
            if dead.timer.tick(delta) {
                dead.sprite = dead.animation.advance(dead.sprite);
            }
            *query = Some(dead);
        },
        None => {},
    }
}

/// Removes the dead player and sets the player alive again. Without a
/// dead player nothing happens.
pub fn player_dead_cleanup(alive: &mut PlayerAlive, query: &mut Option<DeadPlayer>)
    ensures
        *final(query) == None::<DeadPlayer>,
        *final(alive) == if old(query).is_some() {
            PlayerAlive(true)
        } else {
            *old(alive)
        },
{
    if query.is_some() {
        alive.0 = true;
        *query = None;
    }
}

/// The player dies once: a collision takes the flag from true to false,
/// empties the player slot and fills the dead player slot, however many
/// enemies are touched; without a collision nothing changes; and a second
/// test against the same enemies finds no collision and changes nothing.
pub proof fn lemma_dies_once(
    alive: PlayerAlive,
    player: Option<Player>,
    dead: Option<DeadPlayer>,
    enemies: Seq<Enemy>,
)
    ensures
        ({
            let (alive1, player1, dead1) = after_collision(alive, player, dead, enemies);
            &&& collided(alive, player, enemies) ==> alive.0 && !alive1.0 && player1 is None
                && dead1 is Some
            &&& !collided(alive, player, enemies) ==> alive1 == alive && player1 == player && dead1
                == dead
            &&& !collided(alive1, player1, enemies)
            &&& after_collision(alive1, player1, dead1, enemies) == (alive1, player1, dead1)
        }),
{
}

} // verus!
