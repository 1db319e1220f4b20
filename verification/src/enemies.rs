use rand::Rng;
use vstd::prelude::*;
use crate::animation::Animation;
use crate::physics::Velocity;
use crate::player::PlayerAlive;
use crate::timer::Timer;
use crate::units::{fits, Transform, Vec2, Vec3};

verus! {

/// Width of an enemy's sprite, in pixels at scale one.
pub const ENEMY_WIDTH: i64 = 273;

/// Height of an enemy's sprite, in pixels at scale one.
pub const ENEMY_HEIGHT: i64 = 282;

/// Scale at which an enemy is drawn, in hundredths.
pub const ENEMY_SCALE: i64 = 20;

/// Depth at which an enemy is drawn.
pub const ENEMY_DEPTH: i64 = 15;

/// Where an enemy appears: the right edge of the play area, 500 pixels
/// right of the centre, in subpixels.
pub const SPAWN_X: i64 = 1_800_000;

/// Height of the lower lane: 100 pixels below the centre, in subpixels.
pub const LANE_BASE: i64 = -360_000;

/// Distance between the two lanes: 135 pixels, in subpixels.
pub const LANE_STEP: i64 = 486_000;

/// Where an enemy leaves: 550 pixels left of the centre, in subpixels.
pub const DESPAWN_X: i64 = -1_980_000;

/// Horizontal velocity of an enemy, in subpixels per tick: 170 pixels per
/// second leftward.
pub const ENEMY_SPEED: i64 = -10_200;

/// Largest bobbing offset of a tick, in subpixels: half a pixel. The
/// offset of a tick is this amplitude times the sine of `BOB_FREQUENCY`
/// times the seconds since the start.
pub const BOB_AMPLITUDE: i64 = 1_800;

/// Angular frequency of the bobbing, in radians per second.
pub const BOB_FREQUENCY: i64 = 2;

/// Period of an enemy's frame timer, in nanoseconds.
pub const ENEMY_FRAME_NANOS: u64 = 50_000_000;

/// Units of the spawn timer in one nanosecond. The difficulty falls by
/// 0.05 s in a second, which is one unit in a nanosecond.
pub const SPAWN_UNITS: u64 = 20;

/// The difficulty at the start of a round: 3 s, in units of the spawn
/// timer.
pub const INITIAL_DIFFICULTY: u64 = 60_000_000_000;

/// The first spawn interval of a round: 2.5 s, in units of the spawn
/// timer.
pub const INITIAL_INTERVAL: u64 = 50_000_000_000;

/// The lane draw is made from this many values; the upper lane is taken on
/// the last of them.
pub const LANE_DRAWS: u64 = 3;

/// The countdown to the next enemy and the difficulty, which is what the
/// next interval is lengthened by. Both are counted in units of one
/// twentieth of a nanosecond.
#[derive(Clone, Copy, Debug, PartialEq, Eq, Structural)]
pub struct SpawnTimer {
    pub timer: Timer,
    pub difficulty: u64,
}

/// What the spawner is set to: the bounds of the random part of the spawn
/// interval, in nanoseconds, and the horizontal velocity of an enemy, in
/// subpixels per tick.
#[derive(Clone, Copy, Debug, PartialEq, Eq, Structural)]
pub struct EnemySpawnSettings {
    pub min_time: u64,
    pub max_time: u64,
    pub speed: i64,
}

/// An enemy.
#[derive(Clone, Copy, Debug, PartialEq, Eq, Structural)]
pub struct Enemy {
    pub transform: Transform,
    pub velocity: Velocity,
    pub animation: Animation,
    /// The frame of the sprite sheet that is shown.
    pub sprite: u32,
    pub timer: Timer,
}

/// The clip of an enemy.
pub open spec fn enemy_clip() -> Animation {
    Animation { index: 0, size: 13 }
}

/// The lane that a lane draw selects: the upper lane on the last value,
/// the lower lane on the others.
pub open spec fn lane_of(draw: u64) -> int {
    draw as int / 2
}

impl EnemySpawnSettings {
    /// The settings of the game: between 1.5 s and 4 s, 170 pixels per
    /// second leftward.
    pub open spec fn spec_new() -> EnemySpawnSettings {
        EnemySpawnSettings { min_time: 1_500_000_000, max_time: 4_000_000_000, speed: ENEMY_SPEED }
    }

    /// The bounds enclose at least one value.
    pub open spec fn wf(self) -> bool {
        self.min_time < self.max_time
    }

    /// Returns the settings of the game.
    pub fn new() -> (settings: EnemySpawnSettings)
        ensures
            settings == EnemySpawnSettings::spec_new(),
            settings.wf(),
    {
        EnemySpawnSettings { min_time: 1_500_000_000, max_time: 4_000_000_000, speed: ENEMY_SPEED }
    }
}

impl SpawnTimer {
    /// The spawn timer at the start of a round: the first interval on the
    /// countdown with no time elapsed, and the initial difficulty.
    pub open spec fn spec_new() -> SpawnTimer {
        SpawnTimer { timer: Timer::spec_new(INITIAL_INTERVAL), difficulty: INITIAL_DIFFICULTY }
    }

    /// The interval that follows a draw of `drawn` nanoseconds, in units of
    /// the spawn timer: the draw plus the difficulty.
    pub open spec fn interval(self, drawn: u64) -> int {
        drawn * SPAWN_UNITS + self.difficulty
    }

    /// Whether `delta` nanoseconds bring the countdown to an end.
    pub open spec fn due(self, delta: u64) -> bool {
        self.timer.elapsed + delta * SPAWN_UNITS >= self.timer.duration
    }

    /// The spawn timer after `delta` nanoseconds that do not bring the
    /// countdown to an end.
    pub open spec fn waited(self, delta: u64) -> SpawnTimer {
        SpawnTimer {
            timer: Timer {
                duration: self.timer.duration,
                elapsed: (self.timer.elapsed + delta * SPAWN_UNITS) as u64,
            },
            difficulty: self.difficulty,
        }
    }

    /// The spawn timer after a spawn for which `drawn` nanoseconds were
    /// drawn: a fresh countdown of the interval that follows the draw.
    pub open spec fn rearmed(self, drawn: u64) -> SpawnTimer {
        SpawnTimer {
            timer: Timer::spec_new(self.interval(drawn) as u64),
            difficulty: self.difficulty,
        }
    }

    /// The difficulty after `delta` nanoseconds: one unit less for each
    /// nanosecond, and never below zero.
    pub open spec fn decayed(self, delta: u64) -> SpawnTimer {
        SpawnTimer {
            timer: self.timer,
            difficulty: if delta <= self.difficulty {
                (self.difficulty - delta) as u64
            } else {
                0
            },
        }
    }

    /// Returns the spawn timer at the start of a round.
    pub fn new() -> (spawn_timer: SpawnTimer)
        ensures
            spawn_timer == SpawnTimer::spec_new(),
    {
        SpawnTimer { timer: Timer::new(INITIAL_INTERVAL), difficulty: INITIAL_DIFFICULTY }
    }
}

impl Enemy {
    /// The enemy that appears in `lane` (0 the lower lane, 1 the upper)
    /// with the horizontal velocity `speed`: at the right edge, at the
    /// height of its lane, on the first frame of its clip.
    pub open spec fn spec_spawn(lane: int, speed: i64) -> Enemy {
        Enemy {
            transform: Transform {
                translation: Vec3 { x: SPAWN_X, y: (LANE_BASE + LANE_STEP * lane) as i64, z: ENEMY_DEPTH },
                scale: Vec3 { x: ENEMY_SCALE, y: ENEMY_SCALE, z: crate::units::SCALE_ONE },
            },
            velocity: Velocity(Vec2 { x: speed, y: 0 }),
            animation: enemy_clip(),
            sprite: 0,
            timer: Timer::spec_new(ENEMY_FRAME_NANOS),
        }
    }

    /// One step of motion with the vertical offset `bob` stays inside the
    /// range of the coordinates.
    pub open spec fn can_move(self, bob: i64) -> bool {
        &&& fits(self.transform.translation.x + self.velocity.0.x)
        &&& fits(self.transform.translation.y + bob)
    }

    /// The enemy after one tick of motion: it advances by its horizontal
    /// velocity, and `bob` is added to its height.
    pub open spec fn moved(self, bob: i64) -> Enemy {
        Enemy {
            transform: Transform {
                translation: Vec3 {
                    x: (self.transform.translation.x + self.velocity.0.x) as i64,
                    y: (self.transform.translation.y + bob) as i64,
                    z: self.transform.translation.z,
                },
                scale: self.transform.scale,
            },
            ..self
        }
    }

    /// Whether the enemy has reached the left edge and is to leave.
    pub open spec fn offscreen(self) -> bool {
        self.transform.translation.x <= DESPAWN_X
    }

    /// The enemy after a tick of `delta` nanoseconds of its animation.
    pub open spec fn animated(self, delta: u64) -> Enemy {
        Enemy {
            sprite: crate::animation::frame_after(self.animation, self.timer, self.sprite, delta),
            timer: self.timer.after(delta),
            ..self
        }
    }

    /// Creates the enemy that appears in `lane` with the horizontal
    /// velocity `speed`.
    pub fn spawn(lane: u64, speed: i64) -> (enemy: Enemy)
        requires
            lane <= 1,
        ensures
            enemy == Enemy::spec_spawn(lane as int, speed),
    {
        let y: i64 = if lane == 0 {
            LANE_BASE
        } else {
            LANE_BASE + LANE_STEP
        };
        Enemy {
            transform: Transform {
                translation: Vec3 { x: SPAWN_X, y, z: ENEMY_DEPTH },
                scale: Vec3 { x: ENEMY_SCALE, y: ENEMY_SCALE, z: crate::units::SCALE_ONE },
            },
            velocity: Velocity(Vec2 { x: speed, y: 0 }),
            animation: Animation { index: 0, size: 13 },
            sprite: 0,
            timer: Timer::new(ENEMY_FRAME_NANOS),
        }
    }
}

/// Draws a number from `low..high` with the thread's generator of the
/// `rand` crate (`thread_rng().gen_range(low..high)`). The call panics on
/// an empty range, which the precondition excludes. What is claimed of the
/// result is that it lies in the range, and nothing else: two draws may
/// differ. The generator is seeded by the system on its first use and
/// panics if the system cannot seed it.
#[verifier::external_body]
fn draw(low: u64, high: u64) -> (drawn: u64)
    requires
        low < high,
    ensures
        low <= drawn < high,
{
    rand::thread_rng().gen_range(low..high)
}

/// The countdown can be rearmed after any draw below `max_time`: the
/// longest interval fits the timer.
pub open spec fn can_rearm(settings: EnemySpawnSettings, spawn_timer: SpawnTimer) -> bool {
    settings.max_time * SPAWN_UNITS + spawn_timer.difficulty <= u64::MAX
}

/// What a spawn with the draws `drawn` (nanoseconds, for the interval) and
/// `lane_draw` (for the lane) leaves behind: the countdown rearmed with
/// the drawn time plus the difficulty, and one more enemy, at the end of
/// the list.
pub open spec fn after_spawn(
    settings: EnemySpawnSettings,
    spawn_timer: SpawnTimer,
    enemies: Seq<Enemy>,
    drawn: u64,
    lane_draw: u64,
) -> (SpawnTimer, Seq<Enemy>) {
    (spawn_timer.rearmed(drawn), enemies.push(Enemy::spec_spawn(lane_of(lane_draw), settings.speed)))
}

/// Carries out a spawn for which the two draws have been made.
pub fn spawn_with(
    settings: &EnemySpawnSettings,
    spawn_timer: &mut SpawnTimer,
    enemies: &mut Vec<Enemy>,
    drawn: u64,
    lane_draw: u64,
)
    requires
        drawn < settings.max_time,
        lane_draw < LANE_DRAWS,
        can_rearm(*settings, *old(spawn_timer)),
    ensures
        (*final(spawn_timer), final(enemies)@) == after_spawn(
            *settings,
            *old(spawn_timer),
            old(enemies)@,
            drawn,
            lane_draw,
        ),
        final(spawn_timer).timer.duration == drawn * SPAWN_UNITS + old(spawn_timer).difficulty,
{
    spawn_timer.timer = Timer::new(drawn * SPAWN_UNITS + spawn_timer.difficulty);
    enemies.push(Enemy::spawn(lane_draw / 2, settings.speed));
}

/// The two numbers drawn for one spawn: `time`, in nanoseconds, for the
/// spawn interval, and `lane` for the lane.
#[derive(Clone, Copy, Debug, PartialEq, Eq, Structural)]
pub struct SpawnDraws {
    pub time: u64,
    pub lane: u64,
}

/// What `enemy_spawn` leaves behind after `delta` nanoseconds, given the
/// draws that it made: nothing changes while the player is not alive;
/// else the countdown advances, and where it ends, the spawn with those
/// draws takes place.
pub open spec fn after_enemy_spawn(
    settings: EnemySpawnSettings,
    spawn_timer: SpawnTimer,
    enemies: Seq<Enemy>,
    alive: PlayerAlive,
    delta: u64,
    draws: Option<SpawnDraws>,
) -> (SpawnTimer, Seq<Enemy>) {
    if !alive.0 {
        (spawn_timer, enemies)
    } else if !spawn_timer.due(delta) {
        (spawn_timer.waited(delta), enemies)
    } else {
        match draws {
            Some(drawn) => after_spawn(settings, spawn_timer, enemies, drawn.time, drawn.lane),
            None => (spawn_timer, enemies),
        }
    }
}

/// What holds of the draws that `enemy_spawn` returns: draws are made
/// exactly where the player is alive and the countdown ends, the time
/// lies in `min_time..max_time`, and the lane draw below `LANE_DRAWS`.
pub open spec fn draws_made(
    settings: EnemySpawnSettings,
    spawn_timer: SpawnTimer,
    alive: PlayerAlive,
    delta: u64,
    draws: Option<SpawnDraws>,
) -> bool {
    match draws {
        Some(drawn) => {
            &&& alive.0
            &&& spawn_timer.due(delta)
            &&& settings.min_time <= drawn.time < settings.max_time
            &&& drawn.lane < LANE_DRAWS
        },
        None => !(alive.0 && spawn_timer.due(delta)),
    }
}

/// Counts the spawn countdown down by `delta` nanoseconds and, where it
/// ends, spawns one enemy and rearms the countdown with a time drawn from
/// `min_time..max_time` plus the difficulty. While the player is not alive
/// nothing happens. Returns the draws of the spawn, where one took place.
///
/// The draws are random: the contract states what holds of every draw,
/// and the outcome for the draws that were made.
pub fn enemy_spawn(
    enemy_settings: &EnemySpawnSettings,
    delta: u64,
    spawn_timer: &mut SpawnTimer,
    enemies: &mut Vec<Enemy>,
    player_alive: &PlayerAlive,
) -> (draws: Option<SpawnDraws>)
    requires
        enemy_settings.wf(),
        can_rearm(*enemy_settings, *old(spawn_timer)),
    ensures
        draws_made(*enemy_settings, *old(spawn_timer), *player_alive, delta, draws),
        (*final(spawn_timer), final(enemies)@) == after_enemy_spawn(
            *enemy_settings,
            *old(spawn_timer),
            old(enemies)@,
            *player_alive,
            delta,
            draws,
        ),
{
    if !player_alive.0 {
        return None;
    }
    let scaled: u64 = if delta > u64::MAX / SPAWN_UNITS {
        u64::MAX
    } else {
        delta * SPAWN_UNITS
    };
    if !spawn_timer.timer.tick(scaled) {
        return None;
    }
    let time: u64 = draw(enemy_settings.min_time, enemy_settings.max_time);
    let lane: u64 = draw(0, LANE_DRAWS);
    let ghost ticked = *spawn_timer;
    spawn_with(enemy_settings, spawn_timer, enemies, time, lane);
    proof {
        assert(ticked.rearmed(time) == old(spawn_timer).rearmed(time));
    }
    Some(SpawnDraws { time, lane })
}

/// The enemies after one tick of motion with the vertical offset `bob`.
pub open spec fn after_enemies_movement(enemies: Seq<Enemy>, bob: i64) -> Seq<Enemy> {
    enemies.map_values(|enemy: Enemy| enemy.moved(bob))
}

/// Moves every enemy for one tick: each advances by its horizontal
/// velocity, and `bob`, the bobbing offset of this tick in subpixels, is
/// added to the height of each.
pub fn enemies_movement(bob: i64, query: &mut Vec<Enemy>)
    requires
        forall|i: int| 0 <= i < old(query)@.len() ==> (#[trigger] old(query)@[i]).can_move(bob),
    ensures
        final(query)@ == after_enemies_movement(old(query)@, bob),
{
    let mut i: usize = 0;
    while i < query.len()
        invariant
            i <= query@.len(),
            query@.len() == old(query)@.len(),
            forall|j: int| 0 <= j < i ==> query@[j] == (#[trigger] old(query)@[j]).moved(bob),
            forall|j: int| i <= j < query@.len() ==> query@[j] == old(query)@[j],
            forall|j: int| 0 <= j < old(query)@.len() ==> (#[trigger] old(query)@[j]).can_move(bob),
        decreases query@.len() - i,
    {
        let mut enemy: Enemy = query[i];
        enemy.transform.translation.x = enemy.transform.translation.x + enemy.velocity.0.x;
        enemy.transform.translation.y = enemy.transform.translation.y + bob;
        query.set(i, enemy);
        i += 1;
    }
    assert(query@ =~= after_enemies_movement(old(query)@, bob));
}

/// The enemies that stay when those at the left edge leave, in their
/// order.
pub open spec fn after_enemies_offscreen(enemies: Seq<Enemy>) -> Seq<Enemy> {
    enemies.filter(|enemy: Enemy| !enemy.offscreen())
}

/// Removes every enemy that has reached the left edge, and no other.
pub fn enemies_offscreen(enemy_query: &mut Vec<Enemy>)
    ensures
        final(enemy_query)@ == after_enemies_offscreen(old(enemy_query)@),
{
    let mut kept: Vec<Enemy> = Vec::new();
    let mut i: usize = 0;
    let ghost stays = |enemy: Enemy| !enemy.offscreen();
    proof {
        assert(enemy_query@.take(0) =~= Seq::<Enemy>::empty());
    }
    while i < enemy_query.len()
        invariant
            i <= enemy_query@.len(),
            enemy_query@ == old(enemy_query)@,
            stays == |enemy: Enemy| !enemy.offscreen(),
            kept@ == enemy_query@.take(i as int).filter(stays),
        decreases enemy_query@.len() - i,
    {
        let enemy: Enemy = enemy_query[i];
        proof {
            assert(enemy_query@.take(i + 1) =~= enemy_query@.take(i as int).push(enemy));
            enemy_query@.take(i as int).lemma_filter_push(enemy, stays);
        }
        if enemy.transform.translation.x > DESPAWN_X {
            kept.push(enemy);
        }
        i += 1;
    }
    proof {
        assert(enemy_query@.take(i as int) =~= enemy_query@);
    }
    *enemy_query = kept;
}

/// Lets the difficulty fall by what `delta` nanoseconds take from it.
pub fn difficulty_setter(delta: u64, spawn_timer: &mut SpawnTimer)
    ensures
        *final(spawn_timer) == old(spawn_timer).decayed(delta),
        final(spawn_timer).difficulty <= old(spawn_timer).difficulty,
        delta > 0 && old(spawn_timer).difficulty > 0 ==> final(spawn_timer).difficulty < old(
            spawn_timer,
        ).difficulty,
{
    spawn_timer.difficulty = spawn_timer.difficulty.saturating_sub(delta);
}

/// Sets the spawn timer to what it is at the start of a round.
pub fn reset_spawn_timer(spawn_timer: &mut SpawnTimer)
    ensures
        *final(spawn_timer) == SpawnTimer::spec_new(),
        final(spawn_timer).difficulty == INITIAL_DIFFICULTY,
{
    spawn_timer.difficulty = INITIAL_DIFFICULTY;
    spawn_timer.timer = Timer::new(INITIAL_INTERVAL);
}

/// Removes every enemy, wherever it is.
pub fn enemies_cleanup(enemy_query: &mut Vec<Enemy>)
    ensures
        final(enemy_query)@ == Seq::<Enemy>::empty(),
{
    enemy_query.clear();
}

/// An enemy leaves at the left edge exactly where it has reached the
/// edge: an enemy is among those that stay exactly where it was there
/// before and has not reached the edge; and where no enemy has reached the
/// edge, the enemies stay as they are.
pub proof fn lemma_offscreen_removes_exactly(enemies: Seq<Enemy>)
    ensures
        forall|enemy: Enemy| #[trigger]
            after_enemies_offscreen(enemies).contains(enemy) <==> enemies.contains(enemy)
                && !enemy.offscreen(),
        forall|i: int|
            0 <= i < after_enemies_offscreen(enemies).len() ==> !(
            #[trigger] after_enemies_offscreen(enemies)[i]).offscreen(),
        after_enemies_offscreen(enemies).len() <= enemies.len(),
        (forall|i: int| 0 <= i < enemies.len() ==> !(#[trigger] enemies[i]).offscreen())
            ==> after_enemies_offscreen(enemies) == enemies,
    decreases enemies.len(),
{
    let stays = |enemy: Enemy| !enemy.offscreen();
    let kept = enemies.filter(stays);
    assert(kept == after_enemies_offscreen(enemies));
    reveal(Seq::filter);
    if enemies.len() > 0 {
        let rest = enemies.drop_last();
        let last = enemies.last();
        lemma_offscreen_removes_exactly(rest);
        let kept_rest = rest.filter(stays);
        assert(kept_rest == after_enemies_offscreen(rest));
        assert(enemies =~= rest.push(last));
        assert forall|enemy: Enemy| #[trigger]
            kept.contains(enemy) <==> enemies.contains(enemy) && !enemy.offscreen() by {
            if kept.contains(enemy) {
                let i = choose|i: int| 0 <= i < kept.len() && kept[i] == enemy;
                if stays(last) && i == kept.len() - 1 {
                    assert(enemies[enemies.len() - 1] == enemy);
                } else {
                    assert(kept_rest[i] == enemy);
                    assert(kept_rest.contains(enemy));
                    let j = choose|j: int| 0 <= j < rest.len() && rest[j] == enemy;
                    assert(enemies[j] == enemy);
                }
            }
            if enemies.contains(enemy) && !enemy.offscreen() {
                let j = choose|j: int| 0 <= j < enemies.len() && enemies[j] == enemy;
                if j == enemies.len() - 1 {
                    assert(kept[kept.len() - 1] == enemy);
                } else {
                    assert(rest[j] == enemy);
                    assert(rest.contains(enemy));
                    assert(kept_rest.contains(enemy));
                    let i = choose|i: int| 0 <= i < kept_rest.len() && kept_rest[i] == enemy;
                    assert(kept[i] == enemy);
                }
            }
        }
        assert forall|i: int| 0 <= i < kept.len() implies !(#[trigger] kept[i]).offscreen() by {
            if stays(last) && i == kept.len() - 1 {
            } else {
                assert(kept[i] == kept_rest[i]);
            }
        }
        if forall|i: int| 0 <= i < enemies.len() ==> !(#[trigger] enemies[i]).offscreen() {
            assert forall|i: int| 0 <= i < rest.len() implies !(#[trigger] rest[i]).offscreen() by {
                assert(rest[i] == enemies[i]);
            }
            assert(stays(enemies[enemies.len() - 1]));
            assert(kept =~= enemies);
        }
    } else {
        assert(kept =~= enemies);
    }
}

/// The interval after a spawn is the drawn time plus the difficulty: with
/// a draw from `min_time..max_time`, the countdown is rearmed with no time
/// elapsed and a duration of the draw, in units of the spawn timer, plus
/// the difficulty, which the spawn leaves as it is.
pub proof fn lemma_spawn_interval(
    settings: EnemySpawnSettings,
    spawn_timer: SpawnTimer,
    enemies: Seq<Enemy>,
    drawn: u64,
    lane_draw: u64,
)
    requires
        can_rearm(settings, spawn_timer),
        settings.min_time <= drawn < settings.max_time,
    ensures
        ({
            let rearmed = after_spawn(settings, spawn_timer, enemies, drawn, lane_draw).0;
            &&& rearmed.timer.duration == drawn * SPAWN_UNITS + spawn_timer.difficulty
            &&& rearmed.timer.elapsed == 0
            &&& rearmed.difficulty == spawn_timer.difficulty
            &&& settings.min_time * SPAWN_UNITS + spawn_timer.difficulty <= rearmed.timer.duration
                < settings.max_time * SPAWN_UNITS + spawn_timer.difficulty
        }),
        SpawnTimer::spec_new().difficulty == INITIAL_DIFFICULTY,
{
}

/// The difficulty falls by one unit in a nanosecond and stops at zero:
/// after `a` nanoseconds it is what `a` leaves of it, never more than
/// before, less than before where time has passed and it was not zero,
/// and the decay over `a` and then `b` is the decay over their sum.
pub proof fn lemma_difficulty_decay(spawn_timer: SpawnTimer, a: u64, b: u64)
    requires
        a + b <= u64::MAX,
    ensures
        spawn_timer.decayed(a).difficulty == if spawn_timer.difficulty >= a {
            spawn_timer.difficulty - a
        } else {
            0
        },
        0 <= spawn_timer.decayed(a).difficulty <= spawn_timer.difficulty,
        a > 0 && spawn_timer.difficulty > 0 ==> spawn_timer.decayed(a).difficulty
            < spawn_timer.difficulty,
        spawn_timer.decayed(a).decayed(b) == spawn_timer.decayed((a + b) as u64),
        a >= spawn_timer.difficulty ==> spawn_timer.decayed(a).difficulty == 0,
{
}

} // verus!
