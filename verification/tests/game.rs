use surviver::animation::animate_looping_sprites;
use surviver::enemies::{Enemy, EnemySpawnSettings, SpawnTimer, DESPAWN_X};
use surviver::game::Game;
use surviver::physics::{AffectedByGravity, Gravity, Velocity};
use surviver::player::{DeadPlayer, Player, PlayerAlive};
use surviver::score::{MenuText, Score};
use surviver::timer::Timer;
use surviver::{GameState, Input, Vec2, Vec3, WinSize};

const WIN: WinSize = WinSize { w: 1000, h: 555 };
const GROUND: i64 = -423_000;
const LEFT: i64 = -1_314_000;
const TICK: u64 = 16_666_667;

fn idle() -> Input {
    Input { left: false, right: false, jump: false, confirm: false, retry: false }
}

fn confirm() -> Input {
    Input { confirm: true, ..idle() }
}

fn retry() -> Input {
    Input { retry: true, ..idle() }
}

fn enemy_at(x: i64, y: i64) -> Enemy {
    let mut enemy = Enemy::spawn(0, -10_200);
    enemy.transform.translation.x = x;
    enemy.transform.translation.y = y;
    enemy
}

fn playing() -> Game {
    let mut game = Game::new(WIN);
    game.tick(&confirm(), 0, 0);
    game
}

fn well_formed(game: &Game) -> bool {
    game.alive.0 == game.player.is_some()
        && game.alive.0 == game.dead_player.is_none()
        && (game.state != GameState::Dead || !game.alive.0)
        && (game.state != GameState::MainMenu || (game.alive.0 && game.enemies.is_empty()))
        && (game.state == GameState::MainMenu) == game.menu_text.is_some()
        && (game.state == GameState::MainMenu) == game.score.is_none()
}

#[test]
fn game_starts_in_the_menu() {
    let game = Game::new(WIN);
    assert_eq!(game.state, GameState::MainMenu);
    assert_eq!(game.win_size, WIN);
    assert_eq!(game.gravity, Gravity(1125));
    assert_eq!(game.enemy_settings, EnemySpawnSettings::new());
    assert_eq!(game.alive, PlayerAlive(true));
    assert_eq!(game.player, Some(Player::spawn(&WIN)));
    assert_eq!(game.dead_player, None);
    assert!(game.enemies.is_empty());
    assert_eq!(game.spawn_timer, SpawnTimer::new());
    assert_eq!(game.score, None);
    assert_eq!(game.menu_text, Some(MenuText));
    assert!(well_formed(&game));
}

#[test]
fn scenario_from_the_menu_to_the_first_enemy() {
    let mut game = Game::new(WIN);
    assert_eq!(game.tick(&confirm(), TICK, 0), None);
    assert_eq!(game.state, GameState::Playing);
    assert_eq!(game.menu_text, None);
    assert_eq!(game.score.unwrap().text(), "00000");
    assert_eq!(
        game.player.unwrap().transform.translation,
        Vec3 { x: LEFT, y: GROUND, z: 10 }
    );
    assert!(game.enemies.is_empty());
    assert!(well_formed(&game));

    // The countdown stands at 2.5 s less one tick; the rest of it brings one enemy.
    let draws = game.tick(&idle(), 2_500_000_000 - TICK, 0).unwrap();
    assert_eq!(game.enemies.len(), 1);
    let enemy = game.enemies[0];
    assert_eq!(enemy.transform.translation.x, 1_800_000 - 10_200);
    assert!(enemy.transform.translation.y == -360_000 || enemy.transform.translation.y == 126_000);
    assert_eq!(enemy.transform.translation.y, -360_000 + 486_000 * (draws.lane / 2) as i64);
    assert!(1_500_000_000 <= draws.time && draws.time < 4_000_000_000);
    assert_eq!(game.spawn_timer.difficulty, 60_000_000_000 - 2_500_000_000);
    assert_eq!(game.spawn_timer.timer.elapsed, 0);
    assert_eq!(
        game.spawn_timer.timer.duration,
        draws.time * 20 + 60_000_000_000 - TICK
    );
    assert_eq!(game.score.unwrap().text(), "00002");

    // An enemy past the left edge leaves, and no other is affected.
    game.player = Some(Player { in_air: AffectedByGravity(false), ..Player::spawn(&WIN) });
    game.enemies = vec![enemy_at(900_000, 126_000), enemy_at(DESPAWN_X + 10_199, 126_000), enemy];
    assert_eq!(game.tick(&idle(), TICK, 0), None);
    assert_eq!(game.enemies.len(), 2);
    assert_eq!(game.enemies[0].transform.translation, Vec3 { x: 889_800, y: 126_000, z: 15 });
    assert_eq!(game.enemies[1].transform.translation.x, enemy.transform.translation.x - 10_200);
    assert!(well_formed(&game));
}

#[test]
fn one_spawn_interval_after_the_start_of_play_brings_exactly_one_enemy() {
    let mut game = playing();
    assert_eq!(game.tick(&idle(), 2_499_999_999, 0), None);
    assert!(game.enemies.is_empty());
    let mut game = playing();
    assert!(game.tick(&idle(), 2_500_000_000, 0).is_some());
    assert_eq!(game.enemies.len(), 1);
}

#[test]
fn nothing_spawns_in_the_menu() {
    let mut game = Game::new(WIN);
    for _ in 0..10 {
        assert_eq!(game.tick(&idle(), 1_000_000_000, 0), None);
    }
    assert!(game.enemies.is_empty());
    assert_eq!(game.spawn_timer, SpawnTimer::new());
    assert_eq!(game.score, None);
    assert_eq!(game.state, GameState::MainMenu);
    assert!(well_formed(&game));
}

#[test]
fn player_walks_and_jumps_in_the_menu() {
    let mut game = Game::new(WIN);
    let input = Input { right: true, jump: true, ..idle() };
    game.tick(&input, TICK, 0);
    let player = game.player.unwrap();
    assert_eq!(player.transform.translation, Vec3 { x: LEFT + 18_000, y: GROUND, z: 10 });
    assert_eq!(player.velocity, Velocity(Vec2 { x: 18_000, y: 34_200 }));
    assert_eq!(player.in_air, AffectedByGravity(true));
    game.tick(&input, TICK, 0);
    let player = game.player.unwrap();
    // gravity first: 34200 - 1125 = 33075
    assert_eq!(player.velocity.0.y, 33_075);
    assert_eq!(player.transform.translation.y, GROUND + 33_075);
}

#[test]
fn a_jump_comes_back_to_the_ground() {
    let mut game = playing();
    game.enemy_settings.min_time = 3_000_000_000_000;
    game.enemy_settings.max_time = 4_000_000_000_000;
    game.spawn_timer.timer.duration = u64::MAX;
    game.tick(&Input { jump: true, ..idle() }, TICK, 0);
    let mut highest = GROUND;
    let mut ticks = 0;
    while game.player.unwrap().in_air.0 {
        game.tick(&idle(), TICK, 0);
        highest = highest.max(game.player.unwrap().transform.translation.y);
        ticks += 1;
        assert!(ticks < 1000);
    }
    // v = 34200 - 1125 k; the height after k ticks is 34200 k - 1125 k (k + 1) / 2
    assert_eq!(ticks, 60);
    assert_eq!(highest, GROUND + 34_200 * 30 - 1125 * 30 * 31 / 2);
    let player = game.player.unwrap();
    assert_eq!(player.transform.translation.y, GROUND);
    assert_eq!(player.velocity.0.y, 0);
    game.tick(&idle(), TICK, 0);
    assert_eq!(game.player.unwrap().animation, Player::spawn(&WIN).animation);
}

#[test]
fn collision_kills_once_however_many_enemies_overlap() {
    let mut game = playing();
    game.enemies = vec![enemy_at(LEFT, GROUND), enemy_at(LEFT + 5, GROUND), enemy_at(LEFT, GROUND + 5)];
    game.tick(&idle(), TICK, 0);
    assert_eq!(game.alive, PlayerAlive(false));
    assert_eq!(game.player, None);
    let dead = game.dead_player.unwrap();
    assert_eq!(dead.transform.translation, Vec3 { x: LEFT, y: GROUND, z: 10 });
    assert_eq!(game.state, GameState::Playing);
    assert_eq!(game.enemies.len(), 3);
    assert!(well_formed(&game));
    let score = game.score;
    let timer = game.spawn_timer.timer;
    game.tick(&idle(), TICK, 0);
    assert_eq!(game.alive, PlayerAlive(false));
    assert_eq!(game.player, None);
    assert!(game.dead_player.is_some());
    assert_eq!(game.score, score);
    assert_eq!(game.spawn_timer.timer, timer);
    assert!(well_formed(&game));
}

#[test]
fn death_leads_to_the_dead_state_and_retry_starts_anew() {
    let mut game = playing();
    game.tick(&Input { right: true, ..idle() }, 1_000_000_000, 0);
    let x = game.player.unwrap().transform.translation.x;
    game.enemies = vec![enemy_at(x, GROUND), enemy_at(0, 126_000), enemy_at(900_000, -360_000)];
    let mut ticks = 0;
    while game.state != GameState::Dead {
        assert!(game.ready(50_000_000, 900));
        assert_eq!(game.tick(&idle(), 50_000_000, 900), None);
        assert!(well_formed(&game));
        ticks += 1;
        assert!(ticks < 100);
    }
    // the death clip starts in the tick of the collision: 29 ticks bring it
    // to its last frame, and one more asks for the state
    assert_eq!(ticks, 30);
    assert_eq!(game.dead_player.unwrap().sprite, 29);
    assert!(!game.alive.0);
    assert_eq!(game.score.unwrap().text(), "00001");
    assert_eq!(game.enemies.len(), 3);

    // dead: confirm does nothing, enemies go on moving
    let before = game.enemies[1].transform.translation.x;
    game.tick(&confirm(), 50_000_000, 0);
    assert_eq!(game.state, GameState::Dead);
    assert_eq!(game.enemies[1].transform.translation.x, before - 10_200);
    assert!(well_formed(&game));

    game.tick(&retry(), 0, 0);
    assert_eq!(game.state, GameState::Playing);
    assert_eq!(game.spawn_timer, SpawnTimer::new());
    assert_eq!(game.score, Some(Score { elapsed: 0, shown: Some(0) }));
    assert_eq!(game.alive, PlayerAlive(true));
    assert_eq!(game.player, Some(Player::spawn(&WIN)));
    assert_eq!(game.dead_player, None);
    assert!(game.enemies.is_empty());
    assert!(well_formed(&game));
}

#[test]
fn retry_hooks_restore_the_round() {
    let mut game = playing();
    game.enemies = vec![enemy_at(LEFT, GROUND), enemy_at(0, 0)];
    game.tick(&idle(), 1_000_000_000, 0);
    game.state = GameState::Dead;
    game.enter(GameState::Playing);
    assert_eq!(game.state, GameState::Playing);
    assert_eq!(game.spawn_timer.difficulty, 60_000_000_000);
    assert_eq!(game.spawn_timer.timer, Timer { duration: 50_000_000_000, elapsed: 0 });
    assert_eq!(game.score, Some(Score::new()));
    assert_eq!(game.score.unwrap().text(), "");
    assert_eq!(game.alive, PlayerAlive(true));
    assert_eq!(game.player, Some(Player::spawn(&WIN)));
    assert_eq!(game.dead_player, None);
    assert!(game.enemies.is_empty());
    assert_eq!(game.menu_text, None);
}

#[test]
fn hooks_of_each_state() {
    let mut game = Game::new(WIN);
    let start = game.clone();
    game.on_exit(GameState::Playing);
    game.on_enter(GameState::Dead);
    game.enter(GameState::MainMenu);
    assert_eq!(game.player, start.player);
    assert_eq!(game.menu_text, start.menu_text);
    assert_eq!(game.state, GameState::MainMenu);
    game.on_exit(GameState::MainMenu);
    assert_eq!(game.menu_text, None);
    game.player = None;
    game.on_enter(GameState::MainMenu);
    assert_eq!(game.player, Some(Player::spawn(&WIN)));
    assert_eq!(game.menu_text, Some(MenuText));
}

#[test]
fn enemies_at_the_left_edge_leave_in_play_and_in_the_dead_state() {
    for state in [GameState::Playing, GameState::Dead] {
        let mut game = playing();
        game.state = state;
        if state == GameState::Dead {
            game.alive = PlayerAlive(false);
            game.dead_player = Some(DeadPlayer::spawn_at(Vec3 { x: LEFT, y: GROUND, z: 10 }));
            game.player = None;
        }
        game.enemies = vec![
            enemy_at(DESPAWN_X + 10_200, 126_000),
            enemy_at(DESPAWN_X + 10_201, 126_000),
            enemy_at(DESPAWN_X - 5, 126_000),
        ];
        game.tick(&idle(), TICK, -900);
        assert_eq!(game.enemies.len(), 1);
        assert_eq!(
            game.enemies[0].transform.translation,
            Vec3 { x: DESPAWN_X + 1, y: 125_100, z: 15 }
        );
        assert!(well_formed(&game));
    }
}

#[test]
fn dead_player_falls_while_its_animation_plays() {
    let mut game = playing();
    game.player.as_mut().unwrap().transform.translation.y = GROUND + 100_000;
    game.player.as_mut().unwrap().in_air = AffectedByGravity(true);
    game.enemies = vec![enemy_at(LEFT, GROUND + 100_000 + 10_200)];
    game.enemies[0].velocity.0.x = 0;
    game.tick(&idle(), TICK, 0);
    let dead = game.dead_player.unwrap();
    assert_eq!(dead.transform.translation.y, GROUND + 100_000 - 1_125);
    assert_eq!(dead.velocity.0.y, 0);
    game.tick(&idle(), TICK, 0);
    let dead = game.dead_player.unwrap();
    assert_eq!(dead.velocity.0.y, -1_125);
    assert_eq!(dead.transform.translation.y, GROUND + 100_000 - 2 * 1_125);
    for _ in 0..20 {
        game.tick(&idle(), TICK, 0);
    }
    let dead = game.dead_player.unwrap();
    assert_eq!(dead.transform.translation.y, GROUND);
    assert_eq!(dead.in_air, AffectedByGravity(false));
    assert_eq!(dead.velocity.0.y, 0);
}

#[test]
fn looping_sprites_animate() {
    let mut player = Some(Player::spawn(&WIN));
    let mut enemies = vec![enemy_at(0, 0), enemy_at(1, 1)];
    enemies[1].sprite = 12;
    animate_looping_sprites(50_000_000, &mut player, &mut enemies);
    assert_eq!(player.unwrap().sprite, 0);
    assert_eq!(player.unwrap().timer.elapsed, 50_000_000);
    assert_eq!(enemies[0].sprite, 1);
    assert_eq!(enemies[1].sprite, 0);
    animate_looping_sprites(20_000_000, &mut player, &mut enemies);
    assert_eq!(player.unwrap().sprite, 1);
    assert_eq!(player.unwrap().timer.elapsed, 0);
    assert_eq!(enemies[0].sprite, 1);
    let mut none: Option<Player> = None;
    animate_looping_sprites(20_000_000, &mut none, &mut Vec::new());
    assert_eq!(none, None);
}

#[test]
fn a_game_out_of_range_is_not_ticked() {
    let mut game = playing();
    assert!(game.ready(TICK, 1_800));
    assert!(!game.ready(TICK, i64::MAX));
    game.player.as_mut().unwrap().transform.translation.x = i64::MAX;
    assert!(!game.ready(TICK, 0));
    let before = game.clone();
    assert!(!game.try_tick(&idle(), TICK, 0));
    assert_eq!(game.player, before.player);
    assert_eq!(game.score, before.score);
    assert_eq!(game.spawn_timer, before.spawn_timer);
    game.player.as_mut().unwrap().transform.translation.x = 1_000_000_000_000_000_000;
    assert!(game.ready(TICK, 0));
    assert!(game.try_tick(&idle(), TICK, 0));
    assert_eq!(game.score.unwrap().elapsed, TICK);

    let mut game = playing();
    game.enemies.push(enemy_at(0, i64::MIN));
    assert!(!game.ready(TICK, 0));
    game.enemies[0].transform.translation.y = 0;
    game.enemies[0].animation.index = u32::MAX;
    assert!(!game.ready(TICK, 0));
    game.enemies[0].animation.index = 0;
    assert!(game.ready(TICK, 0));
    game.score = Some(Score { elapsed: u64::MAX, shown: None });
    assert!(game.ready(0, 0));
    assert!(!game.ready(1, 0));
    game.score = Some(Score::new());
    game.enemy_settings.max_time = game.enemy_settings.min_time;
    assert!(!game.ready(0, 0));
}

#[test]
fn a_long_run_stays_well_formed() {
    let mut game = playing();
    let mut spawned = 0;
    for step in 0..20_000u64 {
        let input = Input {
            left: step % 7 == 0,
            right: step % 5 == 0,
            jump: step % 11 == 0,
            confirm: step % 13 == 0,
            retry: step % 17 == 0,
        };
        let bob = ((step % 9) as i64 - 4) * 450;
        assert!(game.try_tick(&input, TICK, bob));
        if game.tick(&input, TICK, bob).is_some() {
            spawned += 1;
        }
        assert!(well_formed(&game));
        assert!(game.enemies.iter().all(|enemy| enemy.transform.translation.x > DESPAWN_X));
        assert!(game.spawn_timer.difficulty <= 60_000_000_000);
    }
    assert!(spawned > 0);
}
