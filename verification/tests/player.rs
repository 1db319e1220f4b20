use surviver::animation::Animation;
use surviver::enemies::Enemy;
use surviver::physics::{AffectedByGravity, Velocity};
use surviver::player::{
    animate_dead_player, box_size, collide, player_check_collision, player_dead_cleanup,
    player_dead_movement, player_jump, player_movement, player_spawn, reset_player_pos,
    DeadPlayer, Player, PlayerAlive,
};
use surviver::timer::Timer;
use surviver::{GameState, Input, Transform, Vec2, Vec3, WinSize};

const WIN: WinSize = WinSize { w: 1000, h: 555 };
const GROUND: i64 = -423_000;
const LEFT: i64 = -1_314_000;

fn input(left: bool, right: bool, jump: bool) -> Input {
    Input { left, right, jump, confirm: false, retry: false }
}

fn enemy_at(x: i64, y: i64) -> Enemy {
    let mut enemy = Enemy::spawn(0, -10_200);
    enemy.transform.translation.x = x;
    enemy.transform.translation.y = y;
    enemy
}

#[test]
fn player_spawns_on_the_start_position() {
    let mut slot = None;
    player_spawn(&WIN, &mut slot);
    let player = slot.unwrap();
    assert_eq!(player.transform.translation, Vec3 { x: LEFT, y: GROUND, z: 10 });
    assert_eq!(player.transform.scale, Vec3 { x: 30, y: 30, z: 100 });
    assert_eq!(player.velocity, Velocity(Vec2 { x: 0, y: 0 }));
    assert_eq!(player.in_air, AffectedByGravity(false));
    assert_eq!(player.animation, Animation { index: 0, size: 16 });
    assert_eq!(player.sprite, 0);
    assert_eq!(player.timer, Timer { duration: 70_000_000, elapsed: 0 });
    assert_eq!(player, Player::spawn(&WIN));
}

#[test]
fn walking_right_moves_five_pixels_a_tick() {
    let mut slot = Some(Player::spawn(&WIN));
    player_movement(&input(false, true, false), &WIN, &PlayerAlive(true), &mut slot);
    let player = slot.unwrap();
    assert_eq!(player.transform.translation.x, LEFT + 5 * 3600);
    assert_eq!(player.velocity.0.x, 18_000);
    assert_eq!(player.transform.scale.x, 30);
    assert_eq!(player.animation, Animation { index: 16, size: 20 });
}

#[test]
fn walking_left_turns_the_player_round() {
    let mut slot = Some(Player::spawn(&WIN));
    player_movement(&input(true, false, false), &WIN, &PlayerAlive(true), &mut slot);
    let player = slot.unwrap();
    assert_eq!(player.transform.translation.x, LEFT - 5 * 3600);
    assert_eq!(player.velocity.0.x, -18_000);
    assert_eq!(player.transform.scale.x, -30);
    player_movement(&input(false, true, false), &WIN, &PlayerAlive(true), &mut slot);
    assert_eq!(slot.unwrap().transform.scale.x, 30);
    assert_eq!(slot.unwrap().transform.translation.x, LEFT);
}

#[test]
fn left_wins_over_right() {
    let mut slot = Some(Player::spawn(&WIN));
    player_movement(&input(true, true, false), &WIN, &PlayerAlive(true), &mut slot);
    assert_eq!(slot.unwrap().velocity.0.x, -18_000);
}

#[test]
fn releasing_the_keys_stops_the_player_and_idles_it_on_the_ground() {
    let mut player = Player::spawn(&WIN);
    player.velocity.0.x = 18_000;
    player.animation = Animation { index: 16, size: 20 };
    let mut slot = Some(player);
    player_movement(&input(false, false, false), &WIN, &PlayerAlive(true), &mut slot);
    let player = slot.unwrap();
    assert_eq!(player.velocity.0.x, 0);
    assert_eq!(player.animation, Animation { index: 0, size: 16 });
    assert_eq!(player.transform.translation.x, LEFT);
}

#[test]
fn clip_stays_in_the_air() {
    let mut player = Player::spawn(&WIN);
    player.in_air = AffectedByGravity(true);
    player.animation = Animation { index: 36, size: 30 };
    player.velocity.0.y = 1000;
    let mut slot = Some(player);
    player_movement(&input(false, true, false), &WIN, &PlayerAlive(true), &mut slot);
    assert_eq!(slot.unwrap().animation, Animation { index: 36, size: 30 });
    assert_eq!(slot.unwrap().transform.translation.y, GROUND + 1000);
    player_movement(&input(false, false, false), &WIN, &PlayerAlive(true), &mut slot);
    assert_eq!(slot.unwrap().animation, Animation { index: 36, size: 30 });
}

#[test]
fn player_is_held_inside_the_window() {
    // 500 px - 416 * 0.30 / 2 px = 437.6 px
    let limit: i64 = 1_575_360;
    assert_eq!((437.6f64 * 3600.0).round() as i64, limit);
    let mut player = Player::spawn(&WIN);
    player.transform.translation.x = limit - 1000;
    let mut slot = Some(player);
    player_movement(&input(false, true, false), &WIN, &PlayerAlive(true), &mut slot);
    assert_eq!(slot.unwrap().transform.translation.x, limit);
    let mut player = Player::spawn(&WIN);
    player.transform.translation.x = -limit + 1000;
    let mut slot = Some(player);
    player_movement(&input(true, false, false), &WIN, &PlayerAlive(true), &mut slot);
    assert_eq!(slot.unwrap().transform.translation.x, -limit);
}

#[test]
fn a_window_narrower_than_the_player_puts_it_right_of_the_centre() {
    let win = WinSize { w: 0, h: 555 };
    let mut slot = Some(Player::spawn(&WIN));
    player_movement(&input(false, false, false), &win, &PlayerAlive(true), &mut slot);
    // limit = -62.4 px: min(x, limit) then max(.., -limit) = 62.4 px
    assert_eq!(slot.unwrap().transform.translation.x, 224_640);
}

#[test]
fn nothing_moves_without_a_player_or_while_dead() {
    let mut slot: Option<Player> = None;
    player_movement(&input(true, false, true), &WIN, &PlayerAlive(true), &mut slot);
    player_jump(&input(true, false, true), &WIN, &PlayerAlive(true), &mut slot);
    reset_player_pos(&WIN, &mut slot);
    assert_eq!(slot, None);
    let mut slot = Some(Player::spawn(&WIN));
    player_movement(&input(true, false, true), &WIN, &PlayerAlive(false), &mut slot);
    player_jump(&input(true, false, true), &WIN, &PlayerAlive(false), &mut slot);
    assert_eq!(slot, Some(Player::spawn(&WIN)));
}

#[test]
fn jump_starts_only_on_the_ground() {
    let mut slot = Some(Player::spawn(&WIN));
    player_jump(&input(false, false, true), &WIN, &PlayerAlive(true), &mut slot);
    let player = slot.unwrap();
    assert_eq!(player.in_air, AffectedByGravity(true));
    assert_eq!(player.velocity.0.y, 34_200);
    assert_eq!(player.animation, Animation { index: 36, size: 30 });
    assert_eq!(player.transform.translation.y, GROUND);

    let mut airborne = player;
    airborne.velocity.0.y = 100;
    airborne.transform.translation.y = GROUND + 50_000;
    let mut slot = Some(airborne);
    player_jump(&input(false, false, true), &WIN, &PlayerAlive(true), &mut slot);
    assert_eq!(slot, Some(airborne));
}

#[test]
fn landing_puts_the_player_on_the_ground_line() {
    let mut player = Player::spawn(&WIN);
    player.in_air = AffectedByGravity(true);
    player.animation = Animation { index: 36, size: 30 };
    player.velocity = Velocity(Vec2 { x: 18_000, y: -30_000 });
    player.transform.translation.y = GROUND - 1;
    let mut slot = Some(player);
    player_jump(&input(false, false, false), &WIN, &PlayerAlive(true), &mut slot);
    let landed = slot.unwrap();
    assert_eq!(landed.transform.translation.y, GROUND);
    assert_eq!(landed.velocity, Velocity(Vec2 { x: 18_000, y: 0 }));
    assert_eq!(landed.in_air, AffectedByGravity(false));
    assert_eq!(landed.animation, Animation { index: 36, size: 30 });
}

#[test]
fn on_the_ground_line_is_not_below_it() {
    let mut player = Player::spawn(&WIN);
    player.in_air = AffectedByGravity(true);
    player.velocity.0.y = -5;
    let mut slot = Some(player);
    player_jump(&input(false, false, false), &WIN, &PlayerAlive(true), &mut slot);
    assert_eq!(slot, Some(player));
}

#[test]
fn box_sizes() {
    // 416 * 0.30 - 17 = 107.8 px, 454 * 0.30 - 17 = 119.2 px
    assert_eq!(box_size(416, 30), 388_080);
    assert_eq!(box_size(454, -30), 429_120);
    // 273 * 0.20 - 17 = 37.6 px, 282 * 0.20 - 17 = 39.4 px
    assert_eq!(box_size(273, 20), 135_360);
    assert_eq!(box_size(282, 20), 141_840);
    assert_eq!(box_size(416, 0), -61_200);
    assert_eq!((107.8f64 * 3600.0).round() as i128, box_size(416, 30));
}

#[test]
fn boxes_that_touch_do_not_overlap() {
    let player = Player::spawn(&WIN).transform;
    // half widths: 53.9 px + 18.8 px = 72.7 px = 261720 subpixels
    let mut enemy = enemy_at(LEFT + 261_720, GROUND).transform;
    assert!(!collide(&player, &enemy));
    enemy.translation.x -= 1;
    assert!(collide(&player, &enemy));
    enemy.translation.x = LEFT - 261_720;
    assert!(!collide(&player, &enemy));
    enemy.translation.x += 1;
    assert!(collide(&player, &enemy));
    // half heights: 59.6 px + 19.7 px = 79.3 px = 285480 subpixels
    let mut enemy = enemy_at(LEFT, GROUND + 285_480).transform;
    assert!(!collide(&player, &enemy));
    enemy.translation.y -= 1;
    assert!(collide(&player, &enemy));
}

#[test]
fn collision_takes_the_extremes_of_the_range() {
    let far = Transform {
        translation: Vec3 { x: i64::MAX, y: i64::MIN, z: 0 },
        scale: Vec3 { x: i64::MIN, y: i64::MAX, z: 100 },
    };
    let near = Player::spawn(&WIN).transform;
    assert!(collide(&far, &far));
    assert!(collide(&far, &near));
}

#[test]
fn collision_kills_the_player_once() {
    let player = Player::spawn(&WIN);
    let enemies = vec![
        enemy_at(LEFT, GROUND),
        enemy_at(LEFT + 10, GROUND + 10),
        enemy_at(LEFT - 10, GROUND),
        enemy_at(1_800_000, 126_000),
    ];
    let mut alive = PlayerAlive(true);
    let mut slot = Some(player);
    let mut dead = None;
    assert!(player_check_collision(&mut alive, &mut slot, &mut dead, &enemies));
    assert_eq!(alive, PlayerAlive(false));
    assert_eq!(slot, None);
    assert_eq!(dead, Some(DeadPlayer::spawn_at(player.transform.translation)));
    let before = dead;
    assert!(!player_check_collision(&mut alive, &mut slot, &mut dead, &enemies));
    assert_eq!((alive, slot, dead), (PlayerAlive(false), None, before));
}

#[test]
fn dead_player_appears_where_the_player_was() {
    let mut player = Player::spawn(&WIN);
    player.transform.translation = Vec3 { x: 7, y: 100_000, z: 10 };
    player.transform.scale.x = -30;
    player.velocity = Velocity(Vec2 { x: -18_000, y: 900 });
    let mut alive = PlayerAlive(true);
    let mut slot = Some(player);
    let mut dead = None;
    assert!(player_check_collision(&mut alive, &mut slot, &mut dead, &vec![enemy_at(0, 100_000)]));
    let dead = dead.unwrap();
    assert_eq!(dead.transform.translation, Vec3 { x: 7, y: 100_000, z: 10 });
    assert_eq!(dead.transform.scale, Vec3 { x: 30, y: 30, z: 100 });
    assert_eq!(dead.velocity, Velocity(Vec2 { x: 0, y: 0 }));
    assert_eq!(dead.in_air, AffectedByGravity(true));
    assert_eq!(dead.animation, Animation { index: 0, size: 30 });
    assert_eq!(dead.sprite, 0);
    assert_eq!(dead.timer, Timer { duration: 50_000_000, elapsed: 0 });
}

#[test]
fn no_collision_changes_nothing() {
    let player = Player::spawn(&WIN);
    let mut alive = PlayerAlive(true);
    let mut slot = Some(player);
    let mut dead = None;
    let far = vec![enemy_at(1_800_000, -360_000), enemy_at(1_000_000, 126_000)];
    assert!(!player_check_collision(&mut alive, &mut slot, &mut dead, &far));
    assert!(!player_check_collision(&mut alive, &mut slot, &mut dead, &Vec::new()));
    assert_eq!((alive, slot, dead), (PlayerAlive(true), Some(player), None));
    let mut alive = PlayerAlive(false);
    assert!(!player_check_collision(&mut alive, &mut slot, &mut dead, &vec![enemy_at(LEFT, GROUND)]));
    assert_eq!((alive, slot, dead), (PlayerAlive(false), Some(player), None));
    let mut none = None;
    let mut alive = PlayerAlive(true);
    assert!(!player_check_collision(&mut alive, &mut none, &mut dead, &vec![enemy_at(LEFT, GROUND)]));
    assert_eq!((alive, none, dead), (PlayerAlive(true), None, None));
}

#[test]
fn reset_puts_the_player_back() {
    let mut player = Player::spawn(&WIN);
    player.transform.translation = Vec3 { x: 55, y: 66, z: 3 };
    player.transform.scale.x = -30;
    player.velocity = Velocity(Vec2 { x: 18_000, y: -7 });
    player.in_air = AffectedByGravity(true);
    player.animation = Animation { index: 36, size: 30 };
    player.sprite = 40;
    let mut slot = Some(player);
    reset_player_pos(&WIN, &mut slot);
    let reset = slot.unwrap();
    assert_eq!(reset.transform.translation, Vec3 { x: LEFT, y: GROUND, z: 10 });
    assert_eq!(reset.velocity, Velocity(Vec2 { x: 0, y: 0 }));
    assert_eq!(reset.transform.scale.x, -30);
    assert_eq!(reset.in_air, AffectedByGravity(true));
    assert_eq!(reset.animation, Animation { index: 36, size: 30 });
    assert_eq!(reset.sprite, 40);
}

#[test]
fn dead_player_falls_and_lands() {
    let mut dead = DeadPlayer::spawn_at(Vec3 { x: 0, y: GROUND + 10_000, z: 10 });
    dead.velocity = Velocity(Vec2 { x: 30, y: -6_000 });
    let mut slot = Some(dead);
    player_dead_movement(&WIN, &mut slot);
    let moved = slot.unwrap();
    assert_eq!(moved.transform.translation, Vec3 { x: 30, y: GROUND + 4_000, z: 10 });
    assert_eq!(moved.in_air, AffectedByGravity(true));
    assert_eq!(moved.velocity, dead.velocity);
    player_dead_movement(&WIN, &mut slot);
    let landed = slot.unwrap();
    assert_eq!(landed.transform.translation, Vec3 { x: 60, y: GROUND, z: 10 });
    assert_eq!(landed.velocity, Velocity(Vec2 { x: 30, y: 0 }));
    assert_eq!(landed.in_air, AffectedByGravity(false));
    let mut none: Option<DeadPlayer> = None;
    player_dead_movement(&WIN, &mut none);
    assert_eq!(none, None);
}

#[test]
fn death_animation_plays_and_then_asks_for_the_dead_state() {
    let mut state = GameState::Playing;
    let mut slot = Some(DeadPlayer::spawn_at(Vec3 { x: 0, y: 0, z: 10 }));
    for frame in 1..30u32 {
        animate_dead_player(&mut state, 50_000_000, &mut slot);
        assert_eq!(slot.unwrap().sprite, frame);
        assert_eq!(state, GameState::Playing);
    }
    let last = slot;
    animate_dead_player(&mut state, 50_000_000, &mut slot);
    assert_eq!(state, GameState::Dead);
    assert_eq!(slot, last);
    animate_dead_player(&mut state, 50_000_000, &mut slot);
    assert_eq!(state, GameState::Dead);
    assert_eq!(slot, last);
}

#[test]
fn death_animation_waits_for_its_timer() {
    let mut state = GameState::Playing;
    let mut slot = Some(DeadPlayer::spawn_at(Vec3 { x: 0, y: 0, z: 10 }));
    animate_dead_player(&mut state, 49_999_999, &mut slot);
    assert_eq!((slot.unwrap().sprite, slot.unwrap().timer.elapsed), (0, 49_999_999));
    animate_dead_player(&mut state, 2, &mut slot);
    assert_eq!((slot.unwrap().sprite, slot.unwrap().timer.elapsed), (1, 1));
}

#[test]
fn a_request_for_the_dead_state_outside_play_is_ignored() {
    let mut finished = DeadPlayer::spawn_at(Vec3 { x: 0, y: 0, z: 10 });
    finished.sprite = 29;
    let mut state = GameState::MainMenu;
    let mut slot = Some(finished);
    animate_dead_player(&mut state, 1, &mut slot);
    assert_eq!(state, GameState::MainMenu);
    let mut none: Option<DeadPlayer> = None;
    let mut state = GameState::Playing;
    animate_dead_player(&mut state, 1, &mut none);
    assert_eq!(state, GameState::Playing);
}

#[test]
fn cleanup_removes_the_dead_player_and_revives() {
    let mut alive = PlayerAlive(false);
    let mut slot = Some(DeadPlayer::spawn_at(Vec3 { x: 0, y: 0, z: 10 }));
    player_dead_cleanup(&mut alive, &mut slot);
    assert_eq!((alive, slot), (PlayerAlive(true), None));
    let mut alive = PlayerAlive(false);
    player_dead_cleanup(&mut alive, &mut slot);
    assert_eq!((alive, slot), (PlayerAlive(false), None));
}
