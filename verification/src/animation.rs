use vstd::prelude::*;
use crate::enemies::Enemy;
use crate::player::Player;
use crate::timer::Timer;

verus! {

/// A clip: a run of `size` frames of a sprite sheet that starts at frame
/// `index`.
#[derive(Clone, Copy, Debug, PartialEq, Eq, Structural)]
pub struct Animation {
    pub index: u32,
    pub size: u32,
}

impl Animation {
    /// The clip ends within the range of frame numbers.
    pub open spec fn wf(self) -> bool {
        self.index + self.size <= u32::MAX
    }

    /// Whether `frame` is the last frame of the clip, or lies behind it.
    pub open spec fn at_end(self, frame: u32) -> bool {
        frame + 1 >= self.index + self.size
    }

    /// The frame that follows `frame` in a looping clip: the next frame
    /// while that lies inside the clip, else the first frame of the clip.
    pub open spec fn next_frame(self, frame: u32) -> u32 {
        if frame >= self.index && frame + 1 < self.index + self.size {
            (frame + 1) as u32
        } else {
            self.index
        }
    }

    /// Executable form of `at_end`.
    pub fn is_at_end(&self, frame: u32) -> (b: bool)
        ensures
            b == self.at_end(frame),
    {
        frame as u64 + 1 >= self.index as u64 + self.size as u64
    }

    /// Executable form of `next_frame`.
    pub fn advance(&self, frame: u32) -> (next: u32)
        requires
            self.wf(),
        ensures
            next == self.next_frame(frame),
            self.size > 0 ==> self.index <= next < self.index + self.size,
    {
        if frame >= self.index && frame as u64 + 1 < self.index as u64 + self.size as u64 {
            frame + 1
        } else {
            self.index
        }
    }
}

/// The frame shown after a tick of `delta` on the frame timer: the next
/// frame of the clip where the timer fires, the same frame where it does
/// not.
pub open spec fn frame_after(animation: Animation, timer: Timer, sprite: u32, delta: u64) -> u32 {
    if timer.fires(delta) {
        animation.next_frame(sprite)
    } else {
        sprite
    }
}

/// Advances the frame timer of one looping sprite by `delta` and, where
/// the timer fires, moves the sprite on to the next frame of its clip.
pub fn animate_looping_sprite(delta: u64, timer: &mut Timer, sprite: &mut u32, animation: &Animation)
    requires
        animation.wf(),
    ensures
        *final(timer) == old(timer).after(delta),
        *final(sprite) == frame_after(*animation, *old(timer), *old(sprite), delta),
{
    if timer.tick(delta) {
        *sprite = animation.advance(*sprite);
    }
}

/// The player slot after `animate_looping_sprites`.
pub open spec fn after_player_animation(query: Option<Player>, delta: u64) -> Option<Player> {
    match query {
        Some(player) => Some(player.animated(delta)),
        None => None,
    }
}

/// The enemies after `animate_looping_sprites`.
pub open spec fn after_enemy_animation(enemies: Seq<Enemy>, delta: u64) -> Seq<Enemy> {
    enemies.map_values(|enemy: Enemy| enemy.animated(delta))
}

/// Plays the looping animations for one tick of `delta` nanoseconds: that
/// of the live player and that of every enemy.
pub fn animate_looping_sprites(
    delta: u64,
    player_query: &mut Option<Player>,
    enemy_query: &mut Vec<Enemy>,
)
    requires
        *old(player_query) matches Some(player) ==> player.animation.wf(),
        forall|i: int|
            0 <= i < old(enemy_query)@.len() ==> (#[trigger] old(enemy_query)@[i]).animation.wf(),
    ensures
        *final(player_query) == after_player_animation(*old(player_query), delta),
        final(enemy_query)@ == after_enemy_animation(old(enemy_query)@, delta),
{
    match *player_query {
        Some(player) => {
            let mut player = player;
            animate_looping_sprite(delta, &mut player.timer, &mut player.sprite, &player.animation);
            *player_query = Some(player);
        },
        None => {},
    }
    let mut i: usize = 0;
    while i < enemy_query.len()
        invariant
            i <= enemy_query@.len(),
            enemy_query@.len() == old(enemy_query)@.len(),
            forall|j: int| 0 <= j < i ==> enemy_query@[j] == (#[trigger] old(enemy_query)@[j]).animated(delta),
            forall|j: int| i <= j < enemy_query@.len() ==> enemy_query@[j] == old(enemy_query)@[j],
            forall|j: int|
                0 <= j < old(enemy_query)@.len() ==> (#[trigger] old(enemy_query)@[j]).animation.wf(),
        decreases enemy_query@.len() - i,
    {
        let mut enemy: Enemy = enemy_query[i];
        animate_looping_sprite(delta, &mut enemy.timer, &mut enemy.sprite, &enemy.animation);
        enemy_query.set(i, enemy);
        i += 1;
    }
    assert(enemy_query@ =~= after_enemy_animation(old(enemy_query)@, delta));
}

} // verus!
