use crate::components::{Asteroid, Bullet, Ufo};
use crate::physics::{on_screen, wrap_coord, Vec2};
use crate::session::{Session, Split};
use vstd::prelude::*;

verus! {

/// The position reached from `pos` by one frame at velocity `vel`, wrapped
/// round the screen.
pub open spec fn advance_spec(pos: Vec2, vel: Vec2, screen: Vec2) -> Vec2 {
    Vec2 {
        x: wrap_coord(pos.x + vel.x, screen.x as int) as i32,
        y: wrap_coord(pos.y + vel.y, screen.y as int) as i32,
    }
}

/// A bullet after `dt` milliseconds: moved, older, and out of play once its
/// lifetime has run out.
pub open spec fn bullet_after(b: Bullet, dt: i32, screen: Vec2) -> Bullet {
    Bullet {
        pos: advance_spec(b.pos, b.vel, screen),
        lifetime: (b.lifetime - dt) as i32,
        active: b.active && b.lifetime - dt > 0,
        ..b
    }
}

/// An asteroid after one frame.
pub open spec fn asteroid_after(a: Asteroid, screen: Vec2) -> Asteroid {
    Asteroid { pos: advance_spec(a.pos, a.vel, screen), ..a }
}

/// The pieces of the given splits, in order, the first piece of each before
/// the second.
pub open spec fn pieces_of(splits: Seq<Split>) -> Seq<Asteroid>
    decreases splits.len(),
{
    if splits.len() == 0 {
        Seq::empty()
    } else {
        pieces_of(splits.drop_last()).push(splits.last().first).push(splits.last().second)
    }
}

/// Every split gives two pieces, and they stand in the order of the splits,
/// the first piece of each before the second.
pub proof fn lemma_two_pieces_each(splits: Seq<Split>)
    ensures
        pieces_of(splits).len() == 2 * splits.len(),
        forall|k: int|
            0 <= k < splits.len() ==> {
                &&& pieces_of(splits)[2 * k] == (#[trigger] splits[k]).first
                &&& pieces_of(splits)[2 * k + 1] == splits[k].second
            },
    decreases splits.len(),
{
    if splits.len() > 0 {
        lemma_two_pieces_each(splits.drop_last());
        assert forall|k: int| 0 <= k < splits.len() implies {
            &&& pieces_of(splits)[2 * k] == (#[trigger] splits[k]).first
            &&& pieces_of(splits)[2 * k + 1] == splits[k].second
        } by {
            if k < splits.len() - 1 {
                assert(splits.drop_last()[k] == splits[k]);
            }
        }
    }
}

/// One coordinate moved by `v` and wrapped onto `[0, bound]`.
pub fn advance_coord(x: i32, v: i32, bound: i32) -> (moved: i32)
    ensures
        moved == wrap_coord(x + v, bound as int),
{
    let sum: i64 = x as i64 + v as i64;
    if sum > bound as i64 {
        0
    } else if sum < 0 {
        bound
    } else {
        sum as i32
    }
}

/// Moves a position by one frame at velocity `vel` and wraps it.
pub fn advance(pos: Vec2, vel: Vec2, screen: Vec2) -> (moved: Vec2)
    ensures
        moved == advance_spec(pos, vel, screen),
        screen.x >= 0 && screen.y >= 0 ==> on_screen(moved, screen.x, screen.y),
{
    Vec2 { x: advance_coord(pos.x, vel.x, screen.x), y: advance_coord(pos.y, vel.y, screen.y) }
}

/// Moves and ages every bullet.
pub fn update_bullets(bullets: &mut Vec<Bullet>, dt: i32, screen: Vec2)
    requires
        forall|i: int|
            0 <= i < old(bullets)@.len() ==> i32::MIN <= (#[trigger] old(bullets)@[i]).lifetime - dt
                <= i32::MAX,
    ensures
        final(bullets)@ == old(bullets)@.map_values(|b: Bullet| bullet_after(b, dt, screen)),
{
    let ghost before = bullets@;
    let mut i: usize = 0;
    while i < bullets.len()
        invariant
            i <= bullets@.len(),
            bullets@.len() == before.len(),
            forall|k: int|
                0 <= k < before.len() ==> i32::MIN <= (#[trigger] before[k]).lifetime - dt
                    <= i32::MAX,
            forall|k: int| 0 <= k < i ==> bullets@[k] == bullet_after(before[k], dt, screen),
            forall|k: int| i <= k < before.len() ==> bullets@[k] == before[k],
        decreases bullets@.len() - i,
    {
        let b = bullets[i];
        let lifetime = b.lifetime - dt;
        bullets[i] = Bullet {
            pos: advance(b.pos, b.vel, screen),
            lifetime,
            active: b.active && lifetime > 0,
            ..b
        };
        i += 1;
    }
    assert(bullets@ =~= before.map_values(|b: Bullet| bullet_after(b, dt, screen)));
}

/// Moves every asteroid.
pub fn update_asteroids(asteroids: &mut Vec<Asteroid>, screen: Vec2)
    ensures
        final(asteroids)@ == old(asteroids)@.map_values(|a: Asteroid| asteroid_after(a, screen)),
{
    let ghost before = asteroids@;
    let mut i: usize = 0;
    while i < asteroids.len()
        invariant
            i <= asteroids@.len(),
            asteroids@.len() == before.len(),
            forall|k: int| 0 <= k < i ==> asteroids@[k] == asteroid_after(before[k], screen),
            forall|k: int| i <= k < before.len() ==> asteroids@[k] == before[k],
        decreases asteroids@.len() - i,
    {
        let a = asteroids[i];
        asteroids[i] = Asteroid { pos: advance(a.pos, a.vel, screen), ..a };
        i += 1;
    }
    assert(asteroids@ =~= before.map_values(|a: Asteroid| asteroid_after(a, screen)));
}

/// Keeps the bullets that are in play, in their order.
pub fn retain_active_bullets(bullets: &mut Vec<Bullet>)
    ensures
        final(bullets)@ == old(bullets)@.filter(|b: Bullet| b.active),
        forall|i: int|
            0 <= i < final(bullets)@.len() ==> (#[trigger] final(bullets)@[i]).active
                && old(bullets)@.contains(final(bullets)@[i]),
{
    let ghost before = bullets@;
    let mut kept: Vec<Bullet> = Vec::new();
    let mut i: usize = 0;
    while i < bullets.len()
        invariant
            bullets@ == before,
            i <= before.len(),
            kept@ == before.take(i as int).filter(|b: Bullet| b.active),
            forall|k: int|
                0 <= k < kept@.len() ==> (#[trigger] kept@[k]).active && before.contains(kept@[k]),
        decreases before.len() - i,
    {
        proof {
            assert(before.take(i + 1).drop_last() =~= before.take(i as int));
            reveal(Seq::filter);
        }
        if bullets[i].active {
            kept.push(bullets[i]);
        }
        i += 1;
    }
    assert(before.take(i as int) =~= before);
    *bullets = kept;
}

/// Keeps the asteroids that are in play, in their order.
pub fn retain_active_asteroids(asteroids: &mut Vec<Asteroid>)
    ensures
        final(asteroids)@ == old(asteroids)@.filter(|a: Asteroid| a.active),
        forall|i: int|
            0 <= i < final(asteroids)@.len() ==> (#[trigger] final(asteroids)@[i]).active
                && old(asteroids)@.contains(final(asteroids)@[i]),
{
    let ghost before = asteroids@;
    let mut kept: Vec<Asteroid> = Vec::new();
    let mut i: usize = 0;
    while i < asteroids.len()
        invariant
            asteroids@ == before,
            i <= before.len(),
            kept@ == before.take(i as int).filter(|a: Asteroid| a.active),
            forall|k: int|
                0 <= k < kept@.len() ==> (#[trigger] kept@[k]).active && before.contains(kept@[k]),
        decreases before.len() - i,
    {
        proof {
            assert(before.take(i + 1).drop_last() =~= before.take(i as int));
            reveal(Seq::filter);
        }
        if asteroids[i].active {
            kept.push(asteroids[i]);
        }
        i += 1;
    }
    assert(before.take(i as int) =~= before);
    *asteroids = kept;
}

/// Keeps the saucers that are in play, in their order.
pub fn retain_active_ufos(ufos: &mut Vec<Ufo>)
    ensures
        final(ufos)@ == old(ufos)@.filter(|u: Ufo| u.active),
        final(ufos)@.len() <= old(ufos)@.len(),
        forall|i: int|
            0 <= i < final(ufos)@.len() ==> (#[trigger] final(ufos)@[i]).active
                && old(ufos)@.contains(final(ufos)@[i]),
{
    let ghost before = ufos@;
    let mut kept: Vec<Ufo> = Vec::new();
    let mut i: usize = 0;
    while i < ufos.len()
        invariant
            ufos@ == before,
            i <= before.len(),
            kept@ == before.take(i as int).filter(|u: Ufo| u.active),
            kept@.len() <= i,
            forall|k: int|
                0 <= k < kept@.len() ==> (#[trigger] kept@[k]).active && before.contains(kept@[k]),
        decreases before.len() - i,
    {
        proof {
            assert(before.take(i + 1).drop_last() =~= before.take(i as int));
            reveal(Seq::filter);
        }
        if ufos[i].active {
            kept.push(ufos[i]);
        }
        i += 1;
    }
    assert(before.take(i as int) =~= before);
    *ufos = kept;
}

/// How a session `after` the end of a frame relates to the session `before`
/// it: what is in play has stayed, in its order; the pieces of the asteroids
/// that broke stand behind the asteroids; nothing is pending any more; and
/// nothing else has changed.
pub open spec fn cleaned(before: Session, after: Session) -> bool {
    &&& after.bullets@ == before.bullets@.filter(|b: Bullet| b.active)
    &&& after.asteroids@ == before.asteroids@.filter(|a: Asteroid| a.active) + pieces_of(
        before.pending@,
    )
    &&& after.ufos@ == before.ufos@.filter(|u: Ufo| u.active)
    &&& after.ufos@.len() <= before.ufos@.len()
    &&& (forall|i: int|
        0 <= i < after.bullets@.len() ==> (#[trigger] after.bullets@[i]).active
            && before.bullets@.contains(after.bullets@[i]))
    &&& (forall|i: int|
        0 <= i < after.ufos@.len() ==> (#[trigger] after.ufos@[i]).active && before.ufos@.contains(
            after.ufos@[i],
        ))
    &&& after.pending@.len() == 0
    &&& after.player == before.player
    &&& after.effects == before.effects
    &&& after.score == before.score
    &&& after.lives == before.lives
    &&& after.last_extra_life_score == before.last_extra_life_score
    &&& after.level_idx == before.level_idx
    &&& after.game_over == before.game_over
    &&& after.game_won == before.game_won
}

impl Session {
    /// Ends a frame: removes what is out of play, then lets the pieces of the
    /// asteroids that broke in this frame into the field.
    pub fn cleanup(&mut self)
        ensures
            cleaned(*old(self), *final(self)),
    {
        retain_active_bullets(&mut self.bullets);
        retain_active_asteroids(&mut self.asteroids);
        retain_active_ufos(&mut self.ufos);
        let ghost kept = self.asteroids@;
        let ghost waiting = self.pending@;
        let mut k: usize = 0;
        while k < self.pending.len()
            invariant
                k <= waiting.len(),
                self.pending@ == waiting,
                self.asteroids@ == kept + pieces_of(waiting.take(k as int)),
                self.bullets@ == old(self).bullets@.filter(|b: Bullet| b.active),
                self.ufos@ == old(self).ufos@.filter(|u: Ufo| u.active),
                self.ufos@.len() <= old(self).ufos@.len(),
                forall|i: int|
                    0 <= i < self.bullets@.len() ==> (#[trigger] self.bullets@[i]).active
                        && old(self).bullets@.contains(self.bullets@[i]),
                forall|i: int|
                    0 <= i < self.ufos@.len() ==> (#[trigger] self.ufos@[i]).active
                        && old(self).ufos@.contains(self.ufos@[i]),
                self.player == old(self).player,
                self.effects == old(self).effects,
                self.score == old(self).score,
                self.lives == old(self).lives,
                self.last_extra_life_score == old(self).last_extra_life_score,
                self.level_idx == old(self).level_idx,
                self.game_over == old(self).game_over,
                self.game_won == old(self).game_won,
            decreases waiting.len() - k,
        {
            let pieces = self.pending[k];
            self.asteroids.push(pieces.first);
            self.asteroids.push(pieces.second);
            proof {
                assert(waiting.take(k + 1).drop_last() =~= waiting.take(k as int));
                assert(waiting.take(k + 1).last() == pieces);
                assert(self.asteroids@ =~= kept + pieces_of(waiting.take(k + 1)));
            }
            k += 1;
        }
        assert(waiting.take(k as int) =~= waiting);
        self.pending.clear();
    }
}

} // verus!
