use crate::components::{Asteroid, Ufo};
use crate::config::LevelConfig;
use crate::physics::{
    dist_sq, distance_squared, fits_scaled, on_screen, scale, scale_spec, Vec2,
};
use crate::random::draw_between;
use vstd::prelude::*;

verus! {

/// No asteroid is placed this close to the centre of the screen, where the
/// ship starts, while placements are still being rejected.
pub const SPAWN_EXCLUSION_RADIUS: i32 = 150_000;

/// Number of rejected placements after which the next one is taken as it is.
pub const MAX_SPAWN_ATTEMPTS: u32 = 50;

/// Least radius of a fresh asteroid, before the level's size factor.
pub const ASTEROID_MIN_RADIUS: i32 = 30_000;

/// Upper end of the radius of a fresh asteroid, before the level's size factor.
pub const ASTEROID_MAX_RADIUS: i32 = 50_000;

/// Least number of sides of an asteroid.
pub const ASTEROID_MIN_SIDES: u8 = 5;

/// Greatest number of sides of an asteroid.
pub const ASTEROID_MAX_SIDES: u8 = 8;

/// The middle of a screen with the given far corner.
pub open spec fn screen_center(screen: Vec2) -> Vec2 {
    Vec2 { x: (screen.x / 2) as i32, y: (screen.y / 2) as i32 }
}

/// Whether an asteroid may be placed at `pos`: strictly outside the exclusion
/// circle round the centre of the screen.
pub open spec fn safe_spawn(pos: Vec2, screen: Vec2) -> bool {
    dist_sq(pos, screen_center(screen)) > SPAWN_EXCLUSION_RADIUS * SPAWN_EXCLUSION_RADIUS
}

/// A speed whose magnitude lies in the level's range, in either direction.
pub open spec fn speed_in_range(v: i32, config: LevelConfig) -> bool {
    ||| config.asteroid_speed_range.0 <= v <= config.asteroid_speed_range.1
    ||| config.asteroid_speed_range.0 <= -v <= config.asteroid_speed_range.1
}

/// The asteroid that a level's settings make of one set of draws: a position,
/// a speed and a direction (0 for forwards) along each axis, a radius before
/// the size factor, and a number of sides.
pub open spec fn asteroid_from_draws(
    config: LevelConfig,
    pos: Vec2,
    speed_x: i32,
    turn_x: i32,
    speed_y: i32,
    turn_y: i32,
    base_radius: i32,
    sides: u8,
) -> Asteroid {
    Asteroid {
        pos,
        vel: Vec2 {
            x: if turn_x == 0 { speed_x } else { (-speed_x) as i32 },
            y: if turn_y == 0 { speed_y } else { (-speed_y) as i32 },
        },
        radius: scale_spec(base_radius as int, config.asteroid_size_mult as int) as i32,
        active: true,
        sides,
    }
}

/// What holds of every asteroid that `load_level` spawns.
pub open spec fn freshly_spawned(a: Asteroid, config: LevelConfig, screen: Vec2) -> bool {
    &&& a.active
    &&& ASTEROID_MIN_SIDES <= a.sides <= ASTEROID_MAX_SIDES
    &&& on_screen(a.pos, screen.x, screen.y)
    &&& speed_in_range(a.vel.x, config)
    &&& speed_in_range(a.vel.y, config)
    &&& exists|base: int|
        ASTEROID_MIN_RADIUS <= base <= ASTEROID_MAX_RADIUS && a.radius == #[trigger] scale_spec(
            base,
            config.asteroid_size_mult as int,
        )
}

/// Settings that `load_level` can play: a speed range in order, speeds whose
/// opposite exists, and a size factor that keeps every radius in range. The
/// number of asteroids and the spawn chance are not looked at.
pub open spec fn loadable(config: LevelConfig) -> bool {
    &&& config.asteroid_speed_range.0 <= config.asteroid_speed_range.1
    &&& config.asteroid_speed_range.0 > i32::MIN
    &&& forall|base: int|
        ASTEROID_MIN_RADIUS <= base <= ASTEROID_MAX_RADIUS ==> i32::MIN <= #[trigger] scale_spec(
            base,
            config.asteroid_size_mult as int,
        ) <= i32::MAX
}

/// Index of the candidate that is taken, looking from `from` on: the first
/// that is safe, or, where none is, the one after `MAX_SPAWN_ATTEMPTS`
/// rejections or the last.
pub open spec fn chosen_index(candidates: Seq<Vec2>, screen: Vec2, from: int) -> int
    decreases candidates.len() - from,
{
    if from + 1 >= candidates.len() || from >= MAX_SPAWN_ATTEMPTS || safe_spawn(
        candidates[from],
        screen,
    ) {
        from
    } else {
        chosen_index(candidates, screen, from + 1)
    }
}

/// The place that a run of candidates gives, with the number of candidates
/// that were rejected: the one that is taken counts among them where it is
/// not safe.
pub open spec fn placement(candidates: Seq<Vec2>, screen: Vec2) -> (Vec2, u32) {
    let k = chosen_index(candidates, screen, 0);
    (candidates[k], (if safe_spawn(candidates[k], screen) { k } else { k + 1 }) as u32)
}

/// Tells whether an asteroid may be placed at `pos`.
pub fn is_safe_spawn(pos: Vec2, screen: Vec2) -> (safe: bool)
    requires
        screen.x >= 0,
        screen.y >= 0,
    ensures
        safe == safe_spawn(pos, screen),
{
    let center = Vec2 { x: screen.x / 2, y: screen.y / 2 };
    let limit: i128 = 150_000 * 150_000;
    distance_squared(pos, center) > limit
}

/// Builds an asteroid from one set of draws.
pub fn make_asteroid(
    config: &LevelConfig,
    pos: Vec2,
    speed_x: i32,
    turn_x: i32,
    speed_y: i32,
    turn_y: i32,
    base_radius: i32,
    sides: u8,
) -> (a: Asteroid)
    requires
        speed_x > i32::MIN,
        speed_y > i32::MIN,
        i32::MIN <= scale_spec(base_radius as int, config.asteroid_size_mult as int) <= i32::MAX,
    ensures
        a == asteroid_from_draws(
            *config,
            pos,
            speed_x,
            turn_x,
            speed_y,
            turn_y,
            base_radius,
            sides,
        ),
{
    Asteroid {
        pos,
        vel: Vec2 {
            x: if turn_x == 0 { speed_x } else { -speed_x },
            y: if turn_y == 0 { speed_y } else { -speed_y },
        },
        radius: scale(base_radius, config.asteroid_size_mult),
        active: true,
        sides,
    }
}

/// Draws candidates for the place of an asteroid, one after the other, up to
/// the first that is safe and no more than `MAX_SPAWN_ATTEMPTS + 1`.
pub fn draw_spawn_candidates(screen: Vec2) -> (drawn: Vec<Vec2>)
    requires
        screen.x >= 0,
        screen.y >= 0,
    ensures
        1 <= drawn@.len() <= MAX_SPAWN_ATTEMPTS + 1,
        forall|i: int| 0 <= i < drawn@.len() ==> on_screen(#[trigger] drawn@[i], screen.x, screen.y),
        forall|i: int| 0 <= i < drawn@.len() - 1 ==> !safe_spawn(#[trigger] drawn@[i], screen),
        safe_spawn(drawn@[drawn@.len() - 1], screen) || drawn@.len() == MAX_SPAWN_ATTEMPTS + 1,
{
    let mut drawn: Vec<Vec2> = Vec::new();
    loop
        invariant_except_break
            drawn@.len() <= MAX_SPAWN_ATTEMPTS,
            forall|i: int| 0 <= i < drawn@.len() ==> !safe_spawn(#[trigger] drawn@[i], screen),
        invariant
            screen.x >= 0,
            screen.y >= 0,
            forall|i: int|
                0 <= i < drawn@.len() ==> on_screen(#[trigger] drawn@[i], screen.x, screen.y),
        ensures
            1 <= drawn@.len() <= MAX_SPAWN_ATTEMPTS + 1,
            forall|i: int| 0 <= i < drawn@.len() - 1 ==> !safe_spawn(#[trigger] drawn@[i], screen),
            safe_spawn(drawn@[drawn@.len() - 1], screen) || drawn@.len() == MAX_SPAWN_ATTEMPTS + 1,
        decreases MAX_SPAWN_ATTEMPTS + 1 - drawn@.len(),
    {
        let pos = Vec2 { x: draw_between(0, screen.x), y: draw_between(0, screen.y) };
        drawn.push(pos);
        if is_safe_spawn(pos, screen) {
            break ;
        }
        if drawn.len() > MAX_SPAWN_ATTEMPTS as usize {
            break ;
        }
    }
    drawn
}

/// The candidate that is taken is within the run and within
/// `MAX_SPAWN_ATTEMPTS` rejections; every candidate before it is unsafe; and
/// it is safe itself unless it is the one after `MAX_SPAWN_ATTEMPTS`
/// rejections or the last of the run.
pub proof fn lemma_chosen_index(candidates: Seq<Vec2>, screen: Vec2, from: int)
    requires
        0 <= from < candidates.len(),
        from <= MAX_SPAWN_ATTEMPTS,
    ensures
        from <= chosen_index(candidates, screen, from) < candidates.len(),
        chosen_index(candidates, screen, from) <= MAX_SPAWN_ATTEMPTS,
        forall|i: int|
            from <= i < chosen_index(candidates, screen, from) ==> !safe_spawn(
                #[trigger] candidates[i],
                screen,
            ),
        safe_spawn(candidates[chosen_index(candidates, screen, from)], screen) || chosen_index(
            candidates,
            screen,
            from,
        ) == MAX_SPAWN_ATTEMPTS || chosen_index(candidates, screen, from) == candidates.len() - 1,
    decreases candidates.len() - from,
{
    if !(from + 1 >= candidates.len() || from >= MAX_SPAWN_ATTEMPTS || safe_spawn(
        candidates[from],
        screen,
    )) {
        lemma_chosen_index(candidates, screen, from + 1);
    }
}

/// Places an asteroid from a run of candidates: at the first that is safe,
/// or, where `MAX_SPAWN_ATTEMPTS + 1` were rejected or the run ends, at the
/// last one looked at. Returns the place with the number of rejections.
pub fn place_from(candidates: &Vec<Vec2>, screen: Vec2) -> (picked: (Vec2, u32))
    requires
        candidates@.len() >= 1,
        screen.x >= 0,
        screen.y >= 0,
    ensures
        picked == placement(candidates@, screen),
{
    let mut k: usize = 0;
    while k + 1 < candidates.len() && k < MAX_SPAWN_ATTEMPTS as usize && !is_safe_spawn(
        candidates[k],
        screen,
    )
        invariant
            screen.x >= 0,
            screen.y >= 0,
            0 <= k < candidates@.len(),
            k <= MAX_SPAWN_ATTEMPTS,
            chosen_index(candidates@, screen, 0) == chosen_index(candidates@, screen, k as int),
        decreases candidates@.len() - k,
    {
        k += 1;
    }
    let pos = candidates[k];
    if is_safe_spawn(pos, screen) {
        (pos, k as u32)
    } else {
        (pos, k as u32 + 1)
    }
}

/// Draws places on the screen until one is safe or `MAX_SPAWN_ATTEMPTS + 1`
/// have been rejected, and returns the last one drawn with the number of
/// rejections.
pub fn pick_spawn_position(screen: Vec2) -> (picked: (Vec2, u32))
    requires
        screen.x >= 0,
        screen.y >= 0,
    ensures
        on_screen(picked.0, screen.x, screen.y),
        picked.1 <= MAX_SPAWN_ATTEMPTS + 1,
        safe_spawn(picked.0, screen) <==> picked.1 <= MAX_SPAWN_ATTEMPTS,
{
    let drawn = draw_spawn_candidates(screen);
    proof {
        lemma_chosen_index(drawn@, screen, 0);
    }
    place_from(&drawn, screen)
}

/// Draws one asteroid for a level.
pub fn spawn_asteroid(config: &LevelConfig, screen: Vec2) -> (a: Asteroid)
    requires
        loadable(*config),
        screen.x >= 0,
        screen.y >= 0,
    ensures
        freshly_spawned(a, *config, screen),
{
    let picked = pick_spawn_position(screen);
    let speed_x = draw_between(config.asteroid_speed_range.0, config.asteroid_speed_range.1);
    let turn_x = draw_between(0, 2);
    let speed_y = draw_between(config.asteroid_speed_range.0, config.asteroid_speed_range.1);
    let turn_y = draw_between(0, 2);
    let base_radius = draw_between(ASTEROID_MIN_RADIUS, ASTEROID_MAX_RADIUS);
    let sides = draw_between(5, 9);
    let a = make_asteroid(
        config,
        picked.0,
        speed_x,
        turn_x,
        speed_y,
        turn_y,
        base_radius,
        sides as u8,
    );
    assert(a.radius == scale_spec(base_radius as int, config.asteroid_size_mult as int));
    a
}

/// Empties the field and spawns the level's asteroids, each at the place that
/// `pick_spawn_position` draws for it.
pub fn load_level(
    config: &LevelConfig,
    screen: Vec2,
    asteroids: &mut Vec<Asteroid>,
    ufos: &mut Vec<Ufo>,
)
    requires
        loadable(*config),
        screen.x >= 0,
        screen.y >= 0,
    ensures
        final(ufos)@.len() == 0,
        final(asteroids)@.len() == config.asteroid_count,
        forall|i: int|
            0 <= i < final(asteroids)@.len() ==> freshly_spawned(
                #[trigger] final(asteroids)@[i],
                *config,
                screen,
            ),
{
    asteroids.clear();
    ufos.clear();
    let mut spawned: usize = 0;
    while spawned < config.asteroid_count
        invariant
            loadable(*config),
            screen.x >= 0,
            screen.y >= 0,
            spawned <= config.asteroid_count,
            asteroids@.len() == spawned,
            forall|i: int|
                0 <= i < asteroids@.len() ==> freshly_spawned(
                    #[trigger] asteroids@[i],
                    *config,
                    screen,
                ),
        decreases config.asteroid_count - spawned,
    {
        let a = spawn_asteroid(config, screen);
        asteroids.push(a);
        spawned += 1;
    }
}

/// Between the least and the greatest radius of a fresh asteroid, the
/// greatest is the one that a size factor takes furthest from zero.
pub proof fn lemma_largest_radius_decides(base: int, factor: int)
    requires
        ASTEROID_MIN_RADIUS <= base <= ASTEROID_MAX_RADIUS,
        i32::MIN <= scale_spec(ASTEROID_MAX_RADIUS as int, factor) <= i32::MAX,
    ensures
        i32::MIN <= scale_spec(base, factor) <= i32::MAX,
{
    let top = ASTEROID_MAX_RADIUS as int;
    if factor >= 0 {
        assert(0 <= base * factor <= top * factor) by (nonlinear_arith)
            requires
                0 <= base <= top,
                factor >= 0,
        ;
    } else {
        assert(top * factor <= base * factor <= 0) by (nonlinear_arith)
            requires
                0 <= base <= top,
                factor < 0,
        ;
    }
}

/// Tells whether a level's settings can be played.
pub fn is_loadable(config: &LevelConfig) -> (ok: bool)
    ensures
        ok == loadable(*config),
{
    let sound = config.asteroid_speed_range.0 <= config.asteroid_speed_range.1
        && config.asteroid_speed_range.0 > i32::MIN;
    let fits = fits_scaled(ASTEROID_MAX_RADIUS, config.asteroid_size_mult);
    proof {
        if fits {
            assert forall|base: int|
                ASTEROID_MIN_RADIUS <= base <= ASTEROID_MAX_RADIUS implies i32::MIN
                <= #[trigger] scale_spec(base, config.asteroid_size_mult as int) <= i32::MAX by {
                lemma_largest_radius_decides(base, config.asteroid_size_mult as int);
            }
        } else {
            assert(!(i32::MIN <= scale_spec(
                ASTEROID_MAX_RADIUS as int,
                config.asteroid_size_mult as int,
            ) <= i32::MAX));
        }
    }
    sound && fits
}

} // verus!
