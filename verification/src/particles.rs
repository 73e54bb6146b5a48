use crate::components::Tint;
use crate::physics::{fits_scaled, lemma_scale_within, scale, scale_spec, Vec2};
use crate::random::sample_between;
use vstd::prelude::*;

verus! {

/// Least number of particles in a batch.
pub const MIN_BATCH: usize = 1;

/// Greatest number of particles in a batch.
pub const MAX_BATCH: usize = 250;

/// Least life, in milliseconds, against which a particle's fading is measured.
pub const MIN_MAX_LIFE: i32 = 10;

/// Full opacity, in thousandths.
pub const OPAQUE: i32 = 1000;

/// The state in which a particle starts.
#[derive(Clone, Copy, Debug, PartialEq, Eq, Structural)]
pub struct ParticleInit {
    pub pos: Vec2,
    /// Displacement per second.
    pub vel: Vec2,
    /// Milliseconds to live.
    pub life: i32,
    pub color: Tint,
    pub size: i32,
}

/// A live particle.
#[derive(Clone, Copy, Debug, PartialEq, Eq, Structural)]
pub struct Particle {
    pub pos: Vec2,
    /// Displacement per second.
    pub vel: Vec2,
    /// Milliseconds left to live.
    pub life: i32,
    /// Life against which fading is measured.
    pub max_life: i32,
    pub color: Tint,
    pub size: i32,
}

/// A request for a burst of particles.
#[derive(Clone, Copy, Debug, PartialEq, Eq, Structural)]
pub struct SpawnRequest {
    pub pos: Vec2,
    pub color: Tint,
    /// Number of particles asked for; a batch holds between `MIN_BATCH` and
    /// `MAX_BATCH`.
    pub count: usize,
    /// Upper end of the particles' speed, per second.
    pub speed: i32,
    /// Upper end of the particles' life, in milliseconds.
    pub life: i32,
    pub size: i32,
}

/// `value` raised to `min` if it is below, then lowered to `max` if it is above.
pub open spec fn clamp_count_spec(value: usize, min: usize, max: usize) -> usize {
    let raised = if value < min { min } else { value };
    if raised > max { max } else { raised }
}

/// The particle that an initial state becomes.
pub open spec fn particle_of(init: ParticleInit) -> Particle {
    Particle {
        pos: init.pos,
        vel: init.vel,
        life: init.life,
        max_life: if init.life < MIN_MAX_LIFE { MIN_MAX_LIFE } else { init.life },
        color: init.color,
        size: init.size,
    }
}

/// The particle after `dt` milliseconds.
pub open spec fn advanced(p: Particle, dt: i32) -> Particle {
    Particle {
        pos: Vec2 {
            x: (p.pos.x + scale_spec(p.vel.x as int, dt as int)) as i32,
            y: (p.pos.y + scale_spec(p.vel.y as int, dt as int)) as i32,
        },
        life: (p.life - dt) as i32,
        ..p
    }
}

/// Whether the particle after `dt` milliseconds can be represented.
pub open spec fn can_advance(p: Particle, dt: i32) -> bool {
    &&& i32::MIN <= scale_spec(p.vel.x as int, dt as int) <= i32::MAX
    &&& i32::MIN <= scale_spec(p.vel.y as int, dt as int) <= i32::MAX
    &&& i32::MIN <= p.pos.x + scale_spec(p.vel.x as int, dt as int) <= i32::MAX
    &&& i32::MIN <= p.pos.y + scale_spec(p.vel.y as int, dt as int) <= i32::MAX
    &&& i32::MIN <= p.life - dt <= i32::MAX
}

/// A particle that has life left.
pub open spec fn alive(p: Particle) -> bool {
    p.life > 0
}

/// Opacity in thousandths: the part of its life that a particle has left, kept
/// between nothing and `OPAQUE`.
pub open spec fn alpha_spec(p: Particle) -> int {
    if p.life <= 0 {
        0
    } else if p.life >= p.max_life {
        OPAQUE as int
    } else {
        p.life * 1000 / (p.max_life as int)
    }
}

/// A request that a batch can be drawn for: each range of draws holds a value.
pub open spec fn drawable(req: SpawnRequest) -> bool {
    &&& req.speed >= 1
    &&& req.life >= 1
    &&& req.size >= 1
    &&& req.size * 12 / 10 <= i32::MAX
}

/// A heading: a vector whose coordinates are at most one unit in magnitude.
pub open spec fn is_heading(dir: Vec2) -> bool {
    -1000 <= dir.x <= 1000 && -1000 <= dir.y <= 1000
}

/// The initial state made of a request, a heading and one set of draws.
pub open spec fn particle_from_draws(
    req: SpawnRequest,
    dir: Vec2,
    speed: i32,
    life: i32,
    size: i32,
) -> ParticleInit {
    ParticleInit {
        pos: req.pos,
        vel: Vec2 {
            x: scale_spec(dir.x as int, speed as int) as i32,
            y: scale_spec(dir.y as int, speed as int) as i32,
        },
        life,
        color: req.color,
        size,
    }
}

/// What holds of every particle drawn for a request along a heading.
pub open spec fn drawn_for(init: ParticleInit, req: SpawnRequest, dir: Vec2) -> bool {
    exists|speed: i32, life: i32, size: i32|
        {
            &&& req.speed / 2 <= speed < req.speed
            &&& req.life * 6 / 10 <= life < req.life
            &&& req.size * 6 / 10 <= size < req.size * 12 / 10
            &&& init == #[trigger] particle_from_draws(req, dir, speed, life, size)
        }
}

/// Keeps a count between two bounds.
pub fn clamp_count(value: usize, min: usize, max: usize) -> (clamped: usize)
    ensures
        clamped == clamp_count_spec(value, min, max),
        min <= max ==> min <= clamped <= max,
        min <= value <= max ==> clamped == value,
{
    let raised = if value < min { min } else { value };
    if raised > max {
        max
    } else {
        raised
    }
}

/// Number of particles in the batch that answers a request.
pub fn batch_size(req: &SpawnRequest) -> (n: usize)
    ensures
        n == clamp_count_spec(req.count, MIN_BATCH, MAX_BATCH),
        MIN_BATCH <= n <= MAX_BATCH,
{
    clamp_count(req.count, MIN_BATCH, MAX_BATCH)
}

/// Builds a particle's initial state from a heading and one set of draws.
pub fn make_particle(req: &SpawnRequest, dir: Vec2, speed: i32, life: i32, size: i32) -> (init:
    ParticleInit)
    requires
        is_heading(dir),
        speed > i32::MIN,
    ensures
        init == particle_from_draws(*req, dir, speed, life, size),
{
    proof {
        let bound = if speed >= 0 { speed as int } else { -speed as int };
        lemma_scale_within(speed as int, dir.x as int, bound);
        lemma_scale_within(speed as int, dir.y as int, bound);
    }
    ParticleInit {
        pos: req.pos,
        vel: Vec2 { x: scale(dir.x, speed), y: scale(dir.y, speed) },
        life,
        color: req.color,
        size,
    }
}

/// Draws one particle for a request along a heading.
pub fn generate_particle(req: &SpawnRequest, dir: Vec2) -> (init: ParticleInit)
    requires
        drawable(*req),
        is_heading(dir),
    ensures
        drawn_for(init, *req, dir),
{
    let speed = sample_between(req.speed / 2, req.speed);
    let life = sample_between(((req.life as i64) * 6 / 10) as i32, req.life);
    let size = sample_between(
        ((req.size as i64) * 6 / 10) as i32,
        ((req.size as i64) * 12 / 10) as i32,
    );
    let init = make_particle(req, dir, speed, life, size);
    assert(init == particle_from_draws(*req, dir, speed, life, size));
    init
}

/// Draws the batch that answers a request, one particle along each heading.
pub fn generate_batch(req: &SpawnRequest, dirs: &Vec<Vec2>) -> (batch: Vec<ParticleInit>)
    requires
        drawable(*req),
        dirs@.len() == clamp_count_spec(req.count, MIN_BATCH, MAX_BATCH),
        forall|i: int| 0 <= i < dirs@.len() ==> is_heading(#[trigger] dirs@[i]),
    ensures
        batch@.len() == clamp_count_spec(req.count, MIN_BATCH, MAX_BATCH),
        forall|i: int| 0 <= i < batch@.len() ==> drawn_for(#[trigger] batch@[i], *req, dirs@[i]),
{
    let count = batch_size(req);
    let mut batch: Vec<ParticleInit> = Vec::with_capacity(count);
    let mut k: usize = 0;
    while k < count
        invariant
            drawable(*req),
            count == dirs@.len(),
            k <= count,
            batch@.len() == k,
            forall|i: int| 0 <= i < dirs@.len() ==> is_heading(#[trigger] dirs@[i]),
            forall|i: int| 0 <= i < batch@.len() ==> drawn_for(#[trigger] batch@[i], *req, dirs@[i]),
        decreases count - k,
    {
        let init = generate_particle(req, dirs[k]);
        batch.push(init);
        k += 1;
    }
    batch
}

/// The live particles.
pub struct ParticleSystem {
    particles: Vec<Particle>,
}

impl View for ParticleSystem {
    type V = Seq<Particle>;

    closed spec fn view(&self) -> Seq<Particle> {
        self.particles@
    }
}

impl Particle {
    /// The opacity at which the particle is drawn, in thousandths.
    pub fn alpha(&self) -> (a: i32)
        requires
            self.max_life > 0,
        ensures
            a == alpha_spec(*self),
            0 <= a <= OPAQUE,
    {
        if self.life <= 0 {
            0
        } else if self.life >= self.max_life {
            OPAQUE
        } else {
            let part: i64 = (self.life as i64) * 1000 / (self.max_life as i64);
            assert(part <= 1000) by (nonlinear_arith)
                requires
                    0 < self.life < self.max_life,
                    part == self.life * 1000 / (self.max_life as int),
            ;
            assert(part >= 0) by (nonlinear_arith)
                requires
                    0 < self.life < self.max_life,
                    part == self.life * 1000 / (self.max_life as int),
            ;
            part as i32
        }
    }
}

/// Tells whether a batch can be drawn for a request.
pub fn is_drawable(req: &SpawnRequest) -> (ok: bool)
    ensures
        ok == drawable(*req),
{
    req.speed >= 1 && req.life >= 1 && req.size >= 1 && (req.size as i64) * 12 / 10 <= i32::MAX as i64
}

/// Tells whether a particle can be moved on by `dt` milliseconds.
pub fn check_advance(p: &Particle, dt: i32) -> (ok: bool)
    ensures
        ok == can_advance(*p, dt),
{
    if !(fits_scaled(p.vel.x, dt) && fits_scaled(p.vel.y, dt)) {
        return false;
    }
    let x = p.pos.x as i64 + scale(p.vel.x, dt) as i64;
    let y = p.pos.y as i64 + scale(p.vel.y, dt) as i64;
    let life = p.life as i64 - dt as i64;
    i32::MIN as i64 <= x && x <= i32::MAX as i64 && i32::MIN as i64 <= y && y <= i32::MAX as i64
        && i32::MIN as i64 <= life && life <= i32::MAX as i64
}

impl ParticleSystem {
    /// Tells whether every particle can be moved on by `dt` milliseconds.
    pub fn can_update(&self, dt: i32) -> (ok: bool)
        ensures
            ok == (forall|i: int| 0 <= i < self@.len() ==> can_advance(#[trigger] self@[i], dt)),
    {
        let mut k: usize = 0;
        while k < self.particles.len()
            invariant
                k <= self@.len(),
                forall|i: int| 0 <= i < k ==> can_advance(#[trigger] self@[i], dt),
            decreases self@.len() - k,
        {
            if !check_advance(&self.particles[k], dt) {
                assert(!can_advance(self@[k as int], dt));
                return false;
            }
            k += 1;
        }
        true
    }

    /// Every particle fades against a life of at least `MIN_MAX_LIFE`.
    pub open spec fn wf(&self) -> bool {
        forall|i: int| 0 <= i < self@.len() ==> (#[trigger] self@[i]).max_life >= MIN_MAX_LIFE
    }

    /// A system without particles.
    pub fn new() -> (system: ParticleSystem)
        ensures
            system@ == Seq::<Particle>::empty(),
            system.wf(),
    {
        ParticleSystem { particles: Vec::new() }
    }

    /// Number of live particles.
    pub fn len(&self) -> (n: usize)
        ensures
            n == self@.len(),
    {
        self.particles.len()
    }

    /// The live particle at `index`.
    pub fn get(&self, index: usize) -> (p: Particle)
        requires
            index < self@.len(),
        ensures
            p == self@[index as int],
    {
        self.particles[index]
    }

    /// Adds the particles of a batch behind those that are live, in the
    /// batch's order.
    pub fn spawn_batch(&mut self, batch: Vec<ParticleInit>)
        requires
            old(self).wf(),
        ensures
            final(self)@ == old(self)@ + batch@.map_values(|init: ParticleInit| particle_of(init)),
            final(self).wf(),
    {
        let ghost before = self@;
        let mut k: usize = 0;
        while k < batch.len()
            invariant
                k <= batch@.len(),
                self.wf(),
                self@ == before + batch@.take(k as int).map_values(
                    |init: ParticleInit| particle_of(init),
                ),
            decreases batch@.len() - k,
        {
            let init = batch[k];
            let ghost prev = self@;
            self.particles.push(
                Particle {
                    pos: init.pos,
                    vel: init.vel,
                    life: init.life,
                    max_life: if init.life < MIN_MAX_LIFE { MIN_MAX_LIFE } else { init.life },
                    color: init.color,
                    size: init.size,
                },
            );
            k += 1;
            assert(self@ =~= before + batch@.take(k as int).map_values(
                |init: ParticleInit| particle_of(init),
            ));
        }
        assert(batch@.take(k as int) =~= batch@);
    }

    /// Moves every particle on by `dt` milliseconds and drops those whose life
    /// has run out.
    pub fn update(&mut self, dt: i32)
        requires
            old(self).wf(),
            forall|i: int| 0 <= i < old(self)@.len() ==> can_advance(#[trigger] old(self)@[i], dt),
        ensures
            final(self)@ == old(self)@.map_values(|p: Particle| advanced(p, dt)).filter(
                |p: Particle| alive(p),
            ),
            final(self).wf(),
    {
        let ghost before = self@;
        let ghost moved = before.map_values(|p: Particle| advanced(p, dt));
        let mut kept: Vec<Particle> = Vec::new();
        let mut k: usize = 0;
        while k < self.particles.len()
            invariant
                self@ == before,
                moved == before.map_values(|p: Particle| advanced(p, dt)),
                k <= before.len(),
                forall|i: int| 0 <= i < before.len() ==> can_advance(#[trigger] before[i], dt),
                forall|i: int| 0 <= i < before.len() ==> (#[trigger] before[i]).max_life >= MIN_MAX_LIFE,
                kept@ == moved.take(k as int).filter(|p: Particle| alive(p)),
                forall|i: int| 0 <= i < kept@.len() ==> (#[trigger] kept@[i]).max_life >= MIN_MAX_LIFE,
            decreases before.len() - k,
        {
            let p = self.particles[k];
            assert(can_advance(before[k as int], dt));
            let q = Particle {
                pos: Vec2 { x: p.pos.x + scale(p.vel.x, dt), y: p.pos.y + scale(p.vel.y, dt) },
                life: p.life - dt,
                ..p
            };
            assert(q == moved[k as int]);
            proof {
                assert(moved.take(k + 1).drop_last() =~= moved.take(k as int));
                assert(moved.take(k + 1).last() == q);
                reveal(Seq::filter);
            }
            if q.life > 0 {
                kept.push(q);
            }
            k += 1;
        }
        assert(moved.take(k as int) =~= moved);
        self.particles = kept;
    }
}

/// The live particles after the batches have been merged in, one after the
/// other in the order in which they arrived.
pub open spec fn merged(live: Seq<Particle>, batches: Seq<Seq<ParticleInit>>) -> Seq<Particle>
    decreases batches.len(),
{
    if batches.len() == 0 {
        live
    } else {
        merged(live, batches.drop_last()) + batches.last().map_values(
            |init: ParticleInit| particle_of(init),
        )
    }
}

/// Number of particles in all the batches.
pub open spec fn total_len(batches: Seq<Seq<ParticleInit>>) -> nat
    decreases batches.len(),
{
    if batches.len() == 0 {
        0
    } else {
        total_len(batches.drop_last()) + batches.last().len()
    }
}

/// Merging batches loses nothing, doubles nothing and keeps the order: the
/// particles that were live stay in front, and behind them stands, for each
/// batch in turn, one particle for each of its initial states, in the
/// batch's order.
pub proof fn lemma_merge_complete(live: Seq<Particle>, batches: Seq<Seq<ParticleInit>>)
    ensures
        merged(live, batches).len() == live.len() + total_len(batches),
        forall|i: int| 0 <= i < live.len() ==> merged(live, batches)[i] == live[i],
        forall|b: int, i: int|
            0 <= b < batches.len() && 0 <= i < batches[b].len() ==> {
                &&& live.len() + total_len(batches.take(b)) + i < merged(live, batches).len()
                &&& merged(live, batches)[live.len() + total_len(batches.take(b)) + i]
                    == particle_of(#[trigger] batches[b][i])
            },
    decreases batches.len(),
{
    if batches.len() > 0 {
        let front = batches.drop_last();
        let n = batches.len() - 1;
        lemma_merge_complete(live, front);
        assert(batches.take(n) =~= front);
        assert forall|b: int, i: int|
            0 <= b < batches.len() && 0 <= i < batches[b].len() implies {
            &&& live.len() + total_len(batches.take(b)) + i < merged(live, batches).len()
            &&& merged(live, batches)[live.len() + total_len(batches.take(b)) + i] == particle_of(
                #[trigger] batches[b][i],
            )
        } by {
            if b < n {
                assert(front.take(b) =~= batches.take(b));
                assert(front[b] == batches[b]);
                assert(merged(live, front)[live.len() + total_len(front.take(b)) + i]
                    == particle_of(front[b][i]));
            }
        }
    }
}

} // verus!
