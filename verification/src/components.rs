use crate::physics::Vec2;
use vstd::prelude::*;

verus! {

/// Who fired a bullet.
#[derive(Clone, Copy, Debug, PartialEq, Eq, Structural)]
pub enum BulletOwner {
    Player,
    Ufo,
}

/// The colours that entities and particles are drawn in.
#[derive(Clone, Copy, Debug, PartialEq, Eq, Structural)]
pub enum Tint {
    White,
    Red,
    Orange,
    Yellow,
    Green,
    SkyBlue,
    Blue,
    Purple,
    Pink,
    Gray,
}

/// The player's ship.
#[derive(Clone, Copy, Debug, PartialEq, Eq, Structural)]
pub struct Player {
    pub pos: Vec2,
    pub vel: Vec2,
    /// Unit vector of the heading, scaled by `UNIT`.
    pub heading: Vec2,
    /// Collision radius.
    pub radius: i32,
    pub active: bool,
    /// Number of sides of the ship's polygon.
    pub sides: u8,
    pub color: Tint,
    /// While set, nothing can hit the ship.
    pub invulnerable: bool,
    /// Milliseconds of invulnerability that are left.
    pub invulnerable_timer: i32,
}

/// A projectile.
#[derive(Clone, Copy, Debug, PartialEq, Eq, Structural)]
pub struct Bullet {
    pub pos: Vec2,
    pub vel: Vec2,
    /// Milliseconds before the bullet disappears.
    pub lifetime: i32,
    pub active: bool,
    pub owner: BulletOwner,
}

/// An asteroid.
#[derive(Clone, Copy, Debug, PartialEq, Eq, Structural)]
pub struct Asteroid {
    pub pos: Vec2,
    pub vel: Vec2,
    pub radius: i32,
    pub active: bool,
    /// Number of sides of the polygon it is drawn as.
    pub sides: u8,
}

/// An enemy saucer.
#[derive(Clone, Copy, Debug, PartialEq, Eq, Structural)]
pub struct Ufo {
    pub pos: Vec2,
    pub vel: Vec2,
    pub radius: i32,
    pub active: bool,
    /// Milliseconds since its last shot.
    pub shoot_timer: i32,
    /// Milliseconds since it last changed direction.
    pub change_dir_timer: i32,
}

} // verus!
