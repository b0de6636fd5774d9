//! A particle as it is created: a pixel position, a velocity in hundredths
//! of a pixel per frame, and a colour.

use crate::random::{draw_below, draw_through};
use vstd::prelude::*;

verus! {

/// Velocity components are stored in units of `1 / VELOCITY_SCALE` pixels
/// per frame.
pub const VELOCITY_SCALE: i32 = 100;

/// The largest magnitude, in stored units, of a velocity component of a new
/// particle: one pixel per frame.
pub const MAX_SPAWN_SPEED: i32 = 100;

/// The opacity of a new particle, out of 255.
pub const SPAWN_ALPHA: u8 = 100;

/// An RGBA colour, eight bits per channel.
#[derive(Clone, Copy, Debug, PartialEq, Eq, Structural)]
pub struct Rgba {
    pub r: u8,
    pub g: u8,
    pub b: u8,
    pub a: u8,
}

/// A particle at the moment it enters the simulation.
#[derive(Clone, Copy, Debug, PartialEq, Eq, Structural)]
pub struct Particle {
    /// Horizontal position, in whole pixels.
    pub x: i32,
    /// Vertical position, in whole pixels.
    pub y: i32,
    /// Horizontal velocity, in hundredths of a pixel per frame.
    pub vx: i32,
    /// Vertical velocity, in hundredths of a pixel per frame.
    pub vy: i32,
    pub color: Rgba,
}

/// The colour every new particle gets: black, a little under half opaque.
pub open spec fn spawn_color() -> Rgba {
    Rgba { r: 0, g: 0, b: 0, a: SPAWN_ALPHA }
}

impl Particle {
    /// The position lies on the screen: `0 <= x < width`, `0 <= y < height`.
    pub open spec fn on_screen(&self, width: int, height: int) -> bool {
        &&& 0 <= self.x < width
        &&& 0 <= self.y < height
    }

    /// Neither velocity component exceeds one pixel per frame in magnitude.
    pub open spec fn at_spawn_speed(&self) -> bool {
        &&& -MAX_SPAWN_SPEED <= self.vx <= MAX_SPAWN_SPEED
        &&& -MAX_SPAWN_SPEED <= self.vy <= MAX_SPAWN_SPEED
    }

    /// What holds of every particle that `new` can return for a screen of
    /// the given size.
    pub open spec fn newly_spawned(&self, width: int, height: int) -> bool {
        &&& self.on_screen(width, height)
        &&& self.at_spawn_speed()
        &&& self.color == spawn_color()
    }

    /// A particle with exactly the given position, velocity and colour.
    pub fn with_values(x: i32, y: i32, vx: i32, vy: i32, color: Rgba) -> (p: Particle)
        ensures
            p == (Particle { x, y, vx, vy, color }),
    {
        Particle { x, y, vx, vy, color }
    }

    /// The new particle that four random draws stand for: position `(x, y)`,
    /// velocity `(vx, vy)`, and the spawn colour.
    pub fn from_draws(x: i32, y: i32, vx: i32, vy: i32) -> (p: Particle)
        ensures
            p == (Particle { x, y, vx, vy, color: spawn_color() }),
    {
        Particle { x, y, vx, vy, color: Rgba { r: 0, g: 0, b: 0, a: SPAWN_ALPHA } }
    }

    /// A particle at a random pixel of a `screen_width` by `screen_height`
    /// screen, with each velocity component a random number of hundredths
    /// between minus one and one pixel per frame.
    ///
    /// The position and velocity are random, so the contract states what
    /// holds of every outcome.
    pub fn new(screen_width: i32, screen_height: i32) -> (p: Particle)
        requires
            screen_width > 0,
            screen_height > 0,
        ensures
            p.newly_spawned(screen_width as int, screen_height as int),
    {
        let mut rng = rand::thread_rng();
        let x: i32 = draw_below(&mut rng, 0, screen_width);
        let y: i32 = draw_below(&mut rng, 0, screen_height);
        let vx: i32 = draw_through(&mut rng, -MAX_SPAWN_SPEED, MAX_SPAWN_SPEED);
        let vy: i32 = draw_through(&mut rng, -MAX_SPAWN_SPEED, MAX_SPAWN_SPEED);
        Particle::from_draws(x, y, vx, vy)
    }
}

} // verus!
