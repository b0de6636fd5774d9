//! The swarm: a fixed number of particles, created once.

use crate::particle::Particle;
use vstd::prelude::*;

verus! {

/// How many particles a request for `count` of them yields: a negative
/// request yields none.
pub open spec fn swarm_size(count: int) -> nat {
    if count > 0 {
        count as nat
    } else {
        0
    }
}

/// Creates `count` particles for a `screen_width` by `screen_height` screen,
/// in order of creation. A `count` of zero or less gives an empty swarm, and
/// then the screen size is not looked at.
pub fn populate(count: i32, screen_width: i32, screen_height: i32) -> (swarm: Vec<Particle>)
    requires
        count > 0 ==> screen_width > 0 && screen_height > 0,
    ensures
        swarm@.len() == swarm_size(count as int),
        forall|i: int|
            0 <= i < swarm@.len() ==> (#[trigger] swarm@[i]).newly_spawned(
                screen_width as int,
                screen_height as int,
            ),
{
    let mut swarm: Vec<Particle> = Vec::new();
    let mut made: i32 = 0;
    while made < count
        invariant
            0 <= made <= swarm_size(count as int),
            count > 0 ==> screen_width > 0 && screen_height > 0,
            swarm@.len() == made,
            forall|i: int|
                0 <= i < swarm@.len() ==> (#[trigger] swarm@[i]).newly_spawned(
                    screen_width as int,
                    screen_height as int,
                ),
        decreases count - made,
    {
        swarm.push(Particle::new(screen_width, screen_height));
        made = made + 1;
    }
    swarm
}

} // verus!
