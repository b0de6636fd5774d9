use particle_system::particle::Rgba;
use particle_system::swarm::populate;

#[test]
fn a_hundred_thousand_particles_start_on_screen() {
    let swarm = populate(100_000, 800, 800);
    assert_eq!(swarm.len(), 100_000);
    for p in &swarm {
        assert!(0 <= p.x && p.x < 800);
        assert!(0 <= p.y && p.y < 800);
        assert!(-100 <= p.vx && p.vx <= 100);
        assert!(-100 <= p.vy && p.vy <= 100);
        assert_eq!(p.color, Rgba { r: 0, g: 0, b: 0, a: 100 });
    }
}

#[test]
fn populate_makes_exactly_the_count_asked_for() {
    assert_eq!(populate(1, 800, 800).len(), 1);
    assert_eq!(populate(7, 800, 600).len(), 7);
    assert_eq!(populate(1_234, 1, 1).len(), 1_234);
}

#[test]
fn populate_with_zero_count_is_empty() {
    assert!(populate(0, 800, 800).is_empty());
}

#[test]
fn populate_with_negative_count_is_empty() {
    assert!(populate(-1, 800, 800).is_empty());
    assert!(populate(i32::MIN, 800, 800).is_empty());
}

#[test]
fn populate_without_particles_ignores_the_screen() {
    assert!(populate(0, 0, 0).is_empty());
    assert!(populate(-3, -800, 0).is_empty());
}

#[test]
fn populate_on_a_narrow_screen() {
    for p in &populate(5_000, 2, 3) {
        assert!(p.x == 0 || p.x == 1);
        assert!(p.y == 0 || p.y == 1 || p.y == 2);
    }
}

#[test]
fn populate_fills_the_swarm_with_different_particles() {
    let swarm = populate(1_000, 800, 800);
    let first = swarm[0];
    assert!(swarm.iter().any(|p| *p != first));
}
