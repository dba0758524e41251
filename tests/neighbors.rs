use boids::neighbors::{relation, scan_neighbors, Flock, Relation, Sighting, SteeringPlan};

fn seen(within_avoid: bool) -> Sighting {
    Sighting { perceived: true, within_avoid, coincident: false }
}

fn unseen() -> Sighting {
    Sighting { perceived: false, within_avoid: false, coincident: false }
}

#[test]
fn relation_of_each_kind() {
    assert_eq!(relation(0, 1, Flock(2), Flock(2), seen(false)), Relation::Flockmate { repels: false });
    assert_eq!(relation(0, 1, Flock(2), Flock(2), seen(true)), Relation::Flockmate { repels: true });
    assert_eq!(relation(0, 1, Flock(2), Flock(3), seen(true)), Relation::Foreign);
    assert_eq!(relation(0, 1, Flock(2), Flock(2), unseen()), Relation::Ignored);
}

#[test]
fn relation_ignores_self_even_when_perceived() {
    assert_eq!(relation(4, 4, Flock(1), Flock(1), seen(true)), Relation::Ignored);
}

#[test]
fn relation_ignores_coincident_positions() {
    let s = Sighting { perceived: true, within_avoid: true, coincident: true };
    assert_eq!(relation(0, 1, Flock(0), Flock(0), s), Relation::Ignored);
    assert_eq!(relation(0, 1, Flock(0), Flock(5), s), Relation::Ignored);
}

#[test]
fn scan_excludes_observer() {
    // The observer's own sighting says "perceived at zero distance".
    let flocks = vec![Flock(0), Flock(0), Flock(1)];
    let sightings = vec![seen(true), seen(true), seen(false)];
    let n = scan_neighbors(0, &flocks, &sightings);
    assert_eq!(n.flockmates, vec![1]);
    assert_eq!(n.repellers, vec![1]);
    assert_eq!(n.foreigners, vec![2]);
}

#[test]
fn scan_sorts_population_in_order() {
    let flocks = vec![Flock(3), Flock(7), Flock(3), Flock(3), Flock(7), Flock(3)];
    let sightings = vec![seen(false), seen(true), unseen(), seen(true), seen(false), seen(false)];
    let n = scan_neighbors(2, &flocks, &sightings);
    assert_eq!(n.flockmates, vec![0, 3, 5]);
    assert_eq!(n.repellers, vec![3]);
    assert_eq!(n.foreigners, vec![1, 4]);
}

#[test]
fn scan_lone_boid_has_no_neighbors() {
    let n = scan_neighbors(0, &vec![Flock(0)], &vec![seen(true)]);
    assert!(n.flockmates.is_empty());
    assert!(n.repellers.is_empty());
    assert!(n.foreigners.is_empty());
    assert_eq!(n.plan(false), SteeringPlan { interflock: false, flocking: false, avoid_obstacle: false });
}

#[test]
fn two_flockmates_close_together_repel_each_other() {
    let flocks = vec![Flock(1), Flock(1)];
    let sightings = vec![seen(true), seen(true)];
    let a = scan_neighbors(0, &flocks, &sightings);
    let b = scan_neighbors(1, &flocks, &sightings);
    assert_eq!(a.flockmates, vec![1]);
    assert_eq!(a.repellers, vec![1]);
    assert_eq!(b.flockmates, vec![0]);
    assert_eq!(b.repellers, vec![0]);
}

#[test]
fn two_flockmates_without_avoidance_only_flock() {
    // An avoidance radius of zero: nothing is within it.
    let flocks = vec![Flock(1), Flock(1)];
    let sightings = vec![seen(false), seen(false)];
    let a = scan_neighbors(0, &flocks, &sightings);
    assert_eq!(a.flockmates, vec![1]);
    assert!(a.repellers.is_empty());
    assert!(a.foreigners.is_empty());
    assert_eq!(a.plan(false), SteeringPlan { interflock: false, flocking: true, avoid_obstacle: false });
}

#[test]
fn plan_follows_neighbors_and_ray() {
    let flocks = vec![Flock(0), Flock(1)];
    let sightings = vec![unseen(), seen(false)];
    let n = scan_neighbors(0, &flocks, &sightings);
    assert_eq!(n.plan(true), SteeringPlan { interflock: true, flocking: false, avoid_obstacle: true });
}
