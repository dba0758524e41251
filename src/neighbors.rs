//! The neighbour scan: which boids act on an observing boid, and how.
//!
//! The host measures, for one observer and every boid of the population
//! (the observer included), whether the observer perceives it, whether it
//! lies within the avoidance radius, and whether the two positions coincide.
//! The scan turns those measurements into the lists of boids whose positions
//! and headings the host then sums.
use vstd::prelude::*;

verus! {

/// The flock a boid belongs to.
#[derive(Clone, Copy, Debug, PartialEq, Eq, Structural)]
pub struct Flock(pub usize);

/// What the host measured of one other boid, as seen by an observer.
#[derive(Clone, Copy, Debug, PartialEq, Eq, Structural)]
pub struct Sighting {
    /// The other boid lies within the observer's radius and vision cone.
    pub perceived: bool,
    /// The other boid lies within the avoidance radius.
    pub within_avoid: bool,
    /// The two positions are too close for an inverse-square term.
    pub coincident: bool,
}

/// How another boid acts on an observer.
#[derive(Clone, Copy, Debug, PartialEq, Eq, Structural)]
pub enum Relation {
    /// It contributes nothing.
    Ignored,
    /// A perceived boid of the same flock; `repels` when it is close enough
    /// to push the observer away.
    Flockmate { repels: bool },
    /// A perceived boid of another flock.
    Foreign,
}

/// How boid `other` of flock `theirs` acts on boid `observer` of flock `own`:
/// unseen, coincident and self sightings count for nothing.
pub open spec fn relation_spec(observer: int, other: int, own: Flock, theirs: Flock, s: Sighting) -> Relation {
    if observer == other || !s.perceived || s.coincident {
        Relation::Ignored
    } else if own == theirs {
        Relation::Flockmate { repels: s.within_avoid }
    } else {
        Relation::Foreign
    }
}

/// How the boid at index `other` acts on the boid at index `observer`.
pub fn relation(observer: usize, other: usize, own: Flock, theirs: Flock, s: Sighting) -> (r: Relation)
    ensures
        r == relation_spec(observer as int, other as int, own, theirs, s),
{
    if observer == other || !s.perceived || s.coincident {
        Relation::Ignored
    } else if own == theirs {
        Relation::Flockmate { repels: s.within_avoid }
    } else {
        Relation::Foreign
    }
}

/// The relation of boid `i` to `observer` within a population.
pub open spec fn relation_at(observer: int, flocks: Seq<Flock>, sightings: Seq<Sighting>, i: int) -> Relation {
    relation_spec(observer, i, flocks[observer], flocks[i], sightings[i])
}

/// Boid `i` is a perceived member of the observer's flock.
pub open spec fn is_flockmate(observer: int, flocks: Seq<Flock>, sightings: Seq<Sighting>, i: int) -> bool {
    relation_at(observer, flocks, sightings, i) is Flockmate
}

/// Boid `i` is a flockmate within the avoidance radius.
pub open spec fn is_repeller(observer: int, flocks: Seq<Flock>, sightings: Seq<Sighting>, i: int) -> bool {
    relation_at(observer, flocks, sightings, i) == (Relation::Flockmate { repels: true })
}

/// Boid `i` is a perceived member of another flock.
pub open spec fn is_foreigner(observer: int, flocks: Seq<Flock>, sightings: Seq<Sighting>, i: int) -> bool {
    relation_at(observer, flocks, sightings, i) == Relation::Foreign
}

/// `v` lists, in increasing order and once each, exactly the indices below
/// `n` that satisfy `keep`.
pub open spec fn lists_exactly(v: Seq<usize>, n: int, keep: spec_fn(int) -> bool) -> bool {
    &&& forall|a: int, b: int| 0 <= a < b < v.len() ==> v[a] < v[b]
    &&& forall|k: int| 0 <= k < v.len() ==> v[k] < n && keep(v[k] as int)
    &&& forall|i: int| 0 <= i < n && #[trigger] keep(i) ==> v.contains(i as usize)
}

/// Extending the scan by index `i` keeps the lists exact, whether `i` was
/// appended or not.
proof fn lemma_lists_extend(v0: Seq<usize>, v1: Seq<usize>, i: int, keep: spec_fn(int) -> bool)
    requires
        0 <= i < usize::MAX + 1,
        lists_exactly(v0, i, keep),
        keep(i) ==> v1 == v0.push(i as usize),
        !keep(i) ==> v1 == v0,
    ensures
        lists_exactly(v1, i + 1, keep),
{
    assert forall|k: int| 0 <= k < i + 1 && #[trigger] keep(k) implies v1.contains(k as usize) by {
        if k < i {
            let j = choose|j: int| 0 <= j < v0.len() && v0[j] == k as usize;
            assert(v1[j] == v0[j]);
        } else {
            assert(v1[v0.len() as int] == i as usize);
        }
    }
}

/// The boids that act on one observer, by index into the population.
pub struct Neighbors {
    /// Perceived boids of the observer's flock.
    pub flockmates: Vec<usize>,
    /// The flockmates within the avoidance radius.
    pub repellers: Vec<usize>,
    /// Perceived boids of other flocks.
    pub foreigners: Vec<usize>,
}

/// Scans the whole population for the boids that act on `observer`.
///
/// `flocks[i]` is the flock of boid `i` and `sightings[i]` what the host
/// measured of boid `i` from the observer. The observer's own entry is never
/// listed, whatever its sighting says.
pub fn scan_neighbors(observer: usize, flocks: &Vec<Flock>, sightings: &Vec<Sighting>) -> (r: Neighbors)
    requires
        observer < flocks.len(),
        flocks.len() == sightings.len(),
    ensures
        lists_exactly(r.flockmates@, flocks.len() as int, |i: int| is_flockmate(observer as int, flocks@, sightings@, i)),
        lists_exactly(r.repellers@, flocks.len() as int, |i: int| is_repeller(observer as int, flocks@, sightings@, i)),
        lists_exactly(r.foreigners@, flocks.len() as int, |i: int| is_foreigner(observer as int, flocks@, sightings@, i)),
{
    let ghost fl = |i: int| is_flockmate(observer as int, flocks@, sightings@, i);
    let ghost rp = |i: int| is_repeller(observer as int, flocks@, sightings@, i);
    let ghost fo = |i: int| is_foreigner(observer as int, flocks@, sightings@, i);
    let own = flocks[observer];
    let mut flockmates: Vec<usize> = Vec::new();
    let mut repellers: Vec<usize> = Vec::new();
    let mut foreigners: Vec<usize> = Vec::new();
    let n = flocks.len();
    let mut i: usize = 0;
    while i < n
        invariant
            n == flocks.len(),
            n == sightings.len(),
            observer < n,
            own == flocks@[observer as int],
            i <= n,
            lists_exactly(flockmates@, i as int, fl),
            lists_exactly(repellers@, i as int, rp),
            lists_exactly(foreigners@, i as int, fo),
            fl == (|k: int| is_flockmate(observer as int, flocks@, sightings@, k)),
            rp == (|k: int| is_repeller(observer as int, flocks@, sightings@, k)),
            fo == (|k: int| is_foreigner(observer as int, flocks@, sightings@, k)),
        decreases n - i,
    {
        let ghost fm0 = flockmates@;
        let ghost rp0 = repellers@;
        let ghost fo0 = foreigners@;
        let rel = relation(observer, i, own, flocks[i], sightings[i]);
        match rel {
            Relation::Ignored => {},
            Relation::Flockmate { repels } => {
                flockmates.push(i);
                if repels {
                    repellers.push(i);
                }
            },
            Relation::Foreign => {
                foreigners.push(i);
            },
        }
        proof {
            lemma_lists_extend(fm0, flockmates@, i as int, fl);
            lemma_lists_extend(rp0, repellers@, i as int, rp);
            lemma_lists_extend(fo0, foreigners@, i as int, fo);
        }
        i = i + 1;
    }
    Neighbors { flockmates, repellers, foreigners }
}

/// The steering terms that act on a boid this tick, besides the pull toward
/// the world origin, which always acts.
#[derive(Clone, Copy, Debug, PartialEq, Eq, Structural)]
pub struct SteeringPlan {
    /// Separation from other flocks, averaged over the foreigners.
    pub interflock: bool,
    /// Separation, cohesion and alignment, averaged over the flockmates.
    pub flocking: bool,
    /// Turning toward a clear heading.
    pub avoid_obstacle: bool,
}

impl Neighbors {
    /// The steering terms that apply to the observer, given whether the ray
    /// along its heading meets an obstacle.
    pub fn plan(&self, heading_blocked: bool) -> (p: SteeringPlan)
        ensures
            p.interflock == (self.foreigners.len() > 0),
            p.flocking == (self.flockmates.len() > 0),
            p.avoid_obstacle == heading_blocked,
    {
        SteeringPlan {
            interflock: self.foreigners.len() > 0,
            flocking: self.flockmates.len() > 0,
            avoid_obstacle: heading_blocked,
        }
    }
}

/// A boid never acts on itself: whatever the observer's own sighting says,
/// lists that a scan describes exactly do not hold the observer.
pub proof fn lemma_observer_not_listed(
    observer: usize,
    flocks: Seq<Flock>,
    sightings: Seq<Sighting>,
    flockmates: Seq<usize>,
    repellers: Seq<usize>,
    foreigners: Seq<usize>,
)
    requires
        observer < flocks.len(),
        flocks.len() == sightings.len(),
        lists_exactly(flockmates, flocks.len() as int, |i: int| is_flockmate(observer as int, flocks, sightings, i)),
        lists_exactly(repellers, flocks.len() as int, |i: int| is_repeller(observer as int, flocks, sightings, i)),
        lists_exactly(foreigners, flocks.len() as int, |i: int| is_foreigner(observer as int, flocks, sightings, i)),
    ensures
        !flockmates.contains(observer),
        !repellers.contains(observer),
        !foreigners.contains(observer),
{
    let fl = |i: int| is_flockmate(observer as int, flocks, sightings, i);
    let rp = |i: int| is_repeller(observer as int, flocks, sightings, i);
    let fo = |i: int| is_foreigner(observer as int, flocks, sightings, i);
    assert(relation_at(observer as int, flocks, sightings, observer as int) == Relation::Ignored);
    if flockmates.contains(observer) {
        let k = choose|k: int| 0 <= k < flockmates.len() && flockmates[k] == observer;
        assert(fl(flockmates[k] as int));
    }
    if repellers.contains(observer) {
        let k = choose|k: int| 0 <= k < repellers.len() && repellers[k] == observer;
        assert(rp(repellers[k] as int));
    }
    if foreigners.contains(observer) {
        let k = choose|k: int| 0 <= k < foreigners.len() && foreigners[k] == observer;
        assert(fo(foreigners[k] as int));
    }
}

/// Every repeller is a flockmate, and no boid is both a flockmate and a
/// foreigner.
pub proof fn lemma_lists_consistent(
    observer: usize,
    flocks: Seq<Flock>,
    sightings: Seq<Sighting>,
    flockmates: Seq<usize>,
    repellers: Seq<usize>,
    foreigners: Seq<usize>,
    i: usize,
)
    requires
        observer < flocks.len(),
        flocks.len() == sightings.len(),
        lists_exactly(flockmates, flocks.len() as int, |i: int| is_flockmate(observer as int, flocks, sightings, i)),
        lists_exactly(repellers, flocks.len() as int, |i: int| is_repeller(observer as int, flocks, sightings, i)),
        lists_exactly(foreigners, flocks.len() as int, |i: int| is_foreigner(observer as int, flocks, sightings, i)),
    ensures
        repellers.contains(i) ==> flockmates.contains(i),
        !(flockmates.contains(i) && foreigners.contains(i)),
{
    if repellers.contains(i) {
        let k = choose|k: int| 0 <= k < repellers.len() && repellers[k] == i;
        let rp = |i: int| is_repeller(observer as int, flocks, sightings, i);
        let fl = |i: int| is_flockmate(observer as int, flocks, sightings, i);
        assert(rp(repellers[k] as int));
        assert(fl(i as int));
    }
    if flockmates.contains(i) && foreigners.contains(i) {
        let k = choose|k: int| 0 <= k < flockmates.len() && flockmates[k] == i;
        let m = choose|m: int| 0 <= m < foreigners.len() && foreigners[m] == i;
        let fl = |i: int| is_flockmate(observer as int, flocks, sightings, i);
        let fo = |i: int| is_foreigner(observer as int, flocks, sightings, i);
        assert(fl(flockmates[k] as int));
        assert(fo(foreigners[m] as int));
    }
}

/// With no boid inside the avoidance radius (an avoidance radius of zero),
/// nothing repels the observer: only cohesion and alignment pull on it.
pub proof fn lemma_no_repellers_outside_avoidance(
    observer: usize,
    flocks: Seq<Flock>,
    sightings: Seq<Sighting>,
    repellers: Seq<usize>,
)
    requires
        observer < flocks.len(),
        flocks.len() == sightings.len(),
        forall|i: int| 0 <= i < sightings.len() ==> !(#[trigger] sightings[i]).within_avoid,
        lists_exactly(repellers, flocks.len() as int, |i: int| is_repeller(observer as int, flocks, sightings, i)),
    ensures
        repellers.len() == 0,
{
    if repellers.len() > 0 {
        let rp = |i: int| is_repeller(observer as int, flocks, sightings, i);
        assert(rp(repellers[0] as int));
    }
}

} // verus!
