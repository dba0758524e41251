//! The search for an escape heading when a boid's path is blocked.
//!
//! Candidate headings are the current heading turned by whole multiples of a
//! fixed step: first no turn, then one step to the right, one to the left, two
//! to the right, and so on, until a full circle has been tried.
use vstd::prelude::*;

verus! {

/// How many steps the `i`-th candidate heading is turned from the current
/// one: `0, -1, 1, -2, 2, ...` (negative turns clockwise).
pub open spec fn turn_offset_spec(i: int) -> int {
    if i % 2 == 0 {
        i / 2
    } else {
        -((i + 1) / 2)
    }
}

/// The turn, in steps, of the `i`-th candidate heading.
pub fn turn_offset(i: usize) -> (r: i64)
    ensures
        r == turn_offset_spec(i as int),
{
    let half = (i / 2) as i64;
    if i % 2 == 0 {
        half
    } else {
        -half - 1
    }
}

/// `i` is the first candidate whose ray meets no obstacle.
pub open spec fn first_clear_at(blocked: Seq<bool>, i: int) -> bool {
    &&& 0 <= i < blocked.len()
    &&& !blocked[i]
    &&& forall|j: int| 0 <= j < i ==> blocked[j]
}

/// The turn, in steps, toward the first clear candidate heading.
///
/// `blocked[i]` tells whether the ray along the `i`-th candidate heading
/// meets an obstacle. The result is `None` when every candidate is blocked:
/// the boid then keeps its heading.
pub fn choose_turn(blocked: &Vec<bool>) -> (r: Option<i64>)
    ensures
        r is None <==> forall|i: int| 0 <= i < blocked.len() ==> blocked@[i],
        r matches Some(k) ==> exists|i: int| first_clear_at(blocked@, i) && k == turn_offset_spec(i),
{
    let n = blocked.len();
    let mut i: usize = 0;
    while i < n
        invariant
            n == blocked.len(),
            i <= n,
            forall|j: int| 0 <= j < i ==> blocked@[j],
        decreases n - i,
    {
        if !blocked[i] {
            let k = turn_offset(i);
            assert(first_clear_at(blocked@, i as int));
            return Some(k);
        }
        i = i + 1;
    }
    None
}

/// Distinct candidates turn by distinct amounts, and only the first one
/// keeps the current heading.
pub proof fn lemma_turn_offsets_distinct(i: int, j: int)
    requires
        0 <= i,
        0 <= j,
    ensures
        turn_offset_spec(i) == turn_offset_spec(j) ==> i == j,
        turn_offset_spec(i) == 0 <==> i == 0,
{
}

/// The first `2 * k + 1` candidates turn by every amount from `-k` to `k`
/// steps: the search alternates sides and widens by one step on each side.
pub proof fn lemma_turn_offsets_cover(k: int, m: int)
    requires
        0 <= k,
        -k <= m <= k,
    ensures
        exists|i: int| 0 <= i < 2 * k + 1 && #[trigger] turn_offset_spec(i) == m,
{
    let i = if m >= 0 { 2 * m } else { -2 * m - 1 };
    assert(turn_offset_spec(i) == m);
}

/// When the ray along the current heading is blocked, the chosen candidate
/// turns the boid: a found heading is never the current one.
pub proof fn lemma_blocked_heading_turns(blocked: Seq<bool>, i: int)
    requires
        blocked.len() > 0,
        blocked[0],
        first_clear_at(blocked, i),
    ensures
        turn_offset_spec(i) != 0,
{
    lemma_turn_offsets_distinct(i, 0);
}

} // verus!
