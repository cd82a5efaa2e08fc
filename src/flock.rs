use vstd::prelude::*;
use crate::fixed::{Vec2, UNIT, COORD_LIMIT, MAX_BOIDS};
use crate::params::Params;
use crate::boid::{Boid, Boundary, DirectionX, DirectionY};

verus! {

/// Number of boids in a default run.
pub const BOID_COUNT: usize = 10;

/// Position of the first boid: (-100, 100) units.
pub const START_X: i64 = -100 * UNIT;

pub const START_Y: i64 = 100 * UNIT;

/// Offset from one boid to the next along the starting diagonal: (10, 30) units.
pub const STEP_X: i64 = 10 * UNIT;

pub const STEP_Y: i64 = 30 * UNIT;

/// Velocity that every boid starts with: (4, 3) units a tick.
pub const START_VX: i64 = 4 * UNIT;

pub const START_VY: i64 = 3 * UNIT;

/// The boid that starts at index `i`.
pub open spec fn initial_boid(i: int) -> Boid {
    Boid {
        position: Vec2 { x: (START_X + i * STEP_X) as i64, y: (START_Y + i * STEP_Y) as i64 },
        velocity: Vec2 { x: START_VX, y: START_VY },
        direction_x: DirectionX::Right,
        direction_y: DirectionY::Top,
    }
}

/// The `n` boids of a new flock, staggered along a diagonal.
pub open spec fn initial_boids(n: nat) -> Seq<Boid> {
    Seq::new(n, |i: int| initial_boid(i))
}

/// Where each boid of `boids` stands.
pub open spec fn positions(boids: Seq<Boid>) -> Seq<Vec2> {
    Seq::new(boids.len(), |i: int| boids[i].position)
}

/// One tick for the boid at index `me`, against the positions `peers` that
/// the whole flock held before the tick: separation, speed cap, reflection at
/// the boundary, then movement.
pub open spec fn stepped(b: Boid, peers: Seq<Vec2>, me: int, params: Params, bounds: Boundary) -> Boid {
    b.separated(peers, me, params.avoid_factor as int, params.protected_range as int).clamped(
        params.max_speed,
    ).reflected(bounds).advanced()
}

/// The whole flock after one tick: every boid stepped against the positions
/// of the flock before the tick.
pub open spec fn ticked(boids: Seq<Boid>, params: Params, bounds: Boundary) -> Seq<Boid> {
    Seq::new(boids.len(), |i: int| stepped(boids[i], positions(boids), i, params, bounds))
}

/// A boid's tick reads the rest of the flock only through the positions it
/// held before the tick: two flocks with the same positions that agree on
/// boid `i` give boid `i` the same result, whatever the other boids' speeds
/// and directions, and so whatever order the boids are processed in.
pub proof fn lemma_tick_reads_snapshot(
    boids: Seq<Boid>,
    others: Seq<Boid>,
    i: int,
    params: Params,
    bounds: Boundary,
)
    requires
        boids.len() == others.len(),
        0 <= i < boids.len(),
        boids[i] == others[i],
        positions(boids) == positions(others),
    ensures
        ticked(boids, params, bounds)[i] == ticked(others, params, bounds)[i],
{
}

/// The flock after stepping, in place and one after another, the boids at
/// the indices of `order`, each against the fixed positions `peers`.
pub open spec fn stepped_in_order(
    boids: Seq<Boid>,
    peers: Seq<Vec2>,
    order: Seq<int>,
    params: Params,
    bounds: Boundary,
) -> Seq<Boid>
    decreases order.len(),
{
    if order.len() == 0 {
        boids
    } else {
        let prev = stepped_in_order(boids, peers, order.drop_last(), params, bounds);
        let j = order.last();
        if 0 <= j < prev.len() {
            prev.update(j, stepped(prev[j], peers, j, params, bounds))
        } else {
            prev
        }
    }
}

/// Stepping the boids in place one at a time, in any order that visits each
/// index once, against the positions from before the tick, gives the same
/// flock as `ticked`: the outcome does not depend on processing order.
pub proof fn lemma_any_order(boids: Seq<Boid>, order: Seq<int>, params: Params, bounds: Boundary)
    requires
        order.no_duplicates(),
        forall|k: int| 0 <= k < order.len() ==> 0 <= #[trigger] order[k] < boids.len(),
        forall|j: int| 0 <= j < boids.len() ==> order.contains(j),
    ensures
        stepped_in_order(boids, positions(boids), order, params, bounds) == ticked(boids, params, bounds),
{
    let peers = positions(boids);
    lemma_prefix_stepped(boids, peers, order, params, bounds);
    let r = stepped_in_order(boids, peers, order, params, bounds);
    assert(r =~= ticked(boids, params, bounds));
}

proof fn lemma_prefix_stepped(
    boids: Seq<Boid>,
    peers: Seq<Vec2>,
    order: Seq<int>,
    params: Params,
    bounds: Boundary,
)
    requires
        order.no_duplicates(),
    ensures
        stepped_in_order(boids, peers, order, params, bounds).len() == boids.len(),
        forall|j: int|
            0 <= j < boids.len() ==> #[trigger] stepped_in_order(boids, peers, order, params, bounds)[j]
                == if order.contains(j) {
                stepped(boids[j], peers, j, params, bounds)
            } else {
                boids[j]
            },
    decreases order.len(),
{
    if order.len() > 0 {
        let front = order.drop_last();
        let j = order.last();
        assert(front.no_duplicates()) by {
            assert forall|a: int, b: int| 0 <= a < front.len() && 0 <= b < front.len() && a != b implies front[a]
                != front[b] by {
                assert(front[a] == order[a] && front[b] == order[b]);
            }
        }
        lemma_prefix_stepped(boids, peers, front, params, bounds);
        assert(!front.contains(j)) by {
            if front.contains(j) {
                let a = choose|a: int| 0 <= a < front.len() && front[a] == j;
                assert(order[a] == order[order.len() - 1]);
            }
        }
        assert forall|i: int| 0 <= i < boids.len() implies (order.contains(i) <==> front.contains(i)
            || i == j) by {
            if order.contains(i) {
                let a = choose|a: int| 0 <= a < order.len() && order[a] == i;
                if a < order.len() - 1 {
                    assert(front[a] == i);
                }
            }
            if front.contains(i) {
                let a = choose|a: int| 0 <= a < front.len() && front[a] == i;
                assert(order[a] == i);
            }
            if i == j {
                assert(order[order.len() - 1] == i);
            }
        }
    }
}

/// Building a flock has no hidden input: two flocks built from the same
/// count and parameters hold the same boids and the same parameters.
pub proof fn lemma_construction_deterministic(a: Flock, b: Flock, count: nat, params: Params)
    requires
        a.boids@ == initial_boids(count),
        a.params == params,
        b.boids@ == initial_boids(count),
        b.params == params,
    ensures
        a.boids@ == b.boids@,
        a.params == b.params,
{
}

/// The boids of a simulation and the tuning values they follow.
#[derive(Debug)]
pub struct Flock {
    pub boids: Vec<Boid>,
    pub params: Params,
}

impl Flock {
    /// A tick can run on this flock without overflow: at most `MAX_BOIDS`
    /// boids, each within `COORD_LIMIT`, and parameters within their limits.
    pub open spec fn within_limits(&self) -> bool {
        &&& self.boids@.len() <= MAX_BOIDS
        &&& forall|i: int| 0 <= i < self.boids@.len() ==> (#[trigger] self.boids@[i]).within_limits()
        &&& self.params.within_limits()
    }

    /// A flock of `count` boids, the `i`-th at `(START_X + i * STEP_X,
    /// START_Y + i * STEP_Y)`, all with velocity `(START_VX, START_VY)`,
    /// heading right and up.
    pub fn new(count: usize, params: Params) -> (r: Flock)
        requires
            count <= MAX_BOIDS,
        ensures
            r.boids@ == initial_boids(count as nat),
            r.params == params,
            forall|i: int| 0 <= i < count ==> (#[trigger] r.boids@[i]).within_limits(),
    {
        let mut boids: Vec<Boid> = Vec::new();
        let mut i: usize = 0;
        while i < count
            invariant
                i <= count,
                count <= MAX_BOIDS,
                boids@ == initial_boids(i as nat),
                forall|j: int| 0 <= j < i ==> (#[trigger] boids@[j]).within_limits(),
            decreases count - i,
        {
            let k = i as i64;
            assert(0 <= k * STEP_X <= MAX_BOIDS * STEP_X && 0 <= k * STEP_Y <= MAX_BOIDS * STEP_Y)
                by (nonlinear_arith)
                requires
                    0 <= k <= MAX_BOIDS,
                    STEP_X > 0,
                    STEP_Y > 0,
            ;
            let boid = Boid {
                position: Vec2 { x: START_X + k * STEP_X, y: START_Y + k * STEP_Y },
                velocity: Vec2 { x: START_VX, y: START_VY },
                direction_x: DirectionX::Right,
                direction_y: DirectionY::Top,
            };
            boids.push(boid);
            i = i + 1;
            assert(boids@ =~= initial_boids(i as nat));
        }
        Flock { boids, params }
    }

    /// Tells whether a tick can run on this flock (see `within_limits`).
    pub fn check_limits(&self) -> (r: bool)
        ensures
            r == self.within_limits(),
    {
        if self.boids.len() > MAX_BOIDS || !self.params.check_limits() {
            return false;
        }
        let mut i: usize = 0;
        while i < self.boids.len()
            invariant
                i <= self.boids@.len(),
                forall|j: int| 0 <= j < i ==> (#[trigger] self.boids@[j]).within_limits(),
            decreases self.boids@.len() - i,
        {
            let b = &self.boids[i];
            if !(-COORD_LIMIT <= b.position.x && b.position.x <= COORD_LIMIT && -COORD_LIMIT
                <= b.position.y && b.position.y <= COORD_LIMIT && -COORD_LIMIT <= b.velocity.x
                && b.velocity.x <= COORD_LIMIT && -COORD_LIMIT <= b.velocity.y && b.velocity.y
                <= COORD_LIMIT) {
                return false;
            }
            i = i + 1;
        }
        true
    }

    /// The position of every boid, in flock order.
    pub fn snapshot(&self) -> (r: Vec<Vec2>)
        ensures
            r@ == positions(self.boids@),
    {
        let mut r: Vec<Vec2> = Vec::new();
        let mut i: usize = 0;
        while i < self.boids.len()
            invariant
                i <= self.boids@.len(),
                r@ == positions(self.boids@).subrange(0, i as int),
            decreases self.boids@.len() - i,
        {
            r.push(self.boids[i].position);
            i = i + 1;
            assert(r@ =~= positions(self.boids@).subrange(0, i as int));
        }
        assert(r@ =~= positions(self.boids@));
        r
    }
}

/// Advances the flock by one tick within `boundary`.
///
/// Every boid is stepped against the positions the flock held before the
/// tick, so no boid sees a peer's new position. Each velocity component ends
/// at most `max_speed`, and one already at most `max_speed` is left as it was.
pub fn update(flock: &mut Flock, boundary: &Boundary)
    requires
        old(flock).within_limits(),
        boundary.within_limits(),
    ensures
        final(flock).params == old(flock).params,
        final(flock).boids@ == ticked(old(flock).boids@, old(flock).params, *boundary),
        forall|i: int|
            0 <= i < final(flock).boids@.len() ==> {
                &&& (#[trigger] final(flock).boids@[i]).velocity.x <= old(flock).params.max_speed
                &&& final(flock).boids@[i].velocity.y <= old(flock).params.max_speed
            },
        forall|i: int|
            0 <= i < old(flock).boids@.len() ==> {
                &&& (#[trigger] old(flock).boids@[i]).velocity.x <= old(flock).params.max_speed
                    ==> final(flock).boids@[i].velocity.x == old(flock).boids@[i].velocity.x
                &&& old(flock).boids@[i].velocity.y <= old(flock).params.max_speed
                    ==> final(flock).boids@[i].velocity.y == old(flock).boids@[i].velocity.y
            },
{
    let ghost start = flock.boids@;
    let snapshot = flock.snapshot();
    let params = flock.params;
    let n = flock.boids.len();
    let mut i: usize = 0;
    while i < n
        invariant
            i <= n,
            n == start.len(),
            n <= MAX_BOIDS,
            params == flock.params,
            params.within_limits(),
            boundary.within_limits(),
            snapshot@ == positions(start),
            forall|j: int| 0 <= j < n ==> (#[trigger] start[j]).within_limits(),
            flock.boids@.len() == n,
            forall|j: int|
                0 <= j < i ==> #[trigger] flock.boids@[j] == stepped(
                    start[j],
                    positions(start),
                    j,
                    params,
                    *boundary,
                ),
            forall|j: int| i <= j < n ==> #[trigger] flock.boids@[j] == start[j],
        decreases n - i,
    {
        let mut boid = flock.boids[i];
        assert(forall|j: int|
            0 <= j < snapshot@.len() ==> (#[trigger] snapshot@[j]).bounded_by(COORD_LIMIT as int))
            by {
            assert forall|j: int| 0 <= j < snapshot@.len() implies (
            #[trigger] snapshot@[j]).bounded_by(COORD_LIMIT as int) by {
                assert(start[j].within_limits());
            }
        }
        boid.separate(&snapshot, i, params.avoid_factor, params.protected_range);
        boid.clamp_speed(params.max_speed);
        boid.reflect(boundary);
        boid.advance();
        flock.boids[i] = boid;
        i = i + 1;
    }
    assert(flock.boids@ =~= ticked(start, params, *boundary));
}

} // verus!
