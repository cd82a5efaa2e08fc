use vstd::prelude::*;
use crate::fixed::{Vec2, UNIT, COORD_LIMIT, MAX_BOIDS, NUDGED_LIMIT, scale_by, scaled, lemma_scaled_shrinks};

verus! {

/// Distance from a viewport edge at which a boid turns back (10 units).
pub const MARGIN: i64 = 10_000_000;

/// Horizontal direction of travel.
#[derive(Clone, Copy, Debug, PartialEq, Eq, Structural)]
pub enum DirectionX {
    Right,
    Left,
}

/// Vertical direction of travel.
#[derive(Clone, Copy, Debug, PartialEq, Eq, Structural)]
pub enum DirectionY {
    Top,
    Bottom,
}

/// The visible rectangle of the plane, in steps; `top` is the larger `y`.
#[derive(Clone, Copy, Debug, PartialEq, Eq, Structural)]
pub struct Boundary {
    pub left: i64,
    pub right: i64,
    pub bottom: i64,
    pub top: i64,
}

impl Boundary {
    /// Every edge lies within `COORD_LIMIT` of zero.
    pub open spec fn within_limits(self) -> bool {
        &&& -COORD_LIMIT <= self.left <= COORD_LIMIT
        &&& -COORD_LIMIT <= self.right <= COORD_LIMIT
        &&& -COORD_LIMIT <= self.bottom <= COORD_LIMIT
        &&& -COORD_LIMIT <= self.top <= COORD_LIMIT
    }

    /// Tells whether a tick can use this rectangle (see `within_limits`).
    pub fn check_limits(&self) -> (r: bool)
        ensures
            r == self.within_limits(),
    {
        -COORD_LIMIT <= self.left && self.left <= COORD_LIMIT && -COORD_LIMIT <= self.right
            && self.right <= COORD_LIMIT && -COORD_LIMIT <= self.bottom && self.bottom <= COORD_LIMIT
            && -COORD_LIMIT <= self.top && self.top <= COORD_LIMIT
    }
}

impl DirectionX {
    /// The direction after looking at the horizontal position `x`: turn left
    /// near the right edge, right near the left edge, else keep going.
    pub open spec fn next_spec(self, x: int, left: int, right: int) -> DirectionX {
        if x >= right - MARGIN {
            DirectionX::Left
        } else if x <= left + MARGIN {
            DirectionX::Right
        } else {
            self
        }
    }

    pub fn next(self, x: i64, left: i64, right: i64) -> (r: DirectionX)
        requires
            -COORD_LIMIT <= left <= COORD_LIMIT,
            -COORD_LIMIT <= right <= COORD_LIMIT,
        ensures
            r == self.next_spec(x as int, left as int, right as int),
            x >= right - MARGIN ==> r == DirectionX::Left,
    {
        if x >= right - MARGIN {
            DirectionX::Left
        } else if x <= left + MARGIN {
            DirectionX::Right
        } else {
            self
        }
    }
}

impl DirectionY {
    /// The direction after looking at the vertical position `y`: turn down
    /// near the top edge, up near the bottom edge, else keep going.
    pub open spec fn next_spec(self, y: int, bottom: int, top: int) -> DirectionY {
        if y >= top - MARGIN {
            DirectionY::Bottom
        } else if y <= bottom + MARGIN {
            DirectionY::Top
        } else {
            self
        }
    }

    pub fn next(self, y: i64, bottom: i64, top: i64) -> (r: DirectionY)
        requires
            -COORD_LIMIT <= bottom <= COORD_LIMIT,
            -COORD_LIMIT <= top <= COORD_LIMIT,
        ensures
            r == self.next_spec(y as int, bottom as int, top as int),
            y >= top - MARGIN ==> r == DirectionY::Bottom,
    {
        if y >= top - MARGIN {
            DirectionY::Bottom
        } else if y <= bottom + MARGIN {
            DirectionY::Top
        } else {
            self
        }
    }
}

pub open spec fn abs(v: int) -> int {
    if v >= 0 {
        v
    } else {
        -v
    }
}

/// A peer at `q` is too close to `p` when it is within the protected range
/// on either axis (a cross-shaped region, not a disc).
pub open spec fn is_close(p: Vec2, q: Vec2, protected_range: int) -> bool {
    abs(p.x - q.x) < protected_range || abs(p.y - q.y) < protected_range
}

/// Sum of `p.x - q.x` over the first `n` positions `q` of `peers` that are
/// too close to `p`, leaving out the index `me`.
pub open spec fn close_dx(p: Vec2, peers: Seq<Vec2>, me: int, protected_range: int, n: nat) -> int
    decreases n,
{
    if n == 0 {
        0
    } else {
        let j = n - 1;
        close_dx(p, peers, me, protected_range, (n - 1) as nat) + if j != me && is_close(
            p,
            peers[j],
            protected_range,
        ) {
            p.x - peers[j].x
        } else {
            0
        }
    }
}

/// Sum of `p.y - q.y` over the first `n` positions `q` of `peers` that are
/// too close to `p`, leaving out the index `me`.
pub open spec fn close_dy(p: Vec2, peers: Seq<Vec2>, me: int, protected_range: int, n: nat) -> int
    decreases n,
{
    if n == 0 {
        0
    } else {
        let j = n - 1;
        close_dy(p, peers, me, protected_range, (n - 1) as nat) + if j != me && is_close(
            p,
            peers[j],
            protected_range,
        ) {
            p.y - peers[j].y
        } else {
            0
        }
    }
}

/// With `p` and the peers within `COORD_LIMIT`, each sum of `n` terms stays
/// within `n` times twice that limit.
pub proof fn lemma_close_bounded(p: Vec2, peers: Seq<Vec2>, me: int, protected_range: int, n: nat)
    requires
        n <= peers.len(),
        p.bounded_by(COORD_LIMIT as int),
        forall|j: int| 0 <= j < peers.len() ==> (#[trigger] peers[j]).bounded_by(COORD_LIMIT as int),
    ensures
        abs(close_dx(p, peers, me, protected_range, n)) <= n * (2 * COORD_LIMIT),
        abs(close_dy(p, peers, me, protected_range, n)) <= n * (2 * COORD_LIMIT),
    decreases n,
{
    if n > 0 {
        lemma_close_bounded(p, peers, me, protected_range, (n - 1) as nat);
        let q = peers[n - 1];
        assert(q.bounded_by(COORD_LIMIT as int));
    }
}

/// A boid never counts itself: whatever stands at its own index `me` in
/// `peers`, the sums of close offsets are the same.
pub proof fn lemma_self_excluded(p: Vec2, peers: Seq<Vec2>, others: Seq<Vec2>, me: int, protected_range: int)
    requires
        peers.len() == others.len(),
        forall|j: int| 0 <= j < peers.len() && j != me ==> peers[j] == others[j],
    ensures
        close_dx(p, peers, me, protected_range, peers.len()) == close_dx(
            p,
            others,
            me,
            protected_range,
            others.len(),
        ),
        close_dy(p, peers, me, protected_range, peers.len()) == close_dy(
            p,
            others,
            me,
            protected_range,
            others.len(),
        ),
{
    lemma_self_excluded_prefix(p, peers, others, me, protected_range, peers.len());
}

proof fn lemma_self_excluded_prefix(
    p: Vec2,
    peers: Seq<Vec2>,
    others: Seq<Vec2>,
    me: int,
    protected_range: int,
    n: nat,
)
    requires
        n <= peers.len() == others.len(),
        forall|j: int| 0 <= j < peers.len() && j != me ==> peers[j] == others[j],
    ensures
        close_dx(p, peers, me, protected_range, n) == close_dx(p, others, me, protected_range, n),
        close_dy(p, peers, me, protected_range, n) == close_dy(p, others, me, protected_range, n),
    decreases n,
{
    if n > 0 {
        lemma_self_excluded_prefix(p, peers, others, me, protected_range, (n - 1) as nat);
    }
}

/// The trigger is per axis: a peer within the protected range horizontally
/// is pushed against however far apart the two are vertically, and the whole
/// offset `p - q` is taken on both axes.
pub proof fn lemma_cross_trigger(p: Vec2, q: Vec2, protected_range: int)
    requires
        abs(p.x - q.x) < protected_range,
    ensures
        close_dx(p, seq![p, q], 0, protected_range, 2) == p.x - q.x,
        close_dy(p, seq![p, q], 0, protected_range, 2) == p.y - q.y,
{
    let peers = seq![p, q];
    assert(peers[1] == q);
    reveal_with_fuel(close_dx, 3);
    reveal_with_fuel(close_dy, 3);
}

/// One member of the flock. Its displacement each tick is `velocity` taken in
/// the signs that the direction flags give, not in the signs of `velocity`.
#[derive(Clone, Copy, Debug, PartialEq, Eq, Structural)]
pub struct Boid {
    pub position: Vec2,
    pub velocity: Vec2,
    pub direction_x: DirectionX,
    pub direction_y: DirectionY,
}

impl Boid {
    /// Position and velocity within `COORD_LIMIT`: what a tick accepts.
    pub open spec fn within_limits(self) -> bool {
        self.position.bounded_by(COORD_LIMIT as int) && self.velocity.bounded_by(COORD_LIMIT as int)
    }

    /// The boid after the separation rule: pushed away from every peer of
    /// `peers` (bar the one at index `me`) that is too close, by the summed
    /// offsets scaled by `avoid_factor`.
    pub open spec fn separated(self, peers: Seq<Vec2>, me: int, avoid_factor: int, protected_range: int) -> Boid {
        let dx = close_dx(self.position, peers, me, protected_range, peers.len());
        let dy = close_dy(self.position, peers, me, protected_range, peers.len());
        Boid {
            position: Vec2 {
                x: (self.position.x + scaled(dx, avoid_factor)) as i64,
                y: (self.position.y + scaled(dy, avoid_factor)) as i64,
            },
            ..self
        }
    }

    /// The boid with each velocity component capped at `max_speed` from above.
    pub open spec fn clamped(self, max_speed: i64) -> Boid {
        Boid {
            velocity: Vec2 {
                x: if self.velocity.x > max_speed { max_speed } else { self.velocity.x },
                y: if self.velocity.y > max_speed { max_speed } else { self.velocity.y },
            },
            ..self
        }
    }

    /// The boid with its direction flags updated against the boundary.
    pub open spec fn reflected(self, b: Boundary) -> Boid {
        Boid {
            direction_x: self.direction_x.next_spec(self.position.x as int, b.left as int, b.right as int),
            direction_y: self.direction_y.next_spec(self.position.y as int, b.bottom as int, b.top as int),
            ..self
        }
    }

    /// The boid moved by its velocity in the directions of its flags.
    pub open spec fn advanced(self) -> Boid {
        Boid {
            position: Vec2 {
                x: (match self.direction_x {
                    DirectionX::Right => self.position.x + self.velocity.x,
                    DirectionX::Left => self.position.x - self.velocity.x,
                }) as i64,
                y: (match self.direction_y {
                    DirectionY::Top => self.position.y + self.velocity.y,
                    DirectionY::Bottom => self.position.y - self.velocity.y,
                }) as i64,
            },
            ..self
        }
    }

    /// Applies the separation rule against `boid_positions`, the positions of
    /// the whole flock, where this boid stands at `current_boid_index`.
    pub fn separate(
        &mut self,
        boid_positions: &Vec<Vec2>,
        current_boid_index: usize,
        avoid_factor: i64,
        protected_range: i64,
    )
        requires
            old(self).position.bounded_by(COORD_LIMIT as int),
            boid_positions@.len() <= MAX_BOIDS,
            forall|j: int|
                0 <= j < boid_positions@.len() ==> (#[trigger] boid_positions@[j]).bounded_by(
                    COORD_LIMIT as int,
                ),
            -UNIT <= avoid_factor <= UNIT,
        ensures
            *final(self) == old(self).separated(
                boid_positions@,
                current_boid_index as int,
                avoid_factor as int,
                protected_range as int,
            ),
            final(self).position.bounded_by(NUDGED_LIMIT as int),
    {
        let ghost p = self.position;
        let ghost peers = boid_positions@;
        let ghost me = current_boid_index as int;
        let mut close_x: i64 = 0;
        let mut close_y: i64 = 0;
        let n = boid_positions.len();
        let mut i: usize = 0;
        while i < n
            invariant
                n == peers.len(),
                i <= n,
                n <= MAX_BOIDS,
                p == self.position,
                peers == boid_positions@,
                me == current_boid_index,
                p.bounded_by(COORD_LIMIT as int),
                forall|j: int| 0 <= j < peers.len() ==> (#[trigger] peers[j]).bounded_by(COORD_LIMIT as int),
                close_x == close_dx(p, peers, me, protected_range as int, i as nat),
                close_y == close_dy(p, peers, me, protected_range as int, i as nat),
            decreases n - i,
        {
            proof {
                lemma_close_bounded(p, peers, me, protected_range as int, (i + 1) as nat);
                assert((i + 1) * (2 * COORD_LIMIT) <= MAX_BOIDS * (2 * COORD_LIMIT))
                    by (nonlinear_arith)
                    requires
                        i + 1 <= MAX_BOIDS,
                        COORD_LIMIT > 0,
                ;
            }
            if i != current_boid_index {
                let other = boid_positions[i];
                let dx = self.position.x - other.x;
                let dy = self.position.y - other.y;
                let adx = if dx < 0 { -dx } else { dx };
                let ady = if dy < 0 { -dy } else { dy };
                if adx < protected_range || ady < protected_range {
                    close_x = close_x + dx;
                    close_y = close_y + dy;
                }
            }
            i = i + 1;
        }
        proof {
            lemma_close_bounded(p, peers, me, protected_range as int, n as nat);
            assert(n * (2 * COORD_LIMIT) <= MAX_BOIDS * (2 * COORD_LIMIT)) by (nonlinear_arith)
                requires
                    n <= MAX_BOIDS,
                    COORD_LIMIT > 0,
            ;
            assert(-i64::MAX <= close_x && -i64::MAX <= close_y);
            lemma_scaled_shrinks(close_x as int, avoid_factor as int);
            lemma_scaled_shrinks(close_y as int, avoid_factor as int);
        }
        self.position.x = self.position.x + scale_by(close_x, avoid_factor);
        self.position.y = self.position.y + scale_by(close_y, avoid_factor);
    }

    /// Caps each velocity component at `max_speed`; there is no lower cap.
    pub fn clamp_speed(&mut self, max_speed: i64)
        ensures
            *final(self) == old(self).clamped(max_speed),
            final(self).velocity.x <= max_speed,
            final(self).velocity.y <= max_speed,
    {
        if self.velocity.x > max_speed {
            self.velocity.x = max_speed;
        }
        if self.velocity.y > max_speed {
            self.velocity.y = max_speed;
        }
    }

    /// Updates the direction flags against the edges of `boundary`.
    pub fn reflect(&mut self, boundary: &Boundary)
        requires
            boundary.within_limits(),
        ensures
            *final(self) == old(self).reflected(*boundary),
    {
        self.direction_x = self.direction_x.next(self.position.x, boundary.left, boundary.right);
        self.direction_y = self.direction_y.next(self.position.y, boundary.bottom, boundary.top);
    }

    /// Moves the boid by its velocity in the directions of its flags.
    pub fn advance(&mut self)
        requires
            old(self).position.bounded_by(NUDGED_LIMIT as int),
            old(self).velocity.bounded_by(COORD_LIMIT as int),
        ensures
            *final(self) == old(self).advanced(),
    {
        match self.direction_x {
            DirectionX::Right => self.position.x = self.position.x + self.velocity.x,
            DirectionX::Left => self.position.x = self.position.x - self.velocity.x,
        }
        match self.direction_y {
            DirectionY::Top => self.position.y = self.position.y + self.velocity.y,
            DirectionY::Bottom => self.position.y = self.position.y - self.velocity.y,
        }
    }
}

} // verus!
