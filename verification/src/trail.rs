//! The bounded history of visited points: oldest first, newest last, never
//! longer than its capacity.

use crate::config::DEFAULT_MAX_TRAIL_POINTS;
use crate::lorenz::Position;
use std::collections::VecDeque;
use vstd::prelude::*;

verus! {

/// One point of the trail: where it is drawn, and the hue of its colour.
#[derive(Clone, Copy, Debug, PartialEq, Eq, Structural)]
pub struct TrailPoint {
    pub position: Position,
    /// The hue in degrees, as a binary32 encoding. Saturation and lightness
    /// are the same for every point.
    pub hue: u32,
}

/// The last `n` items of `s`, or all of `s` where it has no more than `n`.
pub open spec fn newest<T>(s: Seq<T>, n: nat) -> Seq<T> {
    if s.len() <= n {
        s
    } else {
        s.subrange(s.len() - n, s.len() as int)
    }
}

/// Whether every point of a trail is drawn at a finite position.
pub open spec fn all_finite(points: Seq<TrailPoint>) -> bool {
    forall|i: int| 0 <= i < points.len() ==> (#[trigger] points[i]).position.is_finite()
}

/// The trail: points in the order in which they were visited, with a bound
/// on how many are kept.
#[derive(Debug)]
pub struct TrailBuffer {
    points: VecDeque<TrailPoint>,
    max_points: usize,
}

impl View for TrailBuffer {
    type V = Seq<TrailPoint>;

    /// The points held, oldest first.
    closed spec fn view(&self) -> Seq<TrailPoint> {
        self.points@
    }
}

impl TrailBuffer {
    /// The bound on the number of points kept.
    pub closed spec fn spec_max_points(&self) -> usize {
        self.max_points
    }

    /// An empty trail that keeps at most `max_points` points.
    pub fn new(max_points: usize) -> (trail: Self)
        ensures
            trail@ == Seq::<TrailPoint>::empty(),
            trail.max_points() == max_points,
    {
        TrailBuffer { points: VecDeque::new(), max_points }
    }

    #[verifier::when_used_as_spec(spec_max_points)]
    pub fn max_points(&self) -> (bound: usize)
        ensures
            bound == self.max_points(),
    {
        self.max_points
    }

    /// The number of points held.
    pub fn len(&self) -> (count: usize)
        ensures
            count == self@.len(),
    {
        broadcast use vstd::std_specs::vecdeque::group_vec_dequeue_axioms;

        self.points.len()
    }

    /// The point at `index`, counted from the oldest, if there is one.
    pub fn get(&self, index: usize) -> (point: Option<TrailPoint>)
        ensures
            point == (if index < self@.len() {
                Some(self@[index as int])
            } else {
                None
            }),
    {
        broadcast use vstd::std_specs::vecdeque::group_vec_dequeue_axioms;

        if index < self.points.len() {
            Some(self.points[index])
        } else {
            None
        }
    }

    /// The newest point, if the trail holds any.
    pub fn back(&self) -> (point: Option<TrailPoint>)
        ensures
            point == (if self@.len() > 0 {
                Some(self@.last())
            } else {
                None
            }),
    {
        broadcast use vstd::std_specs::vecdeque::group_vec_dequeue_axioms;

        let count: usize = self.points.len();
        if count > 0 {
            Some(self.points[count - 1])
        } else {
            None
        }
    }

    /// Removes points from the old end until no more than the bound are
    /// left.
    fn evict_overflow(&mut self)
        ensures
            final(self).max_points() == old(self).max_points(),
            final(self)@ == newest(old(self)@, old(self).max_points() as nat),
    {
        broadcast use vstd::std_specs::vecdeque::group_vec_dequeue_axioms;

        let ghost before = self.points@;
        while self.points.len() > self.max_points
            invariant
                self.max_points == old(self).max_points,
                self.points@.len() <= before.len(),
                self.points@.len() == before.len() || self.points@.len() >= self.max_points,
                self.points@ == before.subrange(
                    before.len() - self.points@.len(),
                    before.len() as int,
                ),
            decreases self.points@.len(),
        {
            self.points.pop_front();
        }
        assert(self.points@ =~= newest(before, self.max_points as nat));
    }

    /// Sets the bound to `capacity`. Where the trail holds more, the oldest
    /// points leave at once, so that exactly `capacity` are left.
    pub fn retarget(&mut self, capacity: usize)
        ensures
            final(self).max_points() == capacity,
            final(self)@ == newest(old(self)@, capacity as nat),
            final(self)@.len() <= capacity,
            (final(self)@, final(self).max_points() as nat) == apply_op(
                old(self)@,
                old(self).max_points() as nat,
                TrailOp::Retarget(capacity),
            ),
    {
        self.max_points = capacity;
        self.evict_overflow();
    }

    /// Appends `point` as the newest, then removes the oldest points while
    /// the trail is over its bound.
    pub fn push(&mut self, point: TrailPoint)
        ensures
            final(self).max_points() == old(self).max_points(),
            final(self)@ == newest(old(self)@.push(point), old(self).max_points() as nat),
            final(self)@.len() <= old(self).max_points(),
            (final(self)@, final(self).max_points() as nat) == apply_op(
                old(self)@,
                old(self).max_points() as nat,
                TrailOp::Push(point),
            ),
    {
        self.points.push_back(point);
        self.evict_overflow();
    }

    /// Removes every point. The bound stays.
    pub fn clear(&mut self)
        ensures
            final(self).max_points() == old(self).max_points(),
            final(self)@ == Seq::<TrailPoint>::empty(),
    {
        self.points.clear();
    }
}

impl Default for TrailBuffer {
    /// An empty trail with the default bound.
    fn default() -> (trail: Self)
        ensures
            trail@ == Seq::<TrailPoint>::empty(),
            trail.max_points() == DEFAULT_MAX_TRAIL_POINTS,
    {
        TrailBuffer {
            points: VecDeque::with_capacity(DEFAULT_MAX_TRAIL_POINTS),
            max_points: DEFAULT_MAX_TRAIL_POINTS,
        }
    }
}

/// One change to a trail, as the laws below speak of it: what `push` and
/// `retarget` do.
pub enum TrailOp {
    /// A point is appended.
    Push(TrailPoint),
    /// The bound is set anew.
    Retarget(usize),
}

/// What one change makes of a trail with the given points and bound.
pub open spec fn apply_op(points: Seq<TrailPoint>, bound: nat, op: TrailOp) -> (Seq<TrailPoint>, nat) {
    match op {
        TrailOp::Push(point) => (newest(points.push(point), bound), bound),
        TrailOp::Retarget(capacity) => (newest(points, capacity as nat), capacity as nat),
    }
}

/// What a run of changes, made in order, makes of a trail.
pub open spec fn replay(points: Seq<TrailPoint>, bound: nat, ops: Seq<TrailOp>) -> (Seq<TrailPoint>, nat)
    decreases ops.len(),
{
    if ops.len() == 0 {
        (points, bound)
    } else {
        let earlier = replay(points, bound, ops.drop_last());
        apply_op(earlier.0, earlier.1, ops.last())
    }
}

/// The points that a run of changes appends, in order.
pub open spec fn pushed(ops: Seq<TrailOp>) -> Seq<TrailPoint>
    decreases ops.len(),
{
    if ops.len() == 0 {
        Seq::empty()
    } else {
        match ops.last() {
            TrailOp::Push(point) => pushed(ops.drop_last()).push(point),
            TrailOp::Retarget(_) => pushed(ops.drop_last()),
        }
    }
}

/// Keeping the newest `b` of the newest `a` keeps the newest `min(a, b)`.
pub proof fn lemma_newest_twice<T>(s: Seq<T>, a: nat, b: nat)
    ensures
        newest(newest(s, a), b) == newest(s, if a <= b { a } else { b }),
{
    assert(newest(newest(s, a), b) =~= newest(s, if a <= b { a } else { b }));
}

/// Appending to the newest `n` gives the newest of the longer sequence, one
/// more than were kept.
pub proof fn lemma_newest_push<T>(s: Seq<T>, n: nat, item: T)
    ensures
        newest(s, n).push(item) == newest(s.push(item), newest(s, n).len() + 1),
{
    assert(newest(s, n).push(item) =~= newest(s.push(item), newest(s, n).len() + 1));
}

/// After any run of pushes and retargets the trail holds the most recent of
/// the points it was given: what it started with followed by what was
/// pushed, cut down from the old end. And once a change has been made, or
/// where it started within its bound, it holds no more points than its bound.
pub proof fn lemma_replay_keeps_newest(points: Seq<TrailPoint>, bound: nat, ops: Seq<TrailOp>)
    ensures
        replay(points, bound, ops).0 == newest(
            points + pushed(ops),
            replay(points, bound, ops).0.len(),
        ),
        ops.len() > 0 || points.len() <= bound ==> replay(points, bound, ops).0.len() <= replay(
            points,
            bound,
            ops,
        ).1,
    decreases ops.len(),
{
    if ops.len() == 0 {
        assert(points + pushed(ops) =~= points);
    } else {
        let earlier = replay(points, bound, ops.drop_last());
        let history = points + pushed(ops.drop_last());
        lemma_replay_keeps_newest(points, bound, ops.drop_last());
        match ops.last() {
            TrailOp::Push(point) => {
                assert(points + pushed(ops) =~= history.push(point));
                lemma_newest_push(history, earlier.0.len(), point);
                lemma_newest_twice(history.push(point), earlier.0.len() + 1, earlier.1);
            },
            TrailOp::Retarget(capacity) => {
                lemma_newest_twice(history, earlier.0.len(), capacity as nat);
            },
        }
    }
}

} // verus!
