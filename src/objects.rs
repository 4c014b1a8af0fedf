use vstd::prelude::*;

use crate::session::{phase_rank, Score, ScoreModel};

verus! {

/// The kinds of bodies that take part in collisions.
#[derive(Clone, Copy, Debug, PartialEq, Eq, Structural)]
pub enum Object {
    Ground,
    Hammer,
    Brick,
}

/// Whether a body is known to be a brick.
pub open spec fn is_brick(o: Option<Object>) -> bool {
    o == Some(Object::Brick)
}

/// How many of the two bodies of a collision are bricks.
pub open spec fn brick_count(first: Option<Object>, second: Option<Object>) -> int {
    (if is_brick(first) { 1int } else { 0int }) + (if is_brick(second) { 1int } else { 0int })
}

/// The session after the bricks among two colliding bodies were broken,
/// the first body's before the second's.
pub open spec fn after_collision(s: ScoreModel, first: Option<Object>, second: Option<Object>) -> ScoreModel {
    let mid = if is_brick(first) { s.brick_broke() } else { s };
    if is_brick(second) { mid.brick_broke() } else { mid }
}

/// Which of two colliding bodies break. Only bricks do; ground and hammers
/// never break. A body whose kind is unknown (`None`) is left alone.
pub fn classify_collision(first: Option<Object>, second: Option<Object>) -> (r: (bool, bool))
    ensures
        r.0 == is_brick(first),
        r.1 == is_brick(second),
{
    let a = match first {
        Some(Object::Brick) => true,
        _ => false,
    };
    let b = match second {
        Some(Object::Brick) => true,
        _ => false,
    };
    (a, b)
}

impl Score {
    /// Two bodies stopped touching: each brick among them is broken and
    /// counted. Returns which of the two bodies must be removed.
    pub fn on_collision_stopped(&mut self, first: Option<Object>, second: Option<Object>) -> (r: (bool, bool))
        requires
            old(self).value + brick_count(first, second) <= u64::MAX,
            old(self).bricks_broken + brick_count(first, second) <= u64::MAX,
        ensures
            r.0 == is_brick(first),
            r.1 == is_brick(second),
            final(self)@ == after_collision(old(self)@, first, second),
            phase_rank(final(self).state) >= phase_rank(old(self).state),
    {
        let r = classify_collision(first, second);
        if r.0 {
            self.brick_broke();
        }
        if r.1 {
            self.brick_broke();
        }
        r
    }
}

} // verus!
