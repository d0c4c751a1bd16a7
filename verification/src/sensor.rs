//! Decisions of the ray sensor: whether a ray meets a box, and which of the
//! boxes that it meets is the nearest.
//!
//! Positions along a ray are integer readings whose order is the order of the
//! real positions, with 0 at the origin of the ray. The caller computes the
//! readings; a reading that it could not compute is `None`.

use vstd::prelude::*;

verus! {

/// The smaller of two readings, where an undefined one gives way to the other.
pub open spec fn spec_lesser(a: Option<i32>, b: Option<i32>) -> Option<i32> {
    match (a, b) {
        (Some(x), Some(y)) => Some(if x <= y { x } else { y }),
        (Some(x), None) => Some(x),
        (None, _) => b,
    }
}

/// The greater of two readings, where an undefined one gives way to the other.
pub open spec fn spec_greater(a: Option<i32>, b: Option<i32>) -> Option<i32> {
    match (a, b) {
        (Some(x), Some(y)) => Some(if x >= y { x } else { y }),
        (Some(x), None) => Some(x),
        (None, _) => b,
    }
}

/// The smaller of two readings; an undefined reading gives way to the other.
#[verifier::when_used_as_spec(spec_lesser)]
pub fn lesser(a: Option<i32>, b: Option<i32>) -> (m: Option<i32>)
    ensures
        m == spec_lesser(a, b),
{
    match (a, b) {
        (Some(x), Some(y)) => Some(if x <= y { x } else { y }),
        (Some(x), None) => Some(x),
        (None, _) => b,
    }
}

/// The greater of two readings; an undefined reading gives way to the other.
#[verifier::when_used_as_spec(spec_greater)]
pub fn greater(a: Option<i32>, b: Option<i32>) -> (m: Option<i32>)
    ensures
        m == spec_greater(a, b),
{
    match (a, b) {
        (Some(x), Some(y)) => Some(if x >= y { x } else { y }),
        (Some(x), None) => Some(x),
        (None, _) => b,
    }
}

/// Where a ray crosses the four sides of an axis-aligned box: the two sides
/// across the first axis, then the two sides across the second.
#[derive(Clone, Copy, PartialEq, Eq, Debug)]
pub struct Crossings {
    pub x_low: Option<i32>,
    pub x_high: Option<i32>,
    pub y_low: Option<i32>,
    pub y_high: Option<i32>,
}

impl Crossings {
    /// Where the ray has entered both slabs: the later of the two entries.
    pub open spec fn entry(self) -> Option<i32> {
        spec_greater(spec_lesser(self.x_low, self.x_high), spec_lesser(self.y_low, self.y_high))
    }

    /// Where the ray leaves the first of the two slabs: the earlier of the
    /// two exits.
    pub open spec fn exit(self) -> Option<i32> {
        spec_lesser(spec_greater(self.x_low, self.x_high), spec_greater(self.y_low, self.y_high))
    }

    /// The ray misses the box when it leaves a slab behind its origin, or
    /// leaves one slab before it has entered the other. A comparison with an
    /// undefined reading does not hold.
    pub open spec fn misses(self) -> bool {
        match self.exit() {
            Some(exit) => exit < 0 || match self.entry() {
                Some(entry) => entry > exit,
                None => false,
            },
            None => false,
        }
    }

    /// The reading at which the ray meets the box, if it does: its entry, and
    /// 0 where the entry lies behind the origin or is undefined.
    pub open spec fn hit(self) -> Option<i32> {
        if self.misses() {
            None
        } else {
            Some(
                match self.entry() {
                    Some(entry) => if entry > 0 { entry } else { 0 },
                    None => 0,
                },
            )
        }
    }

    /// All four readings are defined.
    pub open spec fn defined(self) -> bool {
        self.x_low is Some && self.x_high is Some && self.y_low is Some && self.y_high is Some
    }

    /// Whether the reading `t` lies in both slabs of the box.
    pub open spec fn within(self, t: int) -> bool
        recommends
            self.defined(),
    {
        &&& spec_lesser(self.x_low, self.x_high).unwrap() <= t <= spec_greater(
            self.x_low,
            self.x_high,
        ).unwrap()
        &&& spec_lesser(self.y_low, self.y_high).unwrap() <= t <= spec_greater(
            self.y_low,
            self.y_high,
        ).unwrap()
    }
}

/// Decides by the slab method whether a ray meets a box, and where. The
/// decision is made for every set of readings, defined or not.
pub fn ray_intersects_aabb(crossings: Crossings) -> (hit: Option<i32>)
    ensures
        hit == crossings.hit(),
        hit matches Some(d) ==> d >= 0,
{
    let entry = greater(
        lesser(crossings.x_low, crossings.x_high),
        lesser(crossings.y_low, crossings.y_high),
    );
    let exit = lesser(
        greater(crossings.x_low, crossings.x_high),
        greater(crossings.y_low, crossings.y_high),
    );
    let misses = match exit {
        Some(out) => out < 0 || match entry {
            Some(into) => into > out,
            None => false,
        },
        None => false,
    };
    if misses {
        None
    } else {
        match entry {
            Some(into) => Some(if into > 0 { into } else { 0 }),
            None => Some(0),
        }
    }
}

/// With defined readings a ray meets a box exactly when some reading at or
/// after its origin lies in both slabs, and the hit is the first of them.
pub proof fn hit_is_first_common_reading(c: Crossings)
    requires
        c.defined(),
    ensures
        c.hit() is None <==> forall|t: int| 0 <= t ==> !c.within(t),
        c.hit() matches Some(d) ==> d >= 0 && c.within(d as int) && forall|t: int|
            0 <= t && c.within(t) ==> d <= t,
{
    let entry = c.entry().unwrap();
    let exit = c.exit().unwrap();
    assert forall|t: int| c.within(t) implies entry <= t <= exit by {}
    if c.misses() {
        assert forall|t: int| 0 <= t implies !c.within(t) by {}
    } else {
        let d: int = if entry > 0 { entry as int } else { 0 };
        assert(c.within(d));
    }
}

/// A ray that starts strictly inside a box, so that in each slab one side
/// lies behind its origin and the other ahead, meets the box at reading 0.
pub proof fn origin_inside_hits_at_zero(c: Crossings)
    requires
        c.defined(),
        spec_lesser(c.x_low, c.x_high).unwrap() < 0 < spec_greater(c.x_low, c.x_high).unwrap(),
        spec_lesser(c.y_low, c.y_high).unwrap() < 0 < spec_greater(c.y_low, c.y_high).unwrap(),
    ensures
        c.hit() == Some(0i32),
{
}

/// It does not matter which side of a slab is given as the low one and which
/// as the high one.
pub proof fn sides_may_be_swapped(c: Crossings)
    ensures
        (Crossings { x_low: c.x_high, x_high: c.x_low, ..c }).hit() == c.hit(),
        (Crossings { y_low: c.y_high, y_high: c.y_low, ..c }).hit() == c.hit(),
{
}

/// The least of the defined readings in `hits`, if there is any.
pub open spec fn least(hits: Seq<Option<i32>>) -> Option<i32>
    decreases hits.len(),
{
    if hits.len() == 0 {
        None
    } else {
        spec_lesser(least(hits.drop_last()), hits.last())
    }
}

/// The reading of the nearest hit, and `max_range` where nothing was hit.
pub open spec fn spec_nearest(hits: Seq<Option<i32>>, max_range: i32) -> i32 {
    match least(hits) {
        Some(d) => d,
        None => max_range,
    }
}

/// `least` is `None` exactly when no reading is defined; otherwise it is one
/// of the defined readings and none of them is smaller.
pub proof fn least_is_minimum(hits: Seq<Option<i32>>)
    ensures
        least(hits) is None <==> forall|j: int| 0 <= j < hits.len() ==> hits[j] is None,
        least(hits) matches Some(m) ==> (exists|j: int| 0 <= j < hits.len() && hits[j] == Some(m))
            && forall|j: int|
            0 <= j < hits.len() ==> (#[trigger] hits[j] matches Some(d) ==> m <= d),
    decreases hits.len(),
{
    if hits.len() > 0 {
        let front = hits.drop_last();
        let last = hits.len() - 1;
        least_is_minimum(front);
        assert forall|j: int| 0 <= j < front.len() implies front[j] == hits[j] by {}
        match least(hits) {
            None => {
                assert forall|j: int| 0 <= j < hits.len() implies hits[j] is None by {
                    if j < front.len() {
                        assert(front[j] is None);
                    }
                }
            },
            Some(m) => {
                if hits[last] == Some(m) {
                    assert(0 <= last < hits.len() && hits[last] == Some(m));
                } else {
                    let j = choose|j: int| 0 <= j < front.len() && front[j] == Some(m);
                    assert(0 <= j < hits.len() && hits[j] == Some(m));
                }
                assert forall|j: int| 0 <= j < hits.len() implies (#[trigger] hits[j] matches Some(
                    d,
                ) ==> m <= d) by {
                    if j < front.len() {
                        assert(front[j] == hits[j]);
                    }
                }
            },
        }
    }
}

/// The reading of the nearest of the `hits` of one ray or probe; `max_range`
/// where the list is empty or holds no hit.
pub fn nearest(hits: &Vec<Option<i32>>, max_range: i32) -> (d: i32)
    ensures
        d == spec_nearest(hits@, max_range),
{
    let mut best: Option<i32> = None;
    let mut i: usize = 0;
    while i < hits.len()
        invariant
            i <= hits.len(),
            best == least(hits@.take(i as int)),
        decreases hits.len() - i,
    {
        proof {
            let upto = hits@.take(i as int + 1);
            assert(upto.drop_last() == hits@.take(i as int));
            assert(upto.last() == hits@[i as int]);
        }
        best = lesser(best, hits[i]);
        i += 1;
    }
    proof {
        assert(hits@.take(hits@.len() as int) == hits@);
    }
    match best {
        Some(d) => d,
        None => max_range,
    }
}

/// The readings of a whole sensor: for each ray the nearest of its hits.
pub open spec fn spec_sense(hits: Seq<Vec<Option<i32>>>, max_range: i32) -> Seq<i32> {
    Seq::new(hits.len(), |r: int| spec_nearest(hits[r]@, max_range))
}

/// Reduces the hits of each ray to the reading of the nearest one. The result
/// has one reading for each ray, whatever the rays hit.
pub fn sense(hits: &Vec<Vec<Option<i32>>>, max_range: i32) -> (sight: Vec<i32>)
    ensures
        sight@ == spec_sense(hits@, max_range),
        sight@.len() == hits@.len(),
{
    let mut sight: Vec<i32> = Vec::new();
    let mut r: usize = 0;
    while r < hits.len()
        invariant
            r <= hits.len(),
            sight@.len() == r,
            forall|k: int| 0 <= k < r ==> sight@[k] == spec_nearest(hits@[k]@, max_range),
        decreases hits.len() - r,
    {
        sight.push(nearest(&hits[r], max_range));
        r += 1;
    }
    assert(sight@ =~= spec_sense(hits@, max_range));
    sight
}

} // verus!
