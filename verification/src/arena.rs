//! The square map on which targets are placed at random.

use rand::Rng;
use vstd::prelude::*;

verus! {

/// Draws an integer with `rand::Rng::gen_range` on the generator of the
/// current thread, from the half-open range `low..high`.
///
/// Trusted: the value drawn lies in the range. The range must not be empty,
/// because the draw panics on an empty one.
#[verifier::external_body]
fn random_in_range(low: i32, high: i32) -> (r: i32)
    requires
        low < high,
    ensures
        low <= r < high,
{
    rand::thread_rng().gen_range(low..high)
}

/// Whether a coordinate lies on a map of side `map_size` centred at zero.
pub open spec fn on_axis(map_size: int, v: int) -> bool {
    -(map_size / 2) <= v < map_size / 2
}

/// Whether a position lies on a map of side `map_size` centred at the origin.
pub open spec fn in_map(map_size: int, position: (i32, i32)) -> bool {
    on_axis(map_size, position.0 as int) && on_axis(map_size, position.1 as int)
}

/// A square map centred at the origin.
#[derive(Clone, Copy, Debug)]
pub struct Arena {
    map_size: i32,
}

impl Arena {
    /// The length of a side.
    pub closed spec fn size(self) -> int {
        self.map_size as int
    }

    /// Holds of every value of this type: the map has room for a position.
    #[verifier::type_invariant]
    pub open spec fn inv(self) -> bool {
        self.size() >= 2
    }

    /// A map of side `map_size`, if there is a position on such a map: a side
    /// below 2 leaves room for none.
    pub fn new(map_size: i32) -> (arena: Option<Arena>)
        ensures
            arena is Some <==> map_size >= 2,
            arena matches Some(a) ==> a.size() == map_size,
    {
        if map_size >= 2 {
            Some(Arena { map_size })
        } else {
            None
        }
    }

    /// The length of a side.
    pub fn map_size(&self) -> (m: i32)
        ensures
            m == self.size(),
            m >= 2,
    {
        proof {
            use_type_invariant(self);
        }
        self.map_size
    }

    /// Whether `position` lies on the map.
    pub fn contains(&self, position: (i32, i32)) -> (inside: bool)
        ensures
            inside == in_map(self.size(), position),
    {
        proof {
            use_type_invariant(self);
        }
        let half: i32 = self.map_size / 2;
        -half <= position.0 && position.0 < half && -half <= position.1 && position.1 < half
    }

    /// A position drawn at random on the map.
    pub fn random_position_in_map(&self) -> (position: (i32, i32))
        ensures
            in_map(self.size(), position),
    {
        proof {
            use_type_invariant(self);
        }
        let half: i32 = self.map_size / 2;
        let x: i32 = random_in_range(-half, half);
        let y: i32 = random_in_range(-half, half);
        (x, y)
    }
}

/// A target that agents collect.
#[derive(Clone, Copy, PartialEq, Eq, Debug)]
pub struct Food {
    pub position: (i32, i32),
}

impl Food {
    /// A target at a random position of `arena`.
    pub fn spawn(arena: &Arena) -> (food: Food)
        ensures
            in_map(arena.size(), food.position),
    {
        Food { position: arena.random_position_in_map() }
    }
}

/// How many items are missing to have `wanted` of them.
pub fn shortfall(wanted: usize, present: usize) -> (missing: usize)
    requires
        present <= wanted,
    ensures
        missing == wanted - present,
{
    wanted - present
}

/// Adds targets at random positions of `arena` until there are `wanted`.
/// Those that were there stay as they are, in their places.
pub fn replenish(foods: &mut Vec<Food>, wanted: usize, arena: &Arena)
    requires
        old(foods)@.len() <= wanted,
    ensures
        final(foods)@.len() == wanted,
        final(foods)@.take(old(foods)@.len() as int) == old(foods)@,
        forall|j: int|
            old(foods)@.len() <= j < wanted ==> in_map(
                arena.size(),
                (#[trigger] final(foods)@[j]).position,
            ),
{
    let present: usize = foods.len();
    let missing: usize = shortfall(wanted, present);
    let mut added: usize = 0;
    while added < missing
        invariant
            added <= missing,
            missing == wanted - present,
            present == old(foods)@.len(),
            foods@.len() == present + added,
            foods@.take(present as int) == old(foods)@,
            forall|j: int|
                present <= j < present + added ==> in_map(
                    arena.size(),
                    (#[trigger] foods@[j]).position,
                ),
        decreases missing - added,
    {
        let ghost before = foods@;
        foods.push(Food::spawn(arena));
        proof {
            assert(foods@.take(present as int) =~= before.take(present as int));
        }
        added += 1;
    }
}

} // verus!
