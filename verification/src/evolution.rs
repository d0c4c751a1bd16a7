//! Selection at a generation boundary: the elite, the figures of the
//! generation that ends, and who inherits from whom.

use vstd::prelude::*;

verus! {

/// Whether `i` is the place of the elite in `fitness`: no entry is greater,
/// and every later entry is smaller, so of several greatest entries the last
/// one is the elite.
pub open spec fn is_elite(fitness: Seq<usize>, i: int) -> bool {
    &&& 0 <= i < fitness.len()
    &&& forall|j: int| 0 <= j < fitness.len() ==> fitness[j] <= fitness[i]
    &&& forall|j: int| i < j < fitness.len() ==> fitness[j] < fitness[i]
}

/// The greatest entry of `fitness`, and 0 for an empty population.
pub open spec fn greatest(fitness: Seq<usize>) -> nat
    decreases fitness.len(),
{
    if fitness.len() == 0 {
        0
    } else {
        let rest = greatest(fitness.drop_last());
        if fitness.last() as nat >= rest {
            fitness.last() as nat
        } else {
            rest
        }
    }
}

/// The sum of all entries of `fitness`.
pub open spec fn total(fitness: Seq<usize>) -> nat
    decreases fitness.len(),
{
    if fitness.len() == 0 {
        0
    } else {
        total(fitness.drop_last()) + fitness.last() as nat
    }
}

/// A population has at most one elite.
pub proof fn elite_is_unique(fitness: Seq<usize>, i: int, j: int)
    requires
        is_elite(fitness, i),
        is_elite(fitness, j),
    ensures
        i == j,
{
    if i < j {
        assert(fitness[j] < fitness[i]);
        assert(fitness[i] <= fitness[j]);
    } else if j < i {
        assert(fitness[i] < fitness[j]);
        assert(fitness[j] <= fitness[i]);
    }
}

/// No entry exceeds `greatest`, and a population with members attains it.
pub proof fn greatest_bounds(fitness: Seq<usize>)
    ensures
        forall|j: int| 0 <= j < fitness.len() ==> fitness[j] <= greatest(fitness),
        fitness.len() > 0 ==> exists|j: int| 0 <= j < fitness.len() && fitness[j] == greatest(fitness),
    decreases fitness.len(),
{
    if fitness.len() > 0 {
        let front = fitness.drop_last();
        greatest_bounds(front);
        assert forall|j: int| 0 <= j < fitness.len() implies fitness[j] <= greatest(fitness) by {
            if j < front.len() {
                assert(front[j] == fitness[j]);
            }
        }
        if fitness.last() as nat >= greatest(front) {
            assert(fitness[fitness.len() - 1] == greatest(fitness));
        } else {
            let k = choose|k: int| 0 <= k < front.len() && front[k] == greatest(front);
            assert(fitness[k] == greatest(fitness));
        }
    }
}

/// The elite holds the greatest fitness of its population.
pub proof fn elite_is_greatest(fitness: Seq<usize>, i: int)
    requires
        is_elite(fitness, i),
    ensures
        fitness[i] == greatest(fitness),
{
    greatest_bounds(fitness);
}

/// The total of a population is at most its size times its greatest entry.
pub proof fn total_bounds(fitness: Seq<usize>)
    ensures
        total(fitness) <= fitness.len() * greatest(fitness),
        greatest(fitness) <= usize::MAX,
    decreases fitness.len(),
{
    if fitness.len() > 0 {
        let front = fitness.drop_last();
        total_bounds(front);
        let n = front.len() as int;
        let g = greatest(fitness) as int;
        let h = greatest(front) as int;
        assert(n * h <= n * g) by (nonlinear_arith)
            requires
                0 <= n,
                0 <= h <= g,
        ;
        assert(n * g + g == (n + 1) * g) by (nonlinear_arith);
    }
}

/// The place of the elite among `fitness`, taken in iteration order: the last
/// of the agents with the greatest fitness. An empty population has none.
pub fn select_elite(fitness: &Vec<usize>) -> (elite: Option<usize>)
    ensures
        elite is None <==> fitness@.len() == 0,
        elite matches Some(i) ==> is_elite(fitness@, i as int),
{
    if fitness.len() == 0 {
        return None;
    }
    let mut best: usize = 0;
    let mut i: usize = 1;
    while i < fitness.len()
        invariant
            1 <= i <= fitness.len(),
            best < i,
            forall|j: int| 0 <= j < i ==> fitness@[j] <= fitness@[best as int],
            forall|j: int| best < j < i ==> fitness@[j] < fitness@[best as int],
        decreases fitness.len() - i,
    {
        if fitness[i] >= fitness[best] {
            best = i;
        }
        i += 1;
    }
    Some(best)
}

/// Adds up `fitness`. The sum of machine-sized counters always fits the
/// wider result.
pub fn total_fitness(fitness: &Vec<usize>) -> (sum: u128)
    ensures
        sum == total(fitness@),
{
    let mut sum: u128 = 0;
    let mut i: usize = 0;
    while i < fitness.len()
        invariant
            i <= fitness.len(),
            sum == total(fitness@.take(i as int)),
        decreases fitness.len() - i,
    {
        proof {
            let upto = fitness@.take(i as int + 1);
            assert(upto.drop_last() == fitness@.take(i as int));
            assert(upto.last() == fitness@[i as int]);
            total_bounds(upto);
            let n = upto.len() as int;
            let g = greatest(upto) as int;
            assert(n * g <= usize::MAX * usize::MAX) by (nonlinear_arith)
                requires
                    0 <= n <= usize::MAX,
                    0 <= g <= usize::MAX,
            ;
            assert(usize::MAX * usize::MAX <= u128::MAX) by (nonlinear_arith);
        }
        sum = sum + fitness[i] as u128;
        i += 1;
    }
    proof {
        assert(fitness@.take(fitness@.len() as int) == fitness@);
    }
    sum
}

/// What a generation boundary does to the elite and to those that tie with it.
/// A run is built with one policy and keeps it for all its generations; the
/// two are never mixed. Where none is named, `MutateAll` is the policy.
#[derive(Clone, Copy, PartialEq, Eq, Debug)]
pub enum ElitePolicy {
    /// Every agent, the elite too, continues with a mutated clone of the
    /// elite's network.
    MutateAll,
    /// Agents whose fitness equals the greatest keep their network as it is;
    /// the others continue with a mutated clone of the elite's network.
    PreserveBest,
}

impl Default for ElitePolicy {
    fn default() -> (policy: ElitePolicy)
        ensures
            policy == ElitePolicy::MutateAll,
    {
        ElitePolicy::MutateAll
    }
}

/// What an agent's network becomes at a generation boundary.
#[derive(Clone, Copy, PartialEq, Eq, Debug)]
pub enum Succession {
    /// The agent keeps its network unchanged.
    Preserved,
    /// The agent receives a clone of the elite's network, mutated on its own.
    MutatedClone,
}

/// The succession of the agent at `i` under `policy`.
pub open spec fn succession_at(fitness: Seq<usize>, policy: ElitePolicy, i: int) -> Succession {
    if policy == ElitePolicy::PreserveBest && fitness[i] == greatest(fitness) {
        Succession::Preserved
    } else {
        Succession::MutatedClone
    }
}

/// The succession of every agent of a population under `policy`.
pub open spec fn succession_plan(fitness: Seq<usize>, policy: ElitePolicy) -> Seq<Succession> {
    Seq::new(fitness.len(), |i: int| succession_at(fitness, policy, i))
}

/// Decides for each agent whether it keeps its network or inherits from the
/// elite.
pub fn plan_succession(fitness: &Vec<usize>, policy: ElitePolicy) -> (plan: Vec<Succession>)
    ensures
        plan@ == succession_plan(fitness@, policy),
{
    let mut plan: Vec<Succession> = Vec::new();
    let top: usize = match select_elite(fitness) {
        Some(elite) => fitness[elite],
        None => 0,
    };
    proof {
        if fitness@.len() > 0 {
            let e = choose|e: int| is_elite(fitness@, e) && fitness@[e] == top;
            elite_is_greatest(fitness@, e);
        }
    }
    let mut i: usize = 0;
    while i < fitness.len()
        invariant
            i <= fitness.len(),
            plan@.len() == i,
            fitness@.len() > 0 ==> top == greatest(fitness@),
            forall|j: int| 0 <= j < i ==> plan@[j] == succession_at(fitness@, policy, j),
        decreases fitness.len() - i,
    {
        let preserved = match policy {
            ElitePolicy::PreserveBest => fitness[i] == top,
            ElitePolicy::MutateAll => false,
        };
        if preserved {
            plan.push(Succession::Preserved);
        } else {
            plan.push(Succession::MutatedClone);
        }
        i += 1;
    }
    assert(plan@ =~= succession_plan(fitness@, policy));
    plan
}

/// Figures of the generations seen so far.
pub struct GenerationState {
    /// Generation boundaries passed.
    pub epoch: nat,
    /// Greatest fitness at the last boundary.
    pub max_fitness: nat,
    /// Sum of all fitness at the last boundary.
    pub total_fitness: nat,
    /// Agents counted at the last boundary.
    pub population: nat,
}

impl GenerationState {
    /// The state before any boundary.
    pub open spec fn initial() -> GenerationState {
        GenerationState { epoch: 0, max_fitness: 0, total_fitness: 0, population: 0 }
    }

    /// The state after a boundary at which the agents hold `fitness`.
    pub open spec fn next(self, fitness: Seq<usize>) -> GenerationState {
        GenerationState {
            epoch: self.epoch + 1,
            max_fitness: greatest(fitness),
            total_fitness: total(fitness),
            population: fitness.len(),
        }
    }

    /// The whole part of the mean fitness at the last boundary, and 0 when no
    /// agent was counted.
    pub open spec fn average_fitness(self) -> nat {
        if self.population == 0 {
            0
        } else {
            self.total_fitness / self.population
        }
    }

    /// The sum never exceeds what the population could hold at most.
    pub open spec fn valid(self) -> bool {
        self.total_fitness <= self.population * self.max_fitness
    }
}

/// The mean of a generation is never above its greatest fitness.
pub proof fn average_at_most_greatest(g: GenerationState)
    requires
        g.valid(),
    ensures
        g.average_fitness() <= g.max_fitness,
{
    if g.population > 0 {
        let p = g.population as int;
        let m = g.max_fitness as int;
        let t = g.total_fitness as int;
        vstd::arithmetic::div_mod::lemma_div_is_ordered(t, p * m, p);
        vstd::arithmetic::div_mod::lemma_div_multiples_vanish(m, p);
        assert(p * m == m * p) by (nonlinear_arith);
    }
}

/// Counter of generations with the figures of the last one.
#[derive(Debug)]
pub struct Generation {
    epoch: usize,
    max_fitness: usize,
    total_fitness: u128,
    population: usize,
}

impl View for Generation {
    type V = GenerationState;

    closed spec fn view(&self) -> GenerationState {
        GenerationState {
            epoch: self.epoch as nat,
            max_fitness: self.max_fitness as nat,
            total_fitness: self.total_fitness as nat,
            population: self.population as nat,
        }
    }
}

impl Generation {
    /// Holds of every value of this type.
    #[verifier::type_invariant]
    pub open spec fn inv(self) -> bool {
        self@.valid()
    }

    /// The counter before any generation boundary.
    pub fn new() -> (g: Generation)
        ensures
            g@ == GenerationState::initial(),
    {
        Generation { epoch: 0, max_fitness: 0, total_fitness: 0, population: 0 }
    }

    /// Generation boundaries passed so far.
    pub fn epoch(&self) -> (e: usize)
        ensures
            e == self@.epoch,
    {
        self.epoch
    }

    /// Greatest fitness at the last boundary.
    pub fn max_fitness(&self) -> (m: usize)
        ensures
            m == self@.max_fitness,
    {
        self.max_fitness
    }

    /// Sum of all fitness at the last boundary.
    pub fn total_fitness(&self) -> (t: u128)
        ensures
            t == self@.total_fitness,
    {
        self.total_fitness
    }

    /// Agents counted at the last boundary.
    pub fn population(&self) -> (p: usize)
        ensures
            p == self@.population,
    {
        self.population
    }

    /// The whole part of the mean fitness at the last boundary; 0 when no
    /// agent was counted.
    pub fn average_fitness(&self) -> (a: usize)
        ensures
            a == self@.average_fitness(),
            self@.valid(),
    {
        proof {
            use_type_invariant(self);
            average_at_most_greatest(self@);
        }
        if self.population == 0 {
            0
        } else {
            (self.total_fitness / (self.population as u128)) as usize
        }
    }

    /// Passes a generation boundary at which the agents hold `fitness`.
    pub fn record(&mut self, fitness: &Vec<usize>)
        requires
            old(self)@.epoch < usize::MAX,
        ensures
            final(self)@ == old(self)@.next(fitness@),
            final(self)@.valid(),
    {
        let top: usize = match select_elite(fitness) {
            Some(elite) => fitness[elite],
            None => 0,
        };
        proof {
            if fitness@.len() > 0 {
                let e = choose|e: int| is_elite(fitness@, e) && fitness@[e] == top;
                elite_is_greatest(fitness@, e);
            }
            total_bounds(fitness@);
        }
        *self = Generation {
            epoch: self.epoch + 1,
            max_fitness: top,
            total_fitness: total_fitness(fitness),
            population: fitness.len(),
        };
    }
}

} // verus!
