//! The state of a simulation run and what each tick of the clock decides.

use crate::arena::{in_map, Arena, Food};
use crate::control::Control;
use crate::evolution::{
    is_elite, plan_succession, select_elite, succession_plan, ElitePolicy, Generation,
    GenerationState, Succession,
};
use crate::timer::{GenerationTimer, RepeatingTimer, TimerState, UpdateTimer};
use crate::topology::{Layout, Topology};
use vstd::prelude::*;

verus! {

/// What a tick orders: whether the agents take a step, and whether the
/// generation ends after it.
#[derive(Clone, Copy, PartialEq, Eq, Debug)]
pub struct Schedule {
    pub step: bool,
    pub rollover: bool,
}

/// What a generation boundary decided.
#[derive(Debug)]
pub struct Rollover {
    /// The place of the elite, whose network seeds the next generation.
    pub elite: usize,
    /// The number of the generation that begins; never 0.
    pub epoch: usize,
    /// For each agent, what its network becomes.
    pub succession: Vec<Succession>,
}

/// Mathematical state of a run.
pub struct WorldState {
    /// Timer of the steps.
    pub update_timer: TimerState,
    /// Timer of the generations. It is advanced only on ticks that order a
    /// step.
    pub generation_timer: TimerState,
    /// Figures of the generations so far.
    pub generation: GenerationState,
    /// Fitness of each agent in the running generation.
    pub fitness: Seq<usize>,
    /// What happens to the elite at a boundary.
    pub policy: ElitePolicy,
    /// The layout of every agent's network.
    pub topology: Layout,
    /// The agent that the operator controls, if any.
    pub manual: Option<usize>,
}

impl WorldState {
    /// All parts are valid.
    pub open spec fn valid(self) -> bool {
        &&& self.update_timer.valid()
        &&& self.generation_timer.valid()
        &&& self.generation.valid()
        &&& self.topology.valid()
    }

    /// What a tick orders after `elapsed` nanoseconds: a step when the update
    /// timer fires, and a generation boundary when on such a tick the
    /// generation timer fires too.
    pub open spec fn schedule(self, elapsed: nat) -> Schedule {
        Schedule {
            step: self.update_timer.fires(elapsed),
            rollover: self.update_timer.fires(elapsed) && self.generation_timer.fires(elapsed),
        }
    }

    /// The state after a tick of `elapsed` nanoseconds. Only the timers move.
    pub open spec fn after_tick(self, elapsed: nat) -> WorldState {
        WorldState {
            update_timer: self.update_timer.advance(elapsed),
            generation_timer: if self.update_timer.fires(elapsed) {
                self.generation_timer.advance(elapsed)
            } else {
                self.generation_timer
            },
            ..self
        }
    }

    /// The state after `agent` scored one point.
    pub open spec fn after_reward(self, agent: int) -> WorldState {
        WorldState {
            fitness: self.fitness.update(agent, (self.fitness[agent] + 1) as usize),
            ..self
        }
    }

    /// The state after the fitness of `agent` was set to `value`.
    pub open spec fn after_score(self, agent: int, value: usize) -> WorldState {
        WorldState { fitness: self.fitness.update(agent, value), ..self }
    }

    /// The state after a generation boundary: the figures of the generation
    /// are taken, and every agent starts over with no fitness.
    pub open spec fn after_rollover(self) -> WorldState {
        WorldState {
            generation: self.generation.next(self.fitness),
            fitness: Seq::new(self.fitness.len(), |i: int| 0usize),
            ..self
        }
    }

    /// Who controls `agent`.
    pub open spec fn control_of(self, agent: usize) -> Control {
        if self.manual == Some(agent) {
            Control::Manual
        } else {
            Control::Autonomous
        }
    }
}

/// A tick of no time changes nothing: no timer moves, and no agent's fitness,
/// no figure and no setting changes. On a run whose steps are paced by a
/// period it orders nothing either, so that the caller leaves every agent
/// where it is.
pub proof fn idle_tick(w: WorldState)
    requires
        w.valid(),
    ensures
        w.after_tick(0) == w,
        w.update_timer.period > 0 ==> w.schedule(0) == (Schedule { step: false, rollover: false }),
{
    if w.update_timer.period > 0 {
        crate::timer::zero_advance_is_idle(w.update_timer);
    }
    if w.generation_timer.period > 0 {
        crate::timer::zero_advance_is_idle(w.generation_timer);
    }
}

/// No tick, whatever time it brings, changes the fitness of an agent, the
/// figures of the generations or the settings of the run.
pub proof fn tick_moves_timers_only(w: WorldState, elapsed: nat)
    ensures
        w.after_tick(elapsed).fitness == w.fitness,
        w.after_tick(elapsed).generation == w.generation,
        w.after_tick(elapsed).policy == w.policy,
        w.after_tick(elapsed).topology == w.topology,
        w.after_tick(elapsed).manual == w.manual,
{
}

/// After a generation boundary every agent has fitness 0, the population and
/// the layout of the networks are what they were, and the epoch is one more.
pub proof fn rollover_starts_over(w: WorldState)
    ensures
        w.after_rollover().fitness.len() == w.fitness.len(),
        forall|i: int| 0 <= i < w.fitness.len() ==> w.after_rollover().fitness[i] == 0,
        w.after_rollover().topology == w.topology,
        w.after_rollover().policy == w.policy,
        w.after_rollover().generation.epoch == w.generation.epoch + 1,
{
}

/// Under `MutateAll` every agent, the elite too, inherits from the elite;
/// under `PreserveBest` the elite keeps its network.
pub proof fn elite_succession(fitness: Seq<usize>, policy: ElitePolicy, elite: int)
    requires
        is_elite(fitness, elite),
    ensures
        policy == ElitePolicy::MutateAll ==> forall|i: int|
            0 <= i < fitness.len() ==> succession_plan(fitness, policy)[i]
                == Succession::MutatedClone,
        policy == ElitePolicy::PreserveBest ==> succession_plan(fitness, policy)[elite]
            == Succession::Preserved,
{
    crate::evolution::elite_is_greatest(fitness, elite);
}

/// A simulation run: its timers, the figures of its generations and the
/// fitness of its agents.
pub struct SimulationWorld {
    update_timer: UpdateTimer,
    generation_timer: GenerationTimer,
    generation: Generation,
    fitness: Vec<usize>,
    policy: ElitePolicy,
    topology: Topology,
    manual: Option<usize>,
}

impl View for SimulationWorld {
    type V = WorldState;

    closed spec fn view(&self) -> WorldState {
        WorldState {
            update_timer: self.update_timer.0@,
            generation_timer: self.generation_timer.0@,
            generation: self.generation@,
            fitness: self.fitness@,
            policy: self.policy,
            topology: self.topology@,
            manual: self.manual,
        }
    }
}

impl SimulationWorld {
    /// A run of `population` agents without fitness, before its first
    /// generation boundary. Steps are due every `update_period` nanoseconds
    /// (on every tick if that is 0), generations end every
    /// `generation_period` nanoseconds.
    pub fn new(
        population: usize,
        update_period: u64,
        generation_period: u64,
        policy: ElitePolicy,
        topology: Topology,
    ) -> (world: SimulationWorld)
        ensures
            world@ == (WorldState {
                update_timer: TimerState { elapsed: 0, period: update_period as nat },
                generation_timer: TimerState { elapsed: 0, period: generation_period as nat },
                generation: GenerationState::initial(),
                fitness: Seq::new(population as nat, |i: int| 0usize),
                policy,
                topology: topology@,
                manual: None,
            }),
            world@.valid(),
    {
        let mut fitness: Vec<usize> = Vec::new();
        let mut i: usize = 0;
        while i < population
            invariant
                i <= population,
                fitness@.len() == i,
                forall|j: int| 0 <= j < i ==> fitness@[j] == 0,
            decreases population - i,
        {
            fitness.push(0);
            i += 1;
        }
        assert(fitness@ =~= Seq::new(population as nat, |i: int| 0usize));
        proof {
            use_type_invariant(&topology);
        }
        SimulationWorld {
            update_timer: UpdateTimer(RepeatingTimer::new(update_period)),
            generation_timer: GenerationTimer(RepeatingTimer::new(generation_period)),
            generation: Generation::new(),
            fitness,
            policy,
            topology,
            manual: None,
        }
    }

    /// Advances the run by `elapsed` nanoseconds and tells what is due.
    pub fn tick(&mut self, elapsed: u64) -> (due: Schedule)
        ensures
            final(self)@ == old(self)@.after_tick(elapsed as nat),
            due == old(self)@.schedule(elapsed as nat),
            final(self)@.valid(),
    {
        proof {
            use_type_invariant(&self.generation_timer.0);
            use_type_invariant(&self.generation);
            use_type_invariant(&self.topology);
        }
        let step = self.update_timer.0.tick(elapsed);
        let rollover = if step {
            self.generation_timer.0.tick(elapsed)
        } else {
            false
        };
        Schedule { step, rollover }
    }

    /// Counts one point for `agent`.
    pub fn reward(&mut self, agent: usize)
        requires
            agent < old(self)@.fitness.len(),
            old(self)@.fitness[agent as int] < usize::MAX,
        ensures
            final(self)@ == old(self)@.after_reward(agent as int),
            final(self)@.valid(),
    {
        proof {
            use_type_invariant(&self.update_timer.0);
            use_type_invariant(&self.generation_timer.0);
            use_type_invariant(&self.generation);
            use_type_invariant(&self.topology);
        }
        let points: usize = self.fitness[agent];
        self.fitness.set(agent, points + 1);
    }

    /// Sets the fitness that `agent` has gathered in this generation.
    pub fn score(&mut self, agent: usize, value: usize)
        requires
            agent < old(self)@.fitness.len(),
        ensures
            final(self)@ == old(self)@.after_score(agent as int, value),
            final(self)@.valid(),
    {
        proof {
            use_type_invariant(&self.update_timer.0);
            use_type_invariant(&self.generation_timer.0);
            use_type_invariant(&self.generation);
            use_type_invariant(&self.topology);
        }
        self.fitness.set(agent, value);
    }

    /// `agent` has reached `food`: it scores one point, and the food moves to
    /// a position drawn at random in `arena`.
    pub fn capture(&mut self, agent: usize, food: &mut Food, arena: &Arena)
        requires
            agent < old(self)@.fitness.len(),
            old(self)@.fitness[agent as int] < usize::MAX,
        ensures
            final(self)@ == old(self)@.after_reward(agent as int),
            final(self)@.valid(),
            in_map(arena.size(), final(food).position),
    {
        self.reward(agent);
        food.position = arena.random_position_in_map();
    }

    /// Ends the generation: takes its figures, finds the elite and decides
    /// who inherits from it, and starts every agent over with no fitness.
    /// A run without agents has no elite.
    pub fn rollover(&mut self) -> (r: Option<Rollover>)
        requires
            old(self)@.generation.epoch < usize::MAX,
        ensures
            final(self)@ == old(self)@.after_rollover(),
            final(self)@.valid(),
            r is None <==> old(self)@.fitness.len() == 0,
            r matches Some(v) ==> {
                &&& is_elite(old(self)@.fitness, v.elite as int)
                &&& v.epoch == old(self)@.generation.epoch + 1
                &&& v.succession@ == succession_plan(old(self)@.fitness, old(self)@.policy)
            },
    {
        proof {
            use_type_invariant(&self.update_timer.0);
            use_type_invariant(&self.generation_timer.0);
            use_type_invariant(&self.generation);
            use_type_invariant(&self.topology);
        }
        self.generation.record(&self.fitness);
        let decided = match select_elite(&self.fitness) {
            Some(elite) => Some(
                Rollover {
                    elite,
                    epoch: self.generation.epoch(),
                    succession: plan_succession(&self.fitness, self.policy),
                },
            ),
            None => None,
        };
        let mut i: usize = 0;
        while i < self.fitness.len()
            invariant
                i <= self.fitness@.len(),
                self.fitness@.len() == old(self).fitness@.len(),
                forall|j: int| 0 <= j < i ==> self.fitness@[j] == 0,
                self.update_timer == old(self).update_timer,
                self.generation_timer == old(self).generation_timer,
                self.generation@ == old(self).generation@.next(old(self).fitness@),
                self.policy == old(self).policy,
                self.topology == old(self).topology,
                self.manual == old(self).manual,
            decreases self.fitness@.len() - i,
        {
            self.fitness.set(i, 0);
            i += 1;
        }
        assert(self.fitness@ =~= Seq::new(old(self).fitness@.len(), |i: int| 0usize));
        decided
    }

    /// Puts `agent` under the operator's control, or every agent under its
    /// own with `None`. At most one agent is controlled by the operator.
    pub fn designate(&mut self, agent: Option<usize>)
        ensures
            final(self)@ == (WorldState { manual: agent, ..old(self)@ }),
            final(self)@.valid(),
    {
        proof {
            use_type_invariant(&self.update_timer.0);
            use_type_invariant(&self.generation_timer.0);
            use_type_invariant(&self.generation);
            use_type_invariant(&self.topology);
        }
        self.manual = agent;
    }

    /// Who chooses drive and turn of `agent`.
    pub fn controller(&self, agent: usize) -> (c: Control)
        ensures
            c == self@.control_of(agent),
    {
        match self.manual {
            Some(chosen) => if chosen == agent {
                Control::Manual
            } else {
                Control::Autonomous
            },
            None => Control::Autonomous,
        }
    }

    /// Number of agents.
    pub fn population(&self) -> (n: usize)
        ensures
            n == self@.fitness.len(),
    {
        self.fitness.len()
    }

    /// Fitness that `agent` has gathered in this generation, if there is such
    /// an agent.
    pub fn fitness(&self, agent: usize) -> (f: Option<usize>)
        ensures
            f is Some <==> agent < self@.fitness.len(),
            f matches Some(v) ==> v == self@.fitness[agent as int],
    {
        if agent < self.fitness.len() {
            Some(self.fitness[agent])
        } else {
            None
        }
    }

    /// Generation boundaries passed so far.
    pub fn epoch(&self) -> (e: usize)
        ensures
            e == self@.generation.epoch,
    {
        self.generation.epoch()
    }

    /// Greatest fitness at the last generation boundary.
    pub fn max_fitness(&self) -> (m: usize)
        ensures
            m == self@.generation.max_fitness,
    {
        self.generation.max_fitness()
    }

    /// Whole part of the mean fitness at the last generation boundary.
    pub fn average_fitness(&self) -> (a: usize)
        ensures
            a == self@.generation.average_fitness(),
    {
        self.generation.average_fitness()
    }

    /// The layout of every agent's network.
    pub fn topology(&self) -> (t: &Topology)
        ensures
            t@ == self@.topology,
    {
        &self.topology
    }

    /// What happens to the elite at a generation boundary.
    pub fn policy(&self) -> (p: ElitePolicy)
        ensures
            p == self@.policy,
    {
        self.policy
    }
}

} // verus!
