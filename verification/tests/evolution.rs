use evosim::evolution::{
    plan_succession, select_elite, total_fitness, ElitePolicy, Generation, Succession,
};

#[test]
fn elite_of_empty_population_is_none() {
    assert_eq!(select_elite(&vec![]), None);
}

#[test]
fn elite_of_single_agent() {
    assert_eq!(select_elite(&vec![0]), Some(0));
}

#[test]
fn elite_has_the_greatest_fitness() {
    assert_eq!(select_elite(&vec![3, 9, 2, 7]), Some(1));
}

#[test]
fn elite_of_a_tie_is_the_last_in_iteration_order() {
    assert_eq!(select_elite(&vec![5, 1, 5, 0]), Some(2));
    assert_eq!(select_elite(&vec![0, 0, 0]), Some(2));
}

#[test]
fn elite_with_largest_counter() {
    assert_eq!(select_elite(&vec![usize::MAX, 1, usize::MAX - 1]), Some(0));
}

#[test]
fn total_fitness_adds_all_agents() {
    assert_eq!(total_fitness(&vec![]), 0);
    assert_eq!(total_fitness(&vec![1, 2, 3, 4]), 10);
}

#[test]
fn total_fitness_does_not_overflow() {
    let sum = total_fitness(&vec![usize::MAX, usize::MAX]);
    assert_eq!(sum, 2 * (usize::MAX as u128));
}

#[test]
fn generation_starts_at_epoch_zero() {
    let g = Generation::new();
    assert_eq!(g.epoch(), 0);
    assert_eq!(g.max_fitness(), 0);
    assert_eq!(g.total_fitness(), 0);
    assert_eq!(g.population(), 0);
    assert_eq!(g.average_fitness(), 0);
}

#[test]
fn generation_record_takes_the_figures() {
    let mut g = Generation::new();
    g.record(&vec![4, 1, 6, 2]);
    assert_eq!(g.epoch(), 1);
    assert_eq!(g.max_fitness(), 6);
    assert_eq!(g.total_fitness(), 13);
    assert_eq!(g.population(), 4);
    assert_eq!(g.average_fitness(), 3);
}

#[test]
fn generation_epoch_counts_every_boundary() {
    let mut g = Generation::new();
    g.record(&vec![1]);
    g.record(&vec![]);
    g.record(&vec![2, 2]);
    assert_eq!(g.epoch(), 3);
    assert_eq!(g.max_fitness(), 2);
    assert_eq!(g.average_fitness(), 2);
}

#[test]
fn generation_of_empty_population_has_zero_figures() {
    let mut g = Generation::new();
    g.record(&vec![7, 7]);
    g.record(&vec![]);
    assert_eq!(g.epoch(), 2);
    assert_eq!(g.max_fitness(), 0);
    assert_eq!(g.total_fitness(), 0);
    assert_eq!(g.average_fitness(), 0);
}

#[test]
fn generation_accepts_a_worse_elite() {
    let mut g = Generation::new();
    g.record(&vec![9, 3]);
    assert_eq!(g.max_fitness(), 9);
    g.record(&vec![2, 1]);
    assert_eq!(g.max_fitness(), 2);
}

#[test]
fn generation_average_never_exceeds_maximum() {
    let mut g = Generation::new();
    g.record(&vec![usize::MAX, usize::MAX, usize::MAX]);
    assert_eq!(g.average_fitness(), usize::MAX);
    assert_eq!(g.max_fitness(), usize::MAX);
}

#[test]
fn mutate_all_makes_everyone_inherit() {
    let plan = plan_succession(&vec![1, 8, 8, 0], ElitePolicy::MutateAll);
    assert_eq!(plan, vec![Succession::MutatedClone; 4]);
}

#[test]
fn preserve_best_keeps_all_that_tie_with_the_elite() {
    let plan = plan_succession(&vec![1, 8, 8, 0], ElitePolicy::PreserveBest);
    assert_eq!(
        plan,
        vec![
            Succession::MutatedClone,
            Succession::Preserved,
            Succession::Preserved,
            Succession::MutatedClone
        ]
    );
}

#[test]
fn succession_of_empty_population_is_empty() {
    assert_eq!(plan_succession(&vec![], ElitePolicy::PreserveBest), vec![]);
    assert_eq!(plan_succession(&vec![], ElitePolicy::MutateAll), vec![]);
}

#[test]
fn preserve_best_with_all_zero_fitness_keeps_everyone() {
    let plan = plan_succession(&vec![0, 0], ElitePolicy::PreserveBest);
    assert_eq!(plan, vec![Succession::Preserved, Succession::Preserved]);
}

#[test]
fn policy_where_none_is_named_mutates_all() {
    assert_eq!(ElitePolicy::default(), ElitePolicy::MutateAll);
}
