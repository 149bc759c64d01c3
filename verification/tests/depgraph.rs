use std::collections::HashSet;

use litho::compiler::DepGraph;

fn sorted(mut v: Vec<u64>) -> Vec<u64> {
    v.sort();
    v
}

fn set(items: &[u64]) -> HashSet<u64> {
    items.iter().copied().collect()
}

#[test]
fn test_depgraph_produce_reports_consumers() {
    let mut graph = DepGraph::new();
    assert!(graph.produce(1, 100).is_empty());
    graph.consume(2, 100);
    graph.consume(3, 100);
    graph.consume(3, 100);
    graph.consume(4, 200);
    assert_eq!(sorted(graph.produce(1, 100)), vec![2, 3]);
    assert_eq!(sorted(graph.produce(5, 200)), vec![4]);
    assert!(graph.produce(6, 300).is_empty());
}

#[test]
fn test_depgraph_invalidate_follows_dependencies() {
    // 1 produces 100, consumed by 2; 2 produces 200, consumed by 3 and 4;
    // 4 produces 300, consumed by 1 (a cycle).
    let mut graph = DepGraph::new();
    graph.produce(1, 100);
    graph.produce(2, 200);
    graph.produce(4, 300);
    graph.consume(2, 100);
    graph.consume(3, 200);
    graph.consume(4, 200);
    graph.consume(1, 300);
    graph.consume(9, 999);

    let mut accumulator = HashSet::new();
    graph.invalidate(1, &mut accumulator);
    assert_eq!(accumulator, set(&[1, 2, 3, 4]));

    let mut accumulator = HashSet::new();
    graph.invalidate(3, &mut accumulator);
    assert_eq!(accumulator, set(&[3]));

    let mut accumulator = set(&[2]);
    graph.invalidate(1, &mut accumulator);
    assert_eq!(accumulator, set(&[1, 2]));

    let mut accumulator = set(&[1]);
    graph.invalidate(1, &mut accumulator);
    assert_eq!(accumulator, set(&[1]));
}

#[test]
fn test_depgraph_invalidate_twice_changes_nothing() {
    let mut graph = DepGraph::new();
    graph.produce(1, 10);
    graph.consume(2, 10);
    let mut accumulator = HashSet::new();
    graph.invalidate(1, &mut accumulator);
    let once = accumulator.clone();
    graph.invalidate(1, &mut accumulator);
    assert_eq!(accumulator, once);
    assert_eq!(accumulator, set(&[1, 2]));
}

#[test]
fn test_depgraph_remove_forgets_node() {
    let mut graph = DepGraph::new();
    graph.produce(1, 10);
    graph.consume(2, 10);
    graph.consume(3, 10);
    graph.remove(2);
    assert_eq!(sorted(graph.produce(1, 10)), vec![3]);
    graph.remove(3);
    assert!(graph.produce(1, 10).is_empty());
    graph.remove(1);
    let mut accumulator = HashSet::new();
    graph.invalidate(1, &mut accumulator);
    assert_eq!(accumulator, set(&[1]));
}
