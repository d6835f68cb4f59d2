use agenticos::bench::WorkloadKind;
use agenticos::experiment::{cartesian_product, plan_runs};

#[test]
fn cartesian_product_varies_the_last_list_fastest() {
    let lists = vec![vec![0.5f64, 0.9], vec![10.0, 20.0, 30.0]];
    let combos = cartesian_product(&lists);
    assert_eq!(
        combos,
        vec![
            vec![0.5, 10.0],
            vec![0.5, 20.0],
            vec![0.5, 30.0],
            vec![0.9, 10.0],
            vec![0.9, 20.0],
            vec![0.9, 30.0],
        ]
    );
    let none: Vec<Vec<f64>> = vec![];
    assert_eq!(cartesian_product(&none), vec![Vec::<f64>::new()]);
    let with_empty = vec![vec![1u64, 2], vec![]];
    assert!(cartesian_product(&with_empty).is_empty());
}

#[test]
fn experiment_runs_cover_workloads_seeds_and_tick_counts() {
    let runs = plan_runs(&[WorkloadKind::CpuContention, WorkloadKind::Mixed], &[1, 2], &[]);
    assert_eq!(
        runs,
        vec![
            (WorkloadKind::CpuContention, 1, 10),
            (WorkloadKind::CpuContention, 2, 10),
            (WorkloadKind::Mixed, 1, 10),
            (WorkloadKind::Mixed, 2, 10),
        ]
    );
    assert_eq!(plan_runs(&[WorkloadKind::IncidentStorm], &[], &[5, 6]), vec![(WorkloadKind::IncidentStorm, 42, 5), (WorkloadKind::IncidentStorm, 42, 6)]);
    assert!(plan_runs(&[], &[1], &[1]).is_empty());
}
