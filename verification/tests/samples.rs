use coupled_diffusion::samples::{run_to_samples, RunError, SampleMatrix};

fn matrix() -> SampleMatrix<f64> {
    SampleMatrix::from_columns(
        4,
        vec![vec![1.0, 2.0, 3.0, 4.0], vec![10.0, 20.0, 30.0, 40.0], vec![-1.0, -2.0, -3.0, -4.0]],
    )
    .unwrap()
}

#[test]
fn from_columns_keeps_the_columns() {
    let m = matrix();
    assert_eq!(m.rows(), 4);
    assert_eq!(m.cols(), 3);
    assert_eq!(m.column(1), Some(&vec![10.0, 20.0, 30.0, 40.0]));
    assert_eq!(m.column(3), None);
    assert_eq!(m.get(2, 0), Some(&3.0));
    assert_eq!(m.get(0, 2), Some(&-1.0));
    assert_eq!(m.get(4, 0), None);
    assert_eq!(m.get(0, 3), None);
}

#[test]
fn from_columns_names_the_first_column_of_another_length() {
    let made = SampleMatrix::from_columns(2, vec![vec![1, 2], vec![3], vec![4, 5, 6]]);
    assert_eq!(made.err(), Some(1));
    let made = SampleMatrix::from_columns(2, vec![vec![1, 2, 3]]);
    assert_eq!(made.err(), Some(0));
}

#[test]
fn from_columns_accepts_no_column_at_all() {
    let m = SampleMatrix::<f64>::from_columns(6, Vec::new()).unwrap();
    assert_eq!(m.rows(), 6);
    assert_eq!(m.cols(), 0);
    assert_eq!(m.get(0, 0), None);
    assert_eq!(m.row_block(0, 6), Some(Vec::new()));
}

#[test]
fn row_block_lays_the_rows_out_one_after_another() {
    let m = matrix();
    assert_eq!(m.row_block(0, 2), Some(vec![1.0, 10.0, -1.0, 2.0, 20.0, -2.0]));
    assert_eq!(m.row_block(2, 4), Some(vec![3.0, 30.0, -3.0, 4.0, 40.0, -4.0]));
    assert_eq!(m.row_block(1, 2), Some(vec![2.0, 20.0, -2.0]));
    assert_eq!(m.row_block(3, 3), Some(Vec::new()));
}

#[test]
fn row_block_refuses_what_is_no_range_of_rows() {
    let m = matrix();
    assert_eq!(m.row_block(0, 5), None);
    assert_eq!(m.row_block(3, 2), None);
    assert_eq!(m.row_block(5, 5), None);
}

#[test]
fn row_block_of_a_single_column_is_a_slice_of_the_state() {
    let m = SampleMatrix::from_columns(6, vec![vec![1, 2, 3, 4, 5, 6]]).unwrap();
    assert_eq!(m.row_block(0, 3), Some(vec![1, 2, 3]));
    assert_eq!(m.row_block(3, 6), Some(vec![4, 5, 6]));
}

fn drift(from: f64, to: f64, state: &Vec<f64>) -> Result<Vec<f64>, String> {
    if to < from {
        return Err(format!("{} is before {}", to, from));
    }
    Ok(state.iter().map(|y| y + (to - from)).collect())
}

#[test]
fn run_to_samples_sets_out_from_the_previous_sample() {
    let m = run_to_samples(drift, vec![0.0, 100.0], 1.0, &[2.0, 4.0, 8.0]).unwrap();
    assert_eq!(m.rows(), 2);
    assert_eq!(m.cols(), 3);
    assert_eq!(m.column(0), Some(&vec![1.0, 101.0]));
    assert_eq!(m.column(1), Some(&vec![3.0, 103.0]));
    assert_eq!(m.column(2), Some(&vec![7.0, 107.0]));
}

#[test]
fn run_to_samples_passes_the_times_in_order() {
    let log = |from: u32, to: u32, state: &Vec<(u32, u32)>| -> Result<Vec<(u32, u32)>, ()> {
        let mut next = state.clone();
        next[0] = (from, to);
        Ok(next)
    };
    let m = run_to_samples(log, vec![(0, 0)], 10, &[20, 30, 40]).unwrap();
    assert_eq!(m.row_block(0, 1), Some(vec![(10, 20), (20, 30), (30, 40)]));
}

#[test]
fn run_to_samples_without_output_times_samples_nothing() {
    let m = run_to_samples(drift, vec![0.0, 100.0], 1.0, &[]).unwrap();
    assert_eq!(m.rows(), 2);
    assert_eq!(m.cols(), 0);
}

#[test]
fn run_to_samples_stops_at_the_first_failure() {
    let out = run_to_samples(drift, vec![0.0], 0.0, &[1.0, 0.5, 2.0]);
    match out {
        Err(RunError::Integrator { column, error }) => {
            assert_eq!(column, 1);
            assert_eq!(error, "0.5 is before 1");
        }
        other => panic!("{:?}", other.map(|m| m.cols())),
    }
}

#[test]
fn run_to_samples_refuses_a_state_of_another_length() {
    let grow = |_: f64, to: f64, state: &Vec<f64>| -> Result<Vec<f64>, ()> {
        let mut next = state.clone();
        if to > 2.5 {
            next.push(0.0);
        }
        Ok(next)
    };
    let out = run_to_samples(grow, vec![1.0, 2.0], 0.0, &[1.0, 2.0, 3.0, 4.0]);
    assert!(matches!(out, Err(RunError::StateLength { column: 2 })));
}
