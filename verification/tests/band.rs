use coupled_diffusion::band::{BandError, Tridiagonal};

fn sample() -> Tridiagonal<f64> {
    Tridiagonal::assemble_from_diagonals(
        vec![1.0, 2.0],
        vec![10.0, 20.0, 30.0],
        vec![-1.0, -2.0],
    )
    .unwrap()
}

#[test]
fn assemble_places_the_three_diagonals() {
    let matrix = sample();
    assert_eq!(matrix.dim(), 3);
    let dense: Vec<Vec<Option<f64>>> = (0..3)
        .map(|row| (0..3).map(|col| matrix.get(row, col).copied()).collect())
        .collect();
    assert_eq!(
        dense,
        vec![
            vec![Some(10.0), Some(-1.0), None],
            vec![Some(1.0), Some(20.0), Some(-2.0)],
            vec![None, Some(2.0), Some(30.0)],
        ]
    );
}

#[test]
fn get_outside_the_matrix_is_none() {
    let matrix = sample();
    assert_eq!(matrix.get(3, 3), None);
    assert_eq!(matrix.get(0, 3), None);
    assert_eq!(matrix.get(3, 2), None);
    assert_eq!(matrix.get(usize::MAX, usize::MAX), None);
    assert_eq!(matrix.get(usize::MAX, 0), None);
}

#[test]
fn assemble_rejects_an_empty_diagonal() {
    let made = Tridiagonal::<f64>::assemble_from_diagonals(vec![], vec![], vec![]);
    assert_eq!(made.unwrap_err(), BandError::EmptyDiagonal);
    let made = Tridiagonal::<f64>::assemble_from_diagonals(vec![1.0], vec![], vec![1.0]);
    assert_eq!(made.unwrap_err(), BandError::EmptyDiagonal);
}

#[test]
fn assemble_rejects_a_wrong_sub_diagonal() {
    let made = Tridiagonal::assemble_from_diagonals(vec![1, 2, 3], vec![1, 2, 3], vec![1, 2]);
    assert_eq!(made.unwrap_err(), BandError::LowerLength);
    let made = Tridiagonal::assemble_from_diagonals(vec![1], vec![1, 2, 3], vec![1]);
    assert_eq!(made.unwrap_err(), BandError::LowerLength);
}

#[test]
fn assemble_rejects_a_wrong_super_diagonal() {
    let made = Tridiagonal::assemble_from_diagonals(vec![1, 2], vec![1, 2, 3], vec![1]);
    assert_eq!(made.unwrap_err(), BandError::UpperLength);
    let made = Tridiagonal::assemble_from_diagonals(vec![1, 2], vec![1, 2, 3], vec![1, 2, 3]);
    assert_eq!(made.unwrap_err(), BandError::UpperLength);
}

fn dot(before: Option<(f64, f64)>, own: (f64, f64), after: Option<(f64, f64)>) -> f64 {
    before.map_or(0.0, |(a, x)| a * x) + own.0 * own.1 + after.map_or(0.0, |(a, x)| a * x)
}

#[test]
fn mat_vec_with_a_dot_kernel_is_the_matrix_vector_product() {
    let matrix = sample();
    let product = matrix.mat_vec_with(&[1.0, 2.0, 3.0], dot).unwrap();
    assert_eq!(product, vec![10.0 - 2.0, 1.0 + 40.0 - 6.0, 4.0 + 90.0]);
}

#[test]
fn mat_vec_with_hands_each_row_its_neighbours() {
    let matrix = Tridiagonal::assemble_from_diagonals(
        vec!['a', 'b', 'c'],
        vec!['p', 'q', 'r', 's'],
        vec!['x', 'y', 'z'],
    )
    .unwrap();
    let seen = matrix
        .mat_vec_with(&[0u8, 1, 2, 3], |before, own, after| (before, own, after))
        .unwrap();
    assert_eq!(
        seen,
        vec![
            (None, ('p', 0), Some(('x', 1))),
            (Some(('a', 0)), ('q', 1), Some(('y', 2))),
            (Some(('b', 1)), ('r', 2), Some(('z', 3))),
            (Some(('c', 2)), ('s', 3), None),
        ]
    );
}

#[test]
fn mat_vec_with_refuses_a_vector_of_another_length() {
    let matrix = sample();
    assert!(matrix.mat_vec_with(&[1.0, 2.0], dot).is_none());
    assert!(matrix.mat_vec_with(&[1.0, 2.0, 3.0, 4.0], dot).is_none());
}

#[test]
fn one_by_one_matrix_has_only_its_diagonal() {
    let matrix = Tridiagonal::assemble_from_diagonals(vec![], vec![-4.0], vec![]).unwrap();
    assert_eq!(matrix.dim(), 1);
    assert_eq!(matrix.get(0, 0), Some(&-4.0));
    assert_eq!(matrix.get(0, 1), None);
    assert_eq!(matrix.get(1, 0), None);
    assert_eq!(matrix.mat_vec_with(&[2.5], dot).unwrap(), vec![-10.0]);
}
