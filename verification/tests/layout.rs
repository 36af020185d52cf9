use coupled_diffusion::grid::Grid;

#[test]
fn split_state_gives_temperature_then_head() {
    let grid = Grid::new(3).unwrap();
    let state = vec![1.0, 2.0, 3.0, 10.0, 20.0, 30.0];
    let (temperature, head) = grid.split_state(&state).unwrap();
    assert_eq!(temperature, vec![1.0, 2.0, 3.0]);
    assert_eq!(head, vec![10.0, 20.0, 30.0]);
}

#[test]
fn split_state_refuses_a_state_of_another_length() {
    let grid = Grid::new(3).unwrap();
    assert!(grid.split_state(&[1.0, 2.0, 3.0, 4.0, 5.0]).is_none());
    assert!(grid.split_state(&[0.0; 7]).is_none());
    assert!(grid.split_state::<f64>(&[]).is_none());
}

#[test]
fn join_state_puts_temperature_before_head() {
    let grid = Grid::new(2).unwrap();
    let state = grid.join_state(&[1.5, 2.5], &[-1.0, -2.0]).unwrap();
    assert_eq!(state, vec![1.5, 2.5, -1.0, -2.0]);
}

#[test]
fn join_state_refuses_parts_of_another_length() {
    let grid = Grid::new(2).unwrap();
    assert!(grid.join_state(&[1.0], &[1.0, 2.0]).is_none());
    assert!(grid.join_state(&[1.0, 2.0], &[1.0, 2.0, 3.0]).is_none());
}

#[test]
fn split_undoes_join_and_join_undoes_split() {
    let grid = Grid::new(4).unwrap();
    let temperature = vec![1, 2, 3, 4];
    let head = vec![5, 6, 7, 8];
    let state = grid.join_state(&temperature, &head).unwrap();
    assert_eq!(grid.split_state(&state).unwrap(), (temperature, head));
    let other = vec![9, 8, 7, 6, 5, 4, 3, 2];
    let (t, h) = grid.split_state(&other).unwrap();
    assert_eq!(grid.join_state(&t, &h).unwrap(), other);
}

#[test]
fn augment_puts_the_boundary_values_around_the_nodes() {
    let grid = Grid::new(3).unwrap();
    let cells = grid.augment(100.0, &[1.0, 2.0, 3.0], -100.0).unwrap();
    assert_eq!(cells, vec![100.0, 1.0, 2.0, 3.0, -100.0]);
    assert_eq!(cells.len(), grid.cells());
}

#[test]
fn augment_refuses_values_of_another_length() {
    let grid = Grid::new(3).unwrap();
    assert!(grid.augment(0.0, &[1.0, 2.0], 0.0).is_none());
    assert!(grid.augment(0.0, &[1.0, 2.0, 3.0, 4.0], 0.0).is_none());
}

#[test]
fn layout_of_a_single_node() {
    let grid = Grid::new(1).unwrap();
    assert_eq!(grid.split_state(&[7.0, 9.0]).unwrap(), (vec![7.0], vec![9.0]));
    assert_eq!(grid.join_state(&[7.0], &[9.0]).unwrap(), vec![7.0, 9.0]);
    assert_eq!(grid.augment(1.0, &[9.0], 2.0).unwrap(), vec![1.0, 9.0, 2.0]);
}
