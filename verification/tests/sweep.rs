use coupled_diffusion::band::{Band, Tridiagonal};
use coupled_diffusion::grid::Grid;
use coupled_diffusion::stencil::{EdgeStencil, Stencil};

#[test]
fn map_nodes_visits_every_node_once_in_order() {
    let grid = Grid::new(4).unwrap();
    let seen = grid.map_nodes(|stencil: Stencil| {
        (stencil.node, stencil.node_before, stencil.node_after, stencil.cell)
    });
    assert_eq!(
        seen,
        vec![
            (0, None, Some(1), 1),
            (1, Some(0), Some(2), 2),
            (2, Some(1), Some(3), 3),
            (3, Some(2), None, 4)
        ]
    );
}

#[test]
fn map_edges_visits_every_edge_once_in_order() {
    let grid = Grid::new(2).unwrap();
    let seen = grid.map_edges(|stencil: EdgeStencil| stencil);
    assert_eq!(
        seen,
        vec![
            EdgeStencil { edge: 0, cell_before: 0, cell_after: 1 },
            EdgeStencil { edge: 1, cell_before: 1, cell_after: 2 },
            EdgeStencil { edge: 2, cell_before: 2, cell_after: 3 },
        ]
    );
}

#[test]
fn map_edges_gives_the_coupling_strengths() {
    let grid = Grid::new(3).unwrap();
    let sizes = [1.0, 3.0, 5.0, 7.0, 9.0];
    let d_u =
        grid.map_edges(|s: EdgeStencil| 2.0 / (sizes[s.cell_before] + sizes[s.cell_after]));
    assert_eq!(d_u, vec![0.5, 0.25, 2.0 / 12.0, 0.125]);
}

#[test]
fn map_nodes_gives_the_weights() {
    let grid = Grid::new(3).unwrap();
    let capacity = [1.0, 2.0, 4.0, 8.0];
    let j = [0.5, 0.25, 0.125, 1.0, 1.0];
    let w = grid.map_nodes(|s: Stencil| 1.0 / (capacity[s.edge_after] * j[s.cell_before]));
    assert_eq!(w, vec![1.0, 1.0, 1.0]);
}

#[test]
fn accumulate_nodes_hands_each_node_the_value_before() {
    let grid = Grid::new(4).unwrap();
    let seen = grid.accumulate_nodes(|before: Option<u32>, stencil: Stencil| match before {
        None => 100 + stencil.node as u32,
        Some(value) => 2 * value + stencil.node as u32,
    });
    assert_eq!(seen, vec![100, 201, 404, 811]);
}

fn depths(grid: &Grid, sizes: &[f64]) -> Vec<f64> {
    grid.accumulate_nodes(|before: Option<f64>, s: Stencil| {
        let half = (sizes[s.cell_before] + sizes[s.cell]) / 2.0;
        match before {
            None => half,
            Some(depth) => depth + half,
        }
    })
}

#[test]
fn accumulate_nodes_gives_the_measurement_depths() {
    let grid = Grid::new(3).unwrap();
    assert_eq!(depths(&grid, &[25.0; 5]), vec![25.0, 50.0, 75.0]);
    assert_eq!(depths(&grid, &[2.0, 4.0, 6.0, 8.0, 10.0]), vec![3.0, 8.0, 15.0]);
}

#[test]
fn measurement_depths_increase_for_equal_cells() {
    for nodes in 1..40 {
        let grid = Grid::new(nodes).unwrap();
        let l = 100.0 / grid.edges() as f64;
        let zmeas = depths(&grid, &vec![l; grid.cells()]);
        assert_eq!(zmeas.len(), nodes);
        assert!(zmeas[0] > 0.0);
        assert!(zmeas.windows(2).all(|pair| pair[0] < pair[1]));
        assert!((zmeas[nodes - 1] - (100.0 - l)).abs() < 1e-9);
    }
}

#[test]
fn sweeps_over_a_single_node() {
    let grid = Grid::new(1).unwrap();
    assert_eq!(grid.map_nodes(|s: Stencil| s.node), vec![0]);
    assert_eq!(grid.map_edges(|s: EdgeStencil| s.edge), vec![0, 1]);
    assert_eq!(grid.accumulate_nodes(|before: Option<u8>, _| before.map_or(7, |b| b + 1)), vec![7]);
}

fn diffusion_operator(grid: &Grid, aux: &[f64], w: &[f64]) -> Tridiagonal<f64> {
    grid.assemble_operator(|s: Stencil, band: Band| {
        w[s.node]
            * match band {
                Band::Lower => aux[s.edge_before],
                Band::Diagonal => -(aux[s.edge_before] + aux[s.edge_after]),
                Band::Upper => aux[s.edge_after],
            }
    })
}

#[test]
fn assemble_operator_asks_for_each_stored_entry_once() {
    let grid = Grid::new(3).unwrap();
    let asked = std::cell::RefCell::new(Vec::new());
    let matrix = grid.assemble_operator(|s: Stencil, band: Band| {
        asked.borrow_mut().push((s.node, band));
        (s.node, band)
    });
    assert_eq!(matrix.dim(), 3);
    assert_eq!(
        asked.into_inner(),
        vec![
            (0, Band::Diagonal),
            (0, Band::Upper),
            (1, Band::Lower),
            (1, Band::Diagonal),
            (1, Band::Upper),
            (2, Band::Lower),
            (2, Band::Diagonal),
        ]
    );
    assert_eq!(matrix.get(0, 0), Some(&(0, Band::Diagonal)));
    assert_eq!(matrix.get(0, 1), Some(&(0, Band::Upper)));
    assert_eq!(matrix.get(1, 0), Some(&(1, Band::Lower)));
    assert_eq!(matrix.get(2, 1), Some(&(2, Band::Lower)));
    assert_eq!(matrix.get(1, 2), Some(&(1, Band::Upper)));
    assert_eq!(matrix.get(0, 2), None);
}

#[test]
fn diffusion_operator_assembled_from_the_stencils() {
    let grid = Grid::new(3).unwrap();
    let operator = diffusion_operator(&grid, &[1.0, 2.0, 4.0, 8.0], &[1.0, 10.0, 100.0]);
    assert_eq!(operator.get(0, 0), Some(&-3.0));
    assert_eq!(operator.get(0, 1), Some(&2.0));
    assert_eq!(operator.get(1, 0), Some(&20.0));
    assert_eq!(operator.get(1, 1), Some(&-60.0));
    assert_eq!(operator.get(1, 2), Some(&40.0));
    assert_eq!(operator.get(2, 1), Some(&400.0));
    assert_eq!(operator.get(2, 2), Some(&-1200.0));
    assert_eq!(operator.get(0, 2), None);
    assert_eq!(operator.get(2, 0), None);
}

#[test]
fn advective_operator_assembled_from_the_stencils() {
    let grid = Grid::new(3).unwrap();
    let aux = [1.0, 2.0, 4.0, 8.0];
    let j = [1.0, 10.0, 100.0, 1000.0, 10000.0];
    let operator = grid.assemble_operator(|s: Stencil, band: Band| match band {
        Band::Lower => j[s.cell] * aux[s.edge_before],
        Band::Diagonal => -j[s.cell_before] * aux[s.edge_before] - j[s.cell_after] * aux[s.edge_after],
        Band::Upper => j[s.cell] * aux[s.edge_after],
    });
    assert_eq!(operator.get(0, 0), Some(&(-1.0 - 200.0)));
    assert_eq!(operator.get(0, 1), Some(&20.0));
    assert_eq!(operator.get(1, 0), Some(&200.0));
    assert_eq!(operator.get(1, 1), Some(&(-20.0 - 4000.0)));
    assert_eq!(operator.get(1, 2), Some(&400.0));
    assert_eq!(operator.get(2, 1), Some(&4000.0));
    assert_eq!(operator.get(2, 2), Some(&(-400.0 - 80000.0)));
}

#[test]
fn operator_of_a_single_node_is_one_by_one() {
    let grid = Grid::new(1).unwrap();
    let operator = diffusion_operator(&grid, &[3.0, 5.0], &[2.0]);
    assert_eq!(operator.dim(), 1);
    assert_eq!(operator.get(0, 0), Some(&-16.0));
    assert_eq!(operator.get(0, 1), None);
    assert_eq!(operator.get(1, 0), None);
}
