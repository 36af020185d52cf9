//! What is examined before a scenario runs: the integration method and the
//! shapes of the inputs.

use crate::grid::{Grid, GridError};
use vstd::prelude::*;

verus! {

/// Why a scenario cannot be run. Every such error is found before any
/// numeric work begins.
#[derive(Clone, Copy, Debug, PartialEq, Eq, Structural)]
pub enum ScenarioError {
    /// The series of the top boundary does not hold exactly two samples.
    TopSeriesLength,
    /// The series of the bottom boundary does not hold exactly two samples.
    BottomSeriesLength,
    /// The column has no interior node.
    NoNodes,
    /// The column has more nodes than `usize` can index.
    TooManyNodes,
    /// There is not one initial temperature per node.
    InitialTemperatureLength,
    /// There is not one initial head per node.
    InitialHeadLength,
    /// A material coefficient vector does not hold one value per edge.
    CoefficientLength,
    /// The name of the integration method is not that of the embedded
    /// Runge-Kutta-Fehlberg pair.
    UnsupportedMethod,
}

/// The integration methods that the solver offers.
#[derive(Clone, Copy, Debug, PartialEq, Eq, Structural)]
pub enum Method {
    /// The embedded Runge-Kutta-Fehlberg pair of orders four and five.
    Rkf45,
}

/// Number of samples in a boundary series: the value at the start time and
/// the value at the final time.
pub const SERIES_SAMPLES: usize = 2;

/// The one name under which an integration method is selected.
pub open spec fn spec_method_name() -> Seq<char> {
    seq!['R', 'F', 'K', '4', '5']
}

impl Method {
    /// The method called `name`. Any name but that of the embedded pair is an
    /// error; no other method stands in for it.
    pub fn from_name(name: &str) -> (found: Result<Method, ScenarioError>)
        ensures
            found is Ok <==> name@ == spec_method_name(),
            found matches Ok(method) ==> method == Method::Rkf45,
            found matches Err(why) ==> why == ScenarioError::UnsupportedMethod,
    {
        if name.unicode_len() != 5 {
            return Err(ScenarioError::UnsupportedMethod);
        }
        if name.get_char(0) == 'R' && name.get_char(1) == 'F' && name.get_char(2) == 'K'
            && name.get_char(3) == '4' && name.get_char(4) == '5' {
            assert(name@ =~= spec_method_name());
            Ok(Method::Rkf45)
        } else {
            Err(ScenarioError::UnsupportedMethod)
        }
    }

    /// The name under which the method is selected.
    pub fn name(&self) -> (name: &'static str)
        ensures
            name@ == spec_method_name(),
    {
        proof {
            reveal_strlit("RFK45");
        }
        let name = "RFK45";
        assert(name@ =~= spec_method_name());
        name
    }
}

/// The first complaint about the shape of a scenario's inputs, in the order
/// in which they are examined; `None` when the shape is sound.
pub open spec fn spec_shape_error(
    top_samples: int,
    bottom_samples: int,
    nodes: int,
    initial_temperatures: int,
    initial_heads: int,
) -> Option<ScenarioError> {
    if top_samples != SERIES_SAMPLES {
        Some(ScenarioError::TopSeriesLength)
    } else if bottom_samples != SERIES_SAMPLES {
        Some(ScenarioError::BottomSeriesLength)
    } else if nodes == 0 {
        Some(ScenarioError::NoNodes)
    } else if nodes > crate::grid::spec_max_nodes() {
        Some(ScenarioError::TooManyNodes)
    } else if initial_temperatures != nodes {
        Some(ScenarioError::InitialTemperatureLength)
    } else if initial_heads != nodes {
        Some(ScenarioError::InitialHeadLength)
    } else {
        None
    }
}

/// Examines the shape of a scenario's inputs: the lengths of the two
/// boundary series, the node count, and the lengths of the two vectors of
/// initial values. Returns the grid of the scenario when the shape is sound,
/// and the first complaint otherwise.
pub fn check_shape(
    top_samples: usize,
    bottom_samples: usize,
    nodes: usize,
    initial_temperatures: usize,
    initial_heads: usize,
) -> (checked: Result<Grid, ScenarioError>)
    ensures
        checked matches Ok(grid) ==> grid.valid() && grid.spec_nodes() == nodes,
        checked is Ok <==> spec_shape_error(
            top_samples as int,
            bottom_samples as int,
            nodes as int,
            initial_temperatures as int,
            initial_heads as int,
        ) is None,
        checked matches Err(why) ==> spec_shape_error(
            top_samples as int,
            bottom_samples as int,
            nodes as int,
            initial_temperatures as int,
            initial_heads as int,
        ) == Some(why),
{
    if top_samples != SERIES_SAMPLES {
        return Err(ScenarioError::TopSeriesLength);
    }
    if bottom_samples != SERIES_SAMPLES {
        return Err(ScenarioError::BottomSeriesLength);
    }
    let grid = match Grid::new(nodes) {
        Ok(grid) => grid,
        Err(GridError::NoNodes) => {
            return Err(ScenarioError::NoNodes);
        },
        Err(GridError::TooManyNodes) => {
            return Err(ScenarioError::TooManyNodes);
        },
    };
    match grid.check_initial_values(initial_temperatures, initial_heads) {
        Ok(()) => Ok(grid),
        Err(why) => Err(why),
    }
}

impl Grid {
    /// Whether vectors of initial values of these lengths fit the grid: each
    /// must hold one value per node. The temperatures are examined first.
    pub fn check_initial_values(&self, temperatures: usize, heads: usize) -> (checked: Result<
        (),
        ScenarioError,
    >)
        ensures
            checked is Ok <==> temperatures == self.spec_nodes() && heads == self.spec_nodes(),
            checked matches Err(why) ==> {
                &&& why == ScenarioError::InitialTemperatureLength <==> temperatures
                    != self.spec_nodes()
                &&& why == ScenarioError::InitialHeadLength <==> temperatures == self.spec_nodes()
            },
    {
        let nodes = self.nodes();
        if temperatures != nodes {
            Err(ScenarioError::InitialTemperatureLength)
        } else if heads != nodes {
            Err(ScenarioError::InitialHeadLength)
        } else {
            Ok(())
        }
    }

    /// Whether material coefficient vectors of these lengths fit the grid:
    /// each must hold one value per edge.
    pub fn check_coefficients(
        &self,
        permeability: usize,
        conductivity: usize,
        heat_capacity: usize,
        storage: usize,
    ) -> (checked: Result<(), ScenarioError>)
        ensures
            checked is Ok <==> permeability == self.spec_edges() && conductivity
                == self.spec_edges() && heat_capacity == self.spec_edges() && storage
                == self.spec_edges(),
            checked matches Err(why) ==> why == ScenarioError::CoefficientLength,
    {
        let edges = self.edges();
        if permeability == edges && conductivity == edges && heat_capacity == edges && storage
            == edges {
            Ok(())
        } else {
            Err(ScenarioError::CoefficientLength)
        }
    }
}

} // verus!
