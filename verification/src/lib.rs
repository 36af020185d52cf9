//! The verified core of a solver for coupled heat and groundwater-head
//! diffusion in a layered column.
//!
//! The column has a fixed number of interior nodes. The state holds the
//! temperature at every node, then the hydraulic head at every node; it is
//! advanced in time by an embedded Runge-Kutta-Fehlberg pair and sampled at
//! the output times that the caller asks for.
//!
//! This library holds what is discrete in that solver: the sizes and the
//! layout of its vectors, the indices that each operator row reads, the
//! storage of the tridiagonal operators, the coefficient table of the
//! integrator as exact fractions, the loops over nodes, stages, steps and
//! output times, and the examination of a scenario's inputs. The arithmetic
//! on the values themselves is the caller's: every loop takes it as a kernel,
//! and its contract says which kernel results stand where.

pub mod band;
pub mod grid;
pub mod indicator;
pub mod layout;
pub mod order;
pub mod samples;
pub mod scenario;
pub mod series;
pub mod stencil;
pub mod stepping;
pub mod sweep;
pub mod tableau;
