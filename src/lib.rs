//! Mass-spring cloth over a regular grid: the spring topology, the render
//! mesh of the grid and the scheduling arithmetic of the per-vertex stages.

pub mod mesh;
pub mod schedule;
pub mod topology;
