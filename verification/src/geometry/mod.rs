pub mod chart;
pub mod manifold;
pub mod vector;
pub mod surface;
