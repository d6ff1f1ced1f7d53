pub mod surface;
