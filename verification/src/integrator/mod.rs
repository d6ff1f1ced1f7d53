pub mod cpu;
pub mod gpu;
