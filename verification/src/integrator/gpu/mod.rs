pub mod packed_types;
