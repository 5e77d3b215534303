pub mod data_representation;
pub mod grid_definition;
pub mod product;
