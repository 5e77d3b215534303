pub mod bitmap;
pub mod data;
pub mod data_representation;
pub mod end;
pub mod grid_definition;
pub mod identification;
pub mod indicator;
pub mod local_use;
pub mod product_definition;
pub mod section;
