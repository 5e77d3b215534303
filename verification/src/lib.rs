pub mod datetime;
pub mod error;
pub mod message;
pub mod sections;
pub mod templates;
pub mod utils;
