pub mod encoders;
pub mod types;
