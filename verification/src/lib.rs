pub mod engine;
pub mod models;

pub use engine::ToyEngine;
pub use models::decimal_value::DecimalValue;
