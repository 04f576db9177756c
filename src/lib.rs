pub mod date;
pub mod types;
