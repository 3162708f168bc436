pub mod types;
pub mod unix;
