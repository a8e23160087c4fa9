pub mod models;
pub mod query;
