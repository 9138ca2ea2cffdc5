pub mod create;
pub mod query;
pub mod update;
