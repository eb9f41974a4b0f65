pub mod ddb;
pub mod item;
