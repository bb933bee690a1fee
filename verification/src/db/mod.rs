pub mod connection;
pub mod database;
