//! The core of an operations console: audited execution of commands on servers, quick actions, the
//! knowledge base behind them, and the check for updates.
//!
//! Everything here computes. A command of the console gives the SQL statement to run, the command
//! to send or the request to make, and takes in what came back; the database, the connections to
//! servers and the network are driven by the application around this crate.
pub mod audit;
pub mod audit_laws;
pub mod clip;
pub mod clock;
pub mod commands;
pub mod decimal;
pub mod error;
pub mod executor;
pub mod executor_laws;
pub mod form_texts;
pub mod forms;
pub mod json;
pub mod models;
pub mod queries;
pub mod sql;
pub mod tables;
pub mod text;
