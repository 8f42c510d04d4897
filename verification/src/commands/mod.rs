//! The commands that the user interface can call.
pub mod audit_log_laws;
pub mod audit_logs;
pub mod doc_laws;
pub mod knowledge;
pub mod quick_action_laws;
pub mod quick_actions;
pub mod skill_laws;
pub mod steps;
pub mod stored_action_laws;
pub mod updates;
