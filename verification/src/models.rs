//! Records of the knowledge base.
use vstd::prelude::*;

verus! {

/// Which audit log entries to list, and which page of them.
#[derive(Debug)]
pub struct AuditFilter {
    pub server_id: Option<i64>,
    pub session_id: Option<String>,
    pub source: Option<String>,
    pub success: Option<bool>,
    /// Text to look for in the command, the tool name and the output.
    pub search: Option<String>,
    pub from: Option<String>,
    pub to: Option<String>,
    pub limit: i64,
    pub offset: i64,
}

/// A standard operating procedure that the agent can consult.
#[derive(Debug)]
pub struct Skill {
    pub id: String,
    pub title: String,
    pub content: String,
    pub triggers: Option<String>,
    pub tags: Option<String>,
    pub applies_to: Option<String>,
    pub risk_level: String,
    pub enabled: bool,
    pub source: String,
    pub source_doc_id: Option<String>,
    pub version: i64,
    pub created_at: String,
    pub updated_at: String,
}

/// A stored sequence of commands that a user can start with one click.
#[derive(Debug)]
pub struct QuickAction {
    pub id: String,
    pub name: String,
    pub icon: Option<String>,
    pub target: Option<String>,
    /// The steps, as a JSON array.
    pub steps: String,
    /// The approval policy.
    pub approval: String,
    pub audit: bool,
    pub created_at: String,
    pub updated_at: String,
}

/// A document of the knowledge base.
#[derive(Debug)]
pub struct Doc {
    pub id: String,
    pub doc_type: String,
    pub title: String,
    pub content: String,
    pub session_id: Option<String>,
    pub server_id: Option<i64>,
    pub generated_by: Option<String>,
    pub tags: Option<String>,
    /// draft, reviewed or archived.
    pub status: String,
    pub created_at: String,
    pub updated_at: String,
}

} // verus!
