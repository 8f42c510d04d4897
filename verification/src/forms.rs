//! The forms of the SQL statements: what each of them asks of its table.
use vstd::prelude::*;

use crate::tables::{
    Count, Delete, Expr, Insert, Key, Merge, Merging, Order, Select, Term, Update, Upsert,
};

verus! {

/// Sets the result of the entry with the given id, provided that the entry is pending.
pub open spec fn finish_update() -> Update {
    Update {
        table: "audit_logs"@,
        gap: "\n         "@,
        assignments: seq![
            Term { column: "outcome"@, expr: Expr::Parameter(0) },
            Term { column: "exit_code"@, expr: Expr::Parameter(1) },
            Term { column: "output"@, expr: Expr::Parameter(2) },
            Term { column: "success"@, expr: Expr::Parameter(3) },
            Term { column: "duration_ms"@, expr: Expr::Parameter(4) },
        ],
        conditions: seq![
            Term { column: "id"@, expr: Expr::Parameter(5) },
            Term { column: "outcome"@, expr: Expr::Text("pending"@) },
        ],
    }
}

/// Enables or disables the skill with the given id.
pub open spec fn toggle_update() -> Update {
    Update {
        table: "skills"@,
        gap: " "@,
        assignments: seq![
            Term { column: "enabled"@, expr: Expr::Parameter(0) },
            Term { column: "updated_at"@, expr: Expr::Now },
        ],
        conditions: seq![
            Term { column: "id"@, expr: Expr::Parameter(1) },
        ],
    }
}

/// Changes the status of the document with the given id.
pub open spec fn status_update() -> Update {
    Update {
        table: "docs"@,
        gap: " "@,
        assignments: seq![
            Term { column: "status"@, expr: Expr::Parameter(0) },
            Term { column: "updated_at"@, expr: Expr::Now },
        ],
        conditions: seq![
            Term { column: "id"@, expr: Expr::Parameter(1) },
        ],
    }
}

/// Stores a new audit log entry.
pub open spec fn entry_insert() -> Insert {
    Insert {
        table: "audit_logs"@,
        space: "\n            "@,
        leads: seq![
            seq![],
            ", "@,
            ", "@,
            ", "@,
            ", "@,
            ", "@,
            ",\n             "@,
            ", "@,
            ", "@,
            ", "@,
            ", "@,
            ", "@,
            ", "@,
            ", "@,
            ", "@,
        ],
        terms: seq![
            Term { column: "timestamp"@, expr: Expr::Parameter(0) },
            Term { column: "session_id"@, expr: Expr::Parameter(1) },
            Term { column: "server_id"@, expr: Expr::Parameter(2) },
            Term { column: "server_host"@, expr: Expr::Parameter(3) },
            Term { column: "source"@, expr: Expr::Parameter(4) },
            Term { column: "tool_name"@, expr: Expr::Parameter(5) },
            Term { column: "command"@, expr: Expr::Parameter(6) },
            Term { column: "args"@, expr: Expr::Parameter(7) },
            Term { column: "exit_code"@, expr: Expr::Parameter(8) },
            Term { column: "output"@, expr: Expr::Parameter(9) },
            Term { column: "success"@, expr: Expr::Parameter(10) },
            Term { column: "outcome"@, expr: Expr::Parameter(11) },
            Term { column: "approved_by"@, expr: Expr::Parameter(12) },
            Term { column: "proposal_id"@, expr: Expr::Parameter(13) },
            Term { column: "duration_ms"@, expr: Expr::Parameter(14) },
        ],
        gap: "\n         "@,
    }
}

/// Stores a skill.
pub open spec fn skill_upsert() -> Upsert {
    Upsert {
        insert: Insert {
            table: "skills"@,
            space: " "@,
            leads: seq![
                seq![],
                ", "@,
                ", "@,
                ", "@,
                ", "@,
                ", "@,
                ", "@,
                ",\n                             "@,
                ", "@,
                ", "@,
                ", "@,
            ],
            terms: seq![
                Term { column: "id"@, expr: Expr::Parameter(0) },
                Term { column: "title"@, expr: Expr::Parameter(1) },
                Term { column: "content"@, expr: Expr::Parameter(2) },
                Term { column: "triggers"@, expr: Expr::Parameter(3) },
                Term { column: "tags"@, expr: Expr::Parameter(4) },
                Term { column: "applies_to"@, expr: Expr::Parameter(5) },
                Term { column: "risk_level"@, expr: Expr::Parameter(6) },
                Term { column: "enabled"@, expr: Expr::Parameter(7) },
                Term { column: "source"@, expr: Expr::Parameter(8) },
                Term { column: "source_doc_id"@, expr: Expr::Parameter(9) },
                Term { column: "version"@, expr: Expr::Parameter(10) },
            ],
            gap: "\n         "@,
        },
        key: "id"@,
        leads: seq![
            "\n            "@,
            ", "@,
            ", "@,
            ",\n            "@,
            ", "@,
            ", "@,
            ",\n            "@,
            ", "@,
            ", "@,
            ",\n            "@,
            ",\n            "@,
        ],
        merges: seq![
            Merging { column: "title"@, merge: Merge::Offered("title"@) },
            Merging { column: "content"@, merge: Merge::Offered("content"@) },
            Merging { column: "triggers"@, merge: Merge::Offered("triggers"@) },
            Merging { column: "tags"@, merge: Merge::Offered("tags"@) },
            Merging { column: "applies_to"@, merge: Merge::Offered("applies_to"@) },
            Merging { column: "risk_level"@, merge: Merge::Offered("risk_level"@) },
            Merging { column: "enabled"@, merge: Merge::Offered("enabled"@) },
            Merging { column: "source"@, merge: Merge::Offered("source"@) },
            Merging { column: "source_doc_id"@, merge: Merge::Offered("source_doc_id"@) },
            Merging { column: "version"@, merge: Merge::NextOffered("version"@) },
            Merging { column: "updated_at"@, merge: Merge::Now },
        ],
    }
}

/// Stores the skill made from a document.
pub open spec fn conversion_upsert() -> Upsert {
    Upsert {
        insert: Insert {
            table: "skills"@,
            space: " "@,
            leads: seq![
                seq![],
                ", "@,
                ", "@,
                ", "@,
                ", "@,
                ", "@,
                ", "@,
                ",\n                             "@,
                ", "@,
                ", "@,
                ", "@,
            ],
            terms: seq![
                Term { column: "id"@, expr: Expr::Parameter(0) },
                Term { column: "title"@, expr: Expr::Parameter(1) },
                Term { column: "content"@, expr: Expr::Parameter(2) },
                Term { column: "triggers"@, expr: Expr::Null },
                Term { column: "tags"@, expr: Expr::Parameter(3) },
                Term { column: "applies_to"@, expr: Expr::Null },
                Term { column: "risk_level"@, expr: Expr::Text("low"@) },
                Term { column: "enabled"@, expr: Expr::Integer(0) },
                Term { column: "source"@, expr: Expr::Text("from_doc"@) },
                Term { column: "source_doc_id"@, expr: Expr::Parameter(4) },
                Term { column: "version"@, expr: Expr::Integer(1) },
            ],
            gap: "\n         "@,
        },
        key: "id"@,
        leads: seq![
            "\n            "@,
            ", "@,
            ", "@,
            ",\n            "@,
            ",\n            "@,
            ",\n            "@,
            ",\n            "@,
        ],
        merges: seq![
            Merging { column: "title"@, merge: Merge::Offered("title"@) },
            Merging { column: "content"@, merge: Merge::Offered("content"@) },
            Merging { column: "tags"@, merge: Merge::Offered("tags"@) },
            Merging { column: "source_doc_id"@, merge: Merge::Offered("source_doc_id"@) },
            Merging { column: "enabled"@, merge: Merge::Integer(0) },
            Merging { column: "version"@, merge: Merge::NextStored("skills"@, "version"@) },
            Merging { column: "updated_at"@, merge: Merge::Now },
        ],
    }
}

/// Stores a quick action.
pub open spec fn quick_action_upsert() -> Upsert {
    Upsert {
        insert: Insert {
            table: "quick_actions"@,
            space: " "@,
            leads: seq![
                seq![],
                ", "@,
                ", "@,
                ", "@,
                ", "@,
                ", "@,
                ", "@,
            ],
            terms: seq![
                Term { column: "id"@, expr: Expr::Parameter(0) },
                Term { column: "name"@, expr: Expr::Parameter(1) },
                Term { column: "icon"@, expr: Expr::Parameter(2) },
                Term { column: "target"@, expr: Expr::Parameter(3) },
                Term { column: "steps"@, expr: Expr::Parameter(4) },
                Term { column: "approval"@, expr: Expr::Parameter(5) },
                Term { column: "audit"@, expr: Expr::Parameter(6) },
            ],
            gap: "\n         "@,
        },
        key: "id"@,
        leads: seq![
            "\n            "@,
            ", "@,
            ", "@,
            ",\n            "@,
            ", "@,
            ", "@,
            ",\n            "@,
        ],
        merges: seq![
            Merging { column: "name"@, merge: Merge::Offered("name"@) },
            Merging { column: "icon"@, merge: Merge::Offered("icon"@) },
            Merging { column: "target"@, merge: Merge::Offered("target"@) },
            Merging { column: "steps"@, merge: Merge::Offered("steps"@) },
            Merging { column: "approval"@, merge: Merge::Offered("approval"@) },
            Merging { column: "audit"@, merge: Merge::Offered("audit"@) },
            Merging { column: "updated_at"@, merge: Merge::Now },
        ],
    }
}

/// Stores a document.
pub open spec fn doc_upsert() -> Upsert {
    Upsert {
        insert: Insert {
            table: "docs"@,
            space: " "@,
            leads: seq![
                seq![],
                ", "@,
                ", "@,
                ", "@,
                ", "@,
                ", "@,
                ", "@,
                ",\n                           "@,
                ", "@,
            ],
            terms: seq![
                Term { column: "id"@, expr: Expr::Parameter(0) },
                Term { column: "type"@, expr: Expr::Parameter(1) },
                Term { column: "title"@, expr: Expr::Parameter(2) },
                Term { column: "content"@, expr: Expr::Parameter(3) },
                Term { column: "session_id"@, expr: Expr::Parameter(4) },
                Term { column: "server_id"@, expr: Expr::Parameter(5) },
                Term { column: "generated_by"@, expr: Expr::Parameter(6) },
                Term { column: "tags"@, expr: Expr::Parameter(7) },
                Term { column: "status"@, expr: Expr::Parameter(8) },
            ],
            gap: "\n         "@,
        },
        key: "id"@,
        leads: seq![
            "\n            "@,
            ", "@,
            ", "@,
            ",\n            "@,
            ", "@,
            ",\n            "@,
            ", "@,
            ", "@,
            ",\n            "@,
        ],
        merges: seq![
            Merging { column: "type"@, merge: Merge::Offered("type"@) },
            Merging { column: "title"@, merge: Merge::Offered("title"@) },
            Merging { column: "content"@, merge: Merge::Offered("content"@) },
            Merging { column: "session_id"@, merge: Merge::Offered("session_id"@) },
            Merging { column: "server_id"@, merge: Merge::Offered("server_id"@) },
            Merging { column: "generated_by"@, merge: Merge::Offered("generated_by"@) },
            Merging { column: "tags"@, merge: Merge::Offered("tags"@) },
            Merging { column: "status"@, merge: Merge::Offered("status"@) },
            Merging { column: "updated_at"@, merge: Merge::Now },
        ],
    }
}

/// The condition that a row has the given id.
pub open spec fn id_condition() -> Seq<Term> {
    seq![Term { column: "id"@, expr: Expr::Parameter(0) }]
}

/// Deletes the row of a table with the given id.
pub open spec fn id_delete(table: Seq<char>) -> Delete {
    Delete { table, conditions: id_condition() }
}

/// Looks up the row of a table with the given id.
pub open spec fn id_select(columns: Seq<char>, table: Seq<char>) -> Select {
    Select { columns, table, conditions: id_condition(), order: Order::Any }
}

/// Lists all skills.
pub open spec fn skills_select() -> Select {
    Select {
        columns: "*"@,
        table: "skills"@,
        conditions: seq![],
        order: Order::By(Key::Column("title"@)),
    }
}

/// Lists the enabled skills.
pub open spec fn enabled_skills_select() -> Select {
    Select {
        columns: "*"@,
        table: "skills"@,
        conditions: seq![Term { column: "enabled"@, expr: Expr::Integer(1) }],
        order: Order::By(Key::Column("title"@)),
    }
}

/// Lists all quick actions.
pub open spec fn quick_actions_select() -> Select {
    Select {
        columns: "*"@,
        table: "quick_actions"@,
        conditions: seq![],
        order: Order::By(Key::Column("name"@)),
    }
}

/// Lists all documents.
pub open spec fn docs_select() -> Select {
    Select {
        columns: "*"@,
        table: "docs"@,
        conditions: seq![],
        order: Order::Descending(Key::Datetime("created_at"@)),
    }
}

/// Lists the entries of a session.
pub open spec fn session_select() -> Select {
    Select {
        columns: "*"@,
        table: "audit_logs"@,
        conditions: seq![Term { column: "session_id"@, expr: Expr::Parameter(0) }],
        order: Order::Ascending(Key::Column("timestamp"@)),
    }
}

/// Counts all entries.
pub open spec fn entry_count() -> Count {
    Count { table: "audit_logs"@, conditions: seq![] }
}

/// Counts the entries with an outcome.
pub open spec fn outcome_count(outcome: Seq<char>) -> Count {
    Count {
        table: "audit_logs"@,
        conditions: seq![Term { column: "outcome"@, expr: Expr::Text(outcome) }],
    }
}

/// The columns of an audit log entry.
pub open spec fn entry_columns() -> Seq<Seq<char>> {
    seq![
        "id"@,
        "timestamp"@,
        "session_id"@,
        "server_id"@,
        "server_host"@,
        "source"@,
        "tool_name"@,
        "command"@,
        "args"@,
        "exit_code"@,
        "output"@,
        "success"@,
        "outcome"@,
        "approved_by"@,
        "proposal_id"@,
        "duration_ms"@,
    ]
}

/// The columns of a skill.
pub open spec fn skill_columns() -> Seq<Seq<char>> {
    seq![
        "id"@,
        "title"@,
        "content"@,
        "triggers"@,
        "tags"@,
        "applies_to"@,
        "risk_level"@,
        "enabled"@,
        "source"@,
        "source_doc_id"@,
        "version"@,
        "updated_at"@,
    ]
}

/// The columns of a quick action.
pub open spec fn quick_action_columns() -> Seq<Seq<char>> {
    seq![
        "id"@,
        "name"@,
        "icon"@,
        "target"@,
        "steps"@,
        "approval"@,
        "audit"@,
        "updated_at"@,
    ]
}

/// The columns of a document.
pub open spec fn doc_columns() -> Seq<Seq<char>> {
    seq![
        "id"@,
        "type"@,
        "title"@,
        "content"@,
        "session_id"@,
        "server_id"@,
        "generated_by"@,
        "tags"@,
        "status"@,
        "updated_at"@,
    ]
}

} // verus!
