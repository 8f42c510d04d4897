//! The knowledge base: skills, stored quick actions and documents.
//!
//! Each command gives the statement that it runs against the database, or decides what the rows
//! that came back mean.
use vstd::prelude::*;
use vstd::string::*;

use crate::error::{AppError, AppResult, ErrorView};
use crate::models::{Doc, QuickAction, Skill};
use crate::queries::{
    CONVERT_DOC, DELETE_DOC, DELETE_QUICK_ACTION, DELETE_SKILL, GET_DOC, GET_SKILL, LIST_DOCS,
    LIST_ENABLED_SKILLS, LIST_QUICK_ACTIONS, LIST_SKILLS, TOGGLE_SKILL, UPDATE_DOC_STATUS,
    UPSERT_DOC, UPSERT_QUICK_ACTION, UPSERT_SKILL, lemma_convert_doc_parameters,
    lemma_delete_doc_parameters, lemma_delete_quick_action_parameters,
    lemma_delete_skill_parameters, lemma_get_doc_parameters, lemma_get_skill_parameters,
    lemma_list_docs_parameters, lemma_list_enabled_skills_parameters,
    lemma_list_quick_actions_parameters, lemma_list_skills_parameters,
    lemma_toggle_skill_parameters, lemma_update_doc_status_parameters, lemma_upsert_doc_parameters,
    lemma_upsert_quick_action_parameters, lemma_upsert_skill_parameters,
};
use crate::sql::{integer_or_null, query, text_or_null, Statement, StatementView, ValueView};
use crate::text::{borrow_opt, opt_text, same_text};

verus! {

/// All skills, by title.
pub fn list_skills() -> (r: Statement)
    ensures
        r@ == query(LIST_SKILLS@),
        r@.fully_bound(),
{
    proof {
        lemma_list_skills_parameters();
    }
    Statement::new(LIST_SKILLS)
}

/// The skills that are enabled, by title.
pub fn list_enabled_skills() -> (r: Statement)
    ensures
        r@ == query(LIST_ENABLED_SKILLS@),
        r@.fully_bound(),
{
    proof {
        lemma_list_enabled_skills_parameters();
    }
    Statement::new(LIST_ENABLED_SKILLS)
}

/// Looks a skill up.
pub fn get_skill(id: &str) -> (r: Statement)
    ensures
        r@ == query(GET_SKILL@).bind(ValueView::Text(id@)),
        r@.fully_bound(),
{
    proof {
        lemma_get_skill_parameters();
    }
    Statement::new(GET_SKILL).bind_text(id)
}

/// The skill that was looked up.
pub fn found_skill(id: &str, row: Option<Skill>) -> (r: AppResult<Skill>)
    ensures
        row matches Some(skill) ==> r == Ok::<Skill, AppError>(skill),
        row is None ==> (r matches Err(e) && e@ == ErrorView::NotFound("技能 "@ + id@)),
{
    match row {
        Some(skill) => Ok(skill),
        None => Err(AppError::NotFound("技能 ".to_owned().concat(id))),
    }
}

/// The statement that stores a skill.
pub open spec fn skill_statement(skill: Skill) -> StatementView {
    query(UPSERT_SKILL@)
        .bind(ValueView::Text(skill.id@))
        .bind(ValueView::Text(skill.title@))
        .bind(ValueView::Text(skill.content@))
        .bind(text_or_null(opt_text(skill.triggers)))
        .bind(text_or_null(opt_text(skill.tags)))
        .bind(text_or_null(opt_text(skill.applies_to)))
        .bind(ValueView::Text(skill.risk_level@))
        .bind(ValueView::Boolean(skill.enabled))
        .bind(ValueView::Text(skill.source@))
        .bind(text_or_null(opt_text(skill.source_doc_id)))
        .bind(ValueView::Integer(skill.version))
}

/// Stores a skill, replacing the one with the same id.
pub fn upsert_skill(skill: &Skill) -> (r: Statement)
    ensures
        r@ == skill_statement(*skill),
        r@.fully_bound(),
{
    proof {
        lemma_upsert_skill_parameters();
    }
    Statement::new(UPSERT_SKILL)
        .bind_text(skill.id.as_str())
        .bind_text(skill.title.as_str())
        .bind_text(skill.content.as_str())
        .bind_opt_text(borrow_opt(&skill.triggers))
        .bind_opt_text(borrow_opt(&skill.tags))
        .bind_opt_text(borrow_opt(&skill.applies_to))
        .bind_text(skill.risk_level.as_str())
        .bind_bool(skill.enabled)
        .bind_text(skill.source.as_str())
        .bind_opt_text(borrow_opt(&skill.source_doc_id))
        .bind_integer(skill.version)
}

/// Deletes a skill.
pub fn delete_skill(id: &str) -> (r: Statement)
    ensures
        r@ == query(DELETE_SKILL@).bind(ValueView::Text(id@)),
        r@.fully_bound(),
{
    proof {
        lemma_delete_skill_parameters();
    }
    Statement::new(DELETE_SKILL).bind_text(id)
}

/// The statement that enables or disables a skill.
pub open spec fn toggle_statement(id: Seq<char>, enabled: bool) -> StatementView {
    query(TOGGLE_SKILL@).bind(ValueView::Boolean(enabled)).bind(ValueView::Text(id))
}

/// Enables or disables a skill.
pub fn toggle_skill(id: &str, enabled: bool) -> (r: Statement)
    ensures
        r@ == toggle_statement(id@, enabled),
        r@.fully_bound(),
{
    proof {
        lemma_toggle_skill_parameters();
    }
    Statement::new(TOGGLE_SKILL).bind_bool(enabled).bind_text(id)
}

/// All quick actions, by name.
pub fn list_quick_actions() -> (r: Statement)
    ensures
        r@ == query(LIST_QUICK_ACTIONS@),
        r@.fully_bound(),
{
    proof {
        lemma_list_quick_actions_parameters();
    }
    Statement::new(LIST_QUICK_ACTIONS)
}

/// The statement that stores a quick action.
pub open spec fn quick_action_statement(action: QuickAction) -> StatementView {
    query(UPSERT_QUICK_ACTION@)
        .bind(ValueView::Text(action.id@))
        .bind(ValueView::Text(action.name@))
        .bind(text_or_null(opt_text(action.icon)))
        .bind(text_or_null(opt_text(action.target)))
        .bind(ValueView::Text(action.steps@))
        .bind(ValueView::Text(action.approval@))
        .bind(ValueView::Boolean(action.audit))
}

/// Stores a quick action, replacing the one with the same id.
pub fn upsert_quick_action(action: &QuickAction) -> (r: Statement)
    ensures
        r@ == quick_action_statement(*action),
        r@.fully_bound(),
{
    proof {
        lemma_upsert_quick_action_parameters();
    }
    Statement::new(UPSERT_QUICK_ACTION)
        .bind_text(action.id.as_str())
        .bind_text(action.name.as_str())
        .bind_opt_text(borrow_opt(&action.icon))
        .bind_opt_text(borrow_opt(&action.target))
        .bind_text(action.steps.as_str())
        .bind_text(action.approval.as_str())
        .bind_bool(action.audit)
}

/// Deletes a quick action.
pub fn delete_quick_action(id: &str) -> (r: Statement)
    ensures
        r@ == query(DELETE_QUICK_ACTION@).bind(ValueView::Text(id@)),
        r@.fully_bound(),
{
    proof {
        lemma_delete_quick_action_parameters();
    }
    Statement::new(DELETE_QUICK_ACTION).bind_text(id)
}

/// All documents, newest first.
pub fn list_docs() -> (r: Statement)
    ensures
        r@ == query(LIST_DOCS@),
        r@.fully_bound(),
{
    proof {
        lemma_list_docs_parameters();
    }
    Statement::new(LIST_DOCS)
}

/// Looks a document up.
pub fn get_doc(id: &str) -> (r: Statement)
    ensures
        r@ == query(GET_DOC@).bind(ValueView::Text(id@)),
        r@.fully_bound(),
{
    proof {
        lemma_get_doc_parameters();
    }
    Statement::new(GET_DOC).bind_text(id)
}

/// The document that was looked up.
pub fn found_doc(id: &str, row: Option<Doc>) -> (r: AppResult<Doc>)
    ensures
        row matches Some(doc) ==> r == Ok::<Doc, AppError>(doc),
        row is None ==> (r matches Err(e) && e@ == ErrorView::NotFound("文档 "@ + id@)),
{
    match row {
        Some(doc) => Ok(doc),
        None => Err(AppError::NotFound("文档 ".to_owned().concat(id))),
    }
}

/// The statement that stores a document.
pub open spec fn doc_statement(doc: Doc) -> StatementView {
    query(UPSERT_DOC@)
        .bind(ValueView::Text(doc.id@))
        .bind(ValueView::Text(doc.doc_type@))
        .bind(ValueView::Text(doc.title@))
        .bind(ValueView::Text(doc.content@))
        .bind(text_or_null(opt_text(doc.session_id)))
        .bind(integer_or_null(doc.server_id))
        .bind(text_or_null(opt_text(doc.generated_by)))
        .bind(text_or_null(opt_text(doc.tags)))
        .bind(ValueView::Text(doc.status@))
}

/// Stores a document, replacing the one with the same id.
pub fn upsert_doc(doc: &Doc) -> (r: Statement)
    ensures
        r@ == doc_statement(*doc),
        r@.fully_bound(),
{
    proof {
        lemma_upsert_doc_parameters();
    }
    Statement::new(UPSERT_DOC)
        .bind_text(doc.id.as_str())
        .bind_text(doc.doc_type.as_str())
        .bind_text(doc.title.as_str())
        .bind_text(doc.content.as_str())
        .bind_opt_text(borrow_opt(&doc.session_id))
        .bind_opt_integer(doc.server_id)
        .bind_opt_text(borrow_opt(&doc.generated_by))
        .bind_opt_text(borrow_opt(&doc.tags))
        .bind_text(doc.status.as_str())
}

/// The statement that changes the status of a document.
pub open spec fn status_statement(id: Seq<char>, status: Seq<char>) -> StatementView {
    query(UPDATE_DOC_STATUS@).bind(ValueView::Text(status)).bind(ValueView::Text(id))
}

/// Changes the status of a document: draft, reviewed or archived.
pub fn update_doc_status(id: &str, status: &str) -> (r: Statement)
    ensures
        r@ == status_statement(id@, status@),
        r@.fully_bound(),
{
    proof {
        lemma_update_doc_status_parameters();
    }
    Statement::new(UPDATE_DOC_STATUS).bind_text(status).bind_text(id)
}

/// Deletes a document.
pub fn delete_doc(id: &str) -> (r: Statement)
    ensures
        r@ == query(DELETE_DOC@).bind(ValueView::Text(id@)),
        r@.fully_bound(),
{
    proof {
        lemma_delete_doc_parameters();
    }
    Statement::new(DELETE_DOC).bind_text(id)
}

/// The statement that stores, disabled, the skill made from a document.
pub open spec fn conversion(
    doc_id: Seq<char>,
    skill_id: Seq<char>,
    title: Seq<char>,
    doc: Doc,
) -> StatementView {
    query(CONVERT_DOC@)
        .bind(ValueView::Text(skill_id))
        .bind(ValueView::Text(title))
        .bind(ValueView::Text(doc.content@))
        .bind(text_or_null(opt_text(doc.tags)))
        .bind(ValueView::Text(doc_id))
}

/// Turns the document that was looked up under `doc_id` into a skill. Only a reviewed document can
/// become one.
pub fn doc_to_skill(doc_id: &str, skill_id: &str, title: &str, row: Option<Doc>) -> (r: AppResult<
    Statement,
>)
    ensures
        r is Ok <==> (row matches Some(doc) && doc.status@ == "reviewed"@),
        r matches Ok(s) ==> s@ == conversion(doc_id@, skill_id@, title@, row->0)
            && s@.fully_bound(),
        r matches Err(e) ==> e@ == if row is None {
            ErrorView::NotFound("文档 "@ + doc_id@)
        } else {
            ErrorView::InvalidInput("只有已审核（reviewed）的文档才能转换为技能"@)
        },
{
    let doc = match found_doc(doc_id, row) {
        Ok(doc) => doc,
        Err(e) => {
            return Err(e);
        },
    };
    if !same_text(doc.status.as_str(), "reviewed") {
        return Err(
            AppError::InvalidInput("只有已审核（reviewed）的文档才能转换为技能".to_owned()),
        );
    }
    proof {
        lemma_convert_doc_parameters();
    }
    Ok(
        Statement::new(CONVERT_DOC)
            .bind_text(skill_id)
            .bind_text(title)
            .bind_text(doc.content.as_str())
            .bind_opt_text(borrow_opt(&doc.tags))
            .bind_text(doc_id),
    )
}

} // verus!
