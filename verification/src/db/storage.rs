//! The records that the dashboard keeps: code snippets and tasks.
use vstd::prelude::*;

verus! {

/// A stored code snippet.
#[derive(Debug, Clone, PartialEq, Eq)]
pub struct Snippet {
    /// Unique identifier in the store.
    pub id: Option<i64>,
    /// Descriptive, unique name.
    pub name: String,
    /// Source code.
    pub code: String,
    /// Programming language.
    pub language: String,
    /// Short description of what it is for.
    pub description: String,
    /// Creation date (ISO 8601).
    pub created_at: String,
}

/// A dashboard task.
#[derive(Debug, Clone, PartialEq, Eq)]
pub struct Task {
    /// Unique identifier in the store.
    pub id: Option<i64>,
    /// Title.
    pub title: String,
    /// Whether the task is done.
    pub completed: bool,
    /// Creation date (ISO 8601).
    pub created_at: String,
}

} // verus!
