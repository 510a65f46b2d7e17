use vstd::prelude::*;

verus! {

/// A project: a named workspace with an optional description and a path.
#[derive(Debug, Clone, PartialEq, Eq)]
pub struct Project {
    pub id: String,
    pub name: String,
    pub description: Option<String>,
    pub path: String,
    pub created_at: String,
    pub updated_at: String,
}

/// The fields a client supplies to create a project.
#[derive(Debug, Clone, PartialEq, Eq)]
pub struct CreateProject {
    pub name: String,
    pub description: Option<String>,
    pub path: String,
}

/// A partial update of a project: only the fields present are applied.
#[derive(Debug, Clone, PartialEq, Eq)]
pub struct UpdateProject {
    pub name: Option<String>,
    pub description: Option<String>,
}

/// Metadata of an uploaded file; the content lives in a blob at `filepath`.
#[derive(Debug, Clone, PartialEq, Eq)]
pub struct FileRecord {
    pub id: String,
    pub filename: String,
    pub filepath: String,
    pub size: i64,
    pub mime_type: String,
    pub project_id: Option<String>,
    pub created_at: String,
}

/// A code snippet; its tags are kept as one comma-joined string.
#[derive(Debug, Clone, PartialEq, Eq)]
pub struct Snippet {
    pub id: String,
    pub title: String,
    pub language: String,
    pub code: String,
    pub description: Option<String>,
    pub tags: Option<String>,
    pub created_at: String,
    pub updated_at: String,
}

/// The fields a client supplies to create a snippet.
#[derive(Debug, Clone, PartialEq, Eq)]
pub struct CreateSnippet {
    pub title: String,
    pub language: String,
    pub code: String,
    pub description: Option<String>,
    pub tags: Option<Vec<String>>,
}

} // verus!
