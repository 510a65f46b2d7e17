use vstd::prelude::*;
use crate::models::{CreateProject, CreateSnippet, FileRecord, Project, Snippet, UpdateProject};
use crate::outcome::{ApiError, StoreFailure, file_found, project_found, snippet_found, written};
use crate::records::{file_from, merged, project_from, snippet_from};
use crate::rows::{SqlValue, file_cells, project_cells, snippet_cells};

verus! {

/// A project created from a request and stored as its row is, when fetched
/// back by identifier, the same project: the fields of the request, the
/// identifier, and the creation time as both timestamps.
pub proof fn lemma_project_round_trip(payload: CreateProject, id: String, now: String, row: Vec<
    SqlValue,
>)
    requires
        row@ == project_cells(project_from(payload, id, now)),
    ensures
        project_found(Ok(Some(row))) == Ok::<Project, ApiError>(project_from(payload, id, now)),
{
}

/// A snippet created from a request and stored as its row is, when fetched
/// back by identifier, the same snippet.
pub proof fn lemma_snippet_round_trip(
    s: Snippet,
    payload: CreateSnippet,
    id: String,
    now: String,
    row: Vec<SqlValue>,
)
    requires
        snippet_from(s, payload, id, now),
        row@ == snippet_cells(s),
    ensures
        snippet_found(Ok(Some(row))) == Ok::<Snippet, ApiError>(s),
{
}

/// A file record made for an upload and stored as its row is, when fetched
/// back by identifier, the same record, still naming the blob it was written to.
pub proof fn lemma_file_round_trip(
    f: FileRecord,
    filename: String,
    dir: Seq<char>,
    id: String,
    size: int,
    now: String,
    row: Vec<SqlValue>,
)
    requires
        file_from(f, filename, dir, id, size, now),
        row@ == file_cells(f),
    ensures
        file_found(Ok(Some(row))) == Ok::<FileRecord, ApiError>(f),
{
}

/// An update that supplies only a description keeps the name, sets the
/// description, and moves `updated_at` to the time of the update.
pub proof fn lemma_description_only_update(p: Project, description: String, now: String)
    ensures
        ({
            let r = merged(p, UpdateProject { name: None, description: Some(description) }, now);
            &&& r.id == p.id
            &&& r.name == p.name
            &&& r.description == Some(description)
            &&& r.path == p.path
            &&& r.created_at == p.created_at
            &&& r.updated_at == now
        }),
{
}

/// An identifier that no row has is "not found" when a project, a snippet or
/// a file is fetched (and so when a project is updated or a file deleted,
/// which fetch first), while deleting a project or snippet row that is not
/// there succeeds.
pub proof fn lemma_unknown_identifier()
    ensures
        project_found(Ok(None)) == Err::<Project, ApiError>(ApiError::NotFound),
        snippet_found(Ok(None)) == Err::<Snippet, ApiError>(ApiError::NotFound),
        file_found(Ok(None)) == Err::<FileRecord, ApiError>(ApiError::NotFound),
        written(Ok::<u64, StoreFailure>(0)) == Ok::<(), ApiError>(()),
{
}

} // verus!
