use vstd::prelude::*;
use crate::models::{FileRecord, Project, Snippet};
use crate::rows::{
    SqlValue, file_from_row, file_of_cells, project_from_row, project_of_cells, snippet_from_row,
    snippet_of_cells,
};

verus! {

/// How a request fails, as its client sees it.
#[derive(Debug, Clone, Copy, PartialEq, Eq)]
pub enum ApiError {
    /// A malformed body, or a missing required part.
    BadRequest,
    /// No record has the identifier asked for.
    NotFound,
    /// The datastore or the blob store failed; the detail is not shown.
    Internal,
}

/// The HTTP status of each failure.
pub open spec fn status_of(e: ApiError) -> u16 {
    match e {
        ApiError::BadRequest => 400,
        ApiError::NotFound => 404,
        ApiError::Internal => 500,
    }
}

impl ApiError {
    /// The HTTP status code that answers this failure.
    pub fn status_code(&self) -> (r: u16)
        ensures
            r == status_of(*self),
    {
        match self {
            ApiError::BadRequest => 400,
            ApiError::NotFound => 404,
            ApiError::Internal => 500,
        }
    }
}

/// A failure reported by the datastore or the filesystem; its detail is not kept.
#[derive(Debug, Clone, Copy, PartialEq, Eq)]
pub struct StoreFailure;

/// The outcome of a fetch by identifier: a failed fetch is an internal error,
/// no row is "not found", and a row is the record it holds (or an internal
/// error when it does not have the record's shape).
pub open spec fn found<T>(
    fetched: Result<Option<Vec<SqlValue>>, StoreFailure>,
    decode: spec_fn(Seq<SqlValue>) -> Option<T>,
) -> Result<T, ApiError> {
    match fetched {
        Err(_) => Err(ApiError::Internal),
        Ok(None) => Err(ApiError::NotFound),
        Ok(Some(row)) => match decode(row@) {
            Some(x) => Ok(x),
            None => Err(ApiError::Internal),
        },
    }
}

/// The outcome of fetching a project by identifier, as a value.
pub open spec fn project_found(fetched: Result<Option<Vec<SqlValue>>, StoreFailure>) -> Result<Project, ApiError> {
    found(fetched, |c: Seq<SqlValue>| project_of_cells(c))
}

/// The outcome of fetching a project by identifier.
pub fn project_lookup(fetched: Result<Option<Vec<SqlValue>>, StoreFailure>) -> (r: Result<
    Project,
    ApiError,
>)
    ensures
        r == project_found(fetched),
{
    match fetched {
        Err(_) => Err(ApiError::Internal),
        Ok(None) => Err(ApiError::NotFound),
        Ok(Some(row)) => match project_from_row(&row) {
            Some(p) => Ok(p),
            None => Err(ApiError::Internal),
        },
    }
}

/// The outcome of fetching a snippet by identifier, as a value.
pub open spec fn snippet_found(fetched: Result<Option<Vec<SqlValue>>, StoreFailure>) -> Result<Snippet, ApiError> {
    found(fetched, |c: Seq<SqlValue>| snippet_of_cells(c))
}

/// The outcome of fetching a snippet by identifier.
pub fn snippet_lookup(fetched: Result<Option<Vec<SqlValue>>, StoreFailure>) -> (r: Result<
    Snippet,
    ApiError,
>)
    ensures
        r == snippet_found(fetched),
{
    match fetched {
        Err(_) => Err(ApiError::Internal),
        Ok(None) => Err(ApiError::NotFound),
        Ok(Some(row)) => match snippet_from_row(&row) {
            Some(s) => Ok(s),
            None => Err(ApiError::Internal),
        },
    }
}

/// The outcome of fetching a file record by identifier, as a value.
pub open spec fn file_found(fetched: Result<Option<Vec<SqlValue>>, StoreFailure>) -> Result<FileRecord, ApiError> {
    found(fetched, |c: Seq<SqlValue>| file_of_cells(c))
}

/// The outcome of fetching a file record by identifier; its `filepath` is
/// the blob that a download reads and a deletion removes.
pub fn file_lookup(fetched: Result<Option<Vec<SqlValue>>, StoreFailure>) -> (r: Result<
    FileRecord,
    ApiError,
>)
    ensures
        r == file_found(fetched),
{
    match fetched {
        Err(_) => Err(ApiError::Internal),
        Ok(None) => Err(ApiError::NotFound),
        Ok(Some(row)) => match file_from_row(&row) {
            Some(f) => Ok(f),
            None => Err(ApiError::Internal),
        },
    }
}

/// The outcome of a write (insert, update, delete, or a blob operation),
/// given how many rows it touched: any count succeeds, so deleting an
/// identifier that no row has is no error.
pub open spec fn written(done: Result<u64, StoreFailure>) -> Result<(), ApiError> {
    match done {
        Ok(_) => Ok(()),
        Err(_) => Err(ApiError::Internal),
    }
}

/// Maps the result of a write to the request's outcome.
pub fn write_outcome(done: Result<u64, StoreFailure>) -> (r: Result<(), ApiError>)
    ensures
        r == written(done),
{
    match done {
        Ok(_) => Ok(()),
        Err(_) => Err(ApiError::Internal),
    }
}

/// `out` holds, in the same order, the projects that `rows` hold.
pub open spec fn projects_of_rows(rows: Seq<Vec<SqlValue>>, out: Seq<Project>) -> bool {
    &&& out.len() == rows.len()
    &&& forall|i: int| 0 <= i < rows.len() ==> project_of_cells(#[trigger] rows[i]@) == Some(out[i])
}

/// Reads a listing of projects, keeping the order the datastore gave;
/// fails when a row is not a project.
pub fn projects_from_rows(rows: &Vec<Vec<SqlValue>>) -> (r: Result<Vec<Project>, ApiError>)
    ensures
        match r {
            Ok(v) => projects_of_rows(rows@, v@),
            Err(e) => e == ApiError::Internal && exists|i: int|
                0 <= i < rows@.len() && project_of_cells(#[trigger] rows@[i]@) is None,
        },
{
    let mut out: Vec<Project> = Vec::new();
    let mut i: usize = 0;
    while i < rows.len()
        invariant
            0 <= i <= rows@.len(),
            projects_of_rows(rows@.take(i as int), out@),
        decreases rows@.len() - i,
    {
        match project_from_row(&rows[i]) {
            Some(p) => {
                out.push(p);
            },
            None => {
                return Err(ApiError::Internal);
            },
        }
        i = i + 1;
        assert(rows@.take(i as int).drop_last() =~= rows@.take(i - 1));
    }
    assert(rows@.take(i as int) =~= rows@);
    Ok(out)
}

/// `out` holds, in the same order, the snippets that `rows` hold.
pub open spec fn snippets_of_rows(rows: Seq<Vec<SqlValue>>, out: Seq<Snippet>) -> bool {
    &&& out.len() == rows.len()
    &&& forall|i: int| 0 <= i < rows.len() ==> snippet_of_cells(#[trigger] rows[i]@) == Some(out[i])
}

/// Reads a listing of snippets, keeping the order the datastore gave;
/// fails when a row is not a snippet.
pub fn snippets_from_rows(rows: &Vec<Vec<SqlValue>>) -> (r: Result<Vec<Snippet>, ApiError>)
    ensures
        match r {
            Ok(v) => snippets_of_rows(rows@, v@),
            Err(e) => e == ApiError::Internal && exists|i: int|
                0 <= i < rows@.len() && snippet_of_cells(#[trigger] rows@[i]@) is None,
        },
{
    let mut out: Vec<Snippet> = Vec::new();
    let mut i: usize = 0;
    while i < rows.len()
        invariant
            0 <= i <= rows@.len(),
            snippets_of_rows(rows@.take(i as int), out@),
        decreases rows@.len() - i,
    {
        match snippet_from_row(&rows[i]) {
            Some(s) => {
                out.push(s);
            },
            None => {
                return Err(ApiError::Internal);
            },
        }
        i = i + 1;
        assert(rows@.take(i as int).drop_last() =~= rows@.take(i - 1));
    }
    assert(rows@.take(i as int) =~= rows@);
    Ok(out)
}

/// `out` holds, in the same order, the file records that `rows` hold.
pub open spec fn files_of_rows(rows: Seq<Vec<SqlValue>>, out: Seq<FileRecord>) -> bool {
    &&& out.len() == rows.len()
    &&& forall|i: int| 0 <= i < rows.len() ==> file_of_cells(#[trigger] rows[i]@) == Some(out[i])
}

/// Reads a listing of file records, keeping the order the datastore gave;
/// fails when a row is not a file record.
pub fn files_from_rows(rows: &Vec<Vec<SqlValue>>) -> (r: Result<Vec<FileRecord>, ApiError>)
    ensures
        match r {
            Ok(v) => files_of_rows(rows@, v@),
            Err(e) => e == ApiError::Internal && exists|i: int|
                0 <= i < rows@.len() && file_of_cells(#[trigger] rows@[i]@) is None,
        },
{
    let mut out: Vec<FileRecord> = Vec::new();
    let mut i: usize = 0;
    while i < rows.len()
        invariant
            0 <= i <= rows@.len(),
            files_of_rows(rows@.take(i as int), out@),
        decreases rows@.len() - i,
    {
        match file_from_row(&rows[i]) {
            Some(f) => {
                out.push(f);
            },
            None => {
                return Err(ApiError::Internal);
            },
        }
        i = i + 1;
        assert(rows@.take(i as int).drop_last() =~= rows@.take(i - 1));
    }
    assert(rows@.take(i as int) =~= rows@);
    Ok(out)
}

} // verus!
