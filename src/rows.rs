use vstd::prelude::*;
use crate::models::{FileRecord, Project, Snippet};

verus! {

/// One cell of a table row, as the datastore holds it.
#[derive(Debug, Clone, PartialEq, Eq)]
pub enum SqlValue {
    Null,
    Int(i64),
    Text(String),
}

/// The text in cell `i`, if it holds text.
pub open spec fn text_at(c: Seq<SqlValue>, i: int) -> Option<String> {
    match c[i] {
        SqlValue::Text(s) => Some(s),
        _ => None,
    }
}

/// The optional text in cell `i`: `Some(None)` for a null cell, `None` for an integer.
pub open spec fn opt_text_at(c: Seq<SqlValue>, i: int) -> Option<Option<String>> {
    match c[i] {
        SqlValue::Null => Some(None),
        SqlValue::Text(s) => Some(Some(s)),
        SqlValue::Int(_) => None,
    }
}

/// The integer in cell `i`, if it holds one.
pub open spec fn int_at(c: Seq<SqlValue>, i: int) -> Option<i64> {
    match c[i] {
        SqlValue::Int(n) => Some(n),
        _ => None,
    }
}

/// The cell that holds an optional text.
pub open spec fn opt_text_cell(o: Option<String>) -> SqlValue {
    match o {
        Some(s) => SqlValue::Text(s),
        None => SqlValue::Null,
    }
}

/// The row of a project, in the column order of its table.
pub open spec fn project_cells(p: Project) -> Seq<SqlValue> {
    seq![
        SqlValue::Text(p.id),
        SqlValue::Text(p.name),
        opt_text_cell(p.description),
        SqlValue::Text(p.path),
        SqlValue::Text(p.created_at),
        SqlValue::Text(p.updated_at),
    ]
}

/// The project that a row holds, if it has the shape of one.
pub open spec fn project_of_cells(c: Seq<SqlValue>) -> Option<Project> {
    if c.len() == 6 && text_at(c, 0) is Some && text_at(c, 1) is Some && opt_text_at(c, 2) is Some
        && text_at(c, 3) is Some && text_at(c, 4) is Some && text_at(c, 5) is Some {
        Some(
            Project {
                id: text_at(c, 0)->0,
                name: text_at(c, 1)->0,
                description: opt_text_at(c, 2)->0,
                path: text_at(c, 3)->0,
                created_at: text_at(c, 4)->0,
                updated_at: text_at(c, 5)->0,
            },
        )
    } else {
        None
    }
}

/// The parameters of the statement that writes an updated project:
/// name, description, updated_at, then the id that selects the row.
pub open spec fn project_update_cells(p: Project) -> Seq<SqlValue> {
    seq![
        SqlValue::Text(p.name),
        opt_text_cell(p.description),
        SqlValue::Text(p.updated_at),
        SqlValue::Text(p.id),
    ]
}

/// The row of a snippet, in the column order of its table.
pub open spec fn snippet_cells(s: Snippet) -> Seq<SqlValue> {
    seq![
        SqlValue::Text(s.id),
        SqlValue::Text(s.title),
        SqlValue::Text(s.language),
        SqlValue::Text(s.code),
        opt_text_cell(s.description),
        opt_text_cell(s.tags),
        SqlValue::Text(s.created_at),
        SqlValue::Text(s.updated_at),
    ]
}

/// The snippet that a row holds, if it has the shape of one.
pub open spec fn snippet_of_cells(c: Seq<SqlValue>) -> Option<Snippet> {
    if c.len() == 8 && text_at(c, 0) is Some && text_at(c, 1) is Some && text_at(c, 2) is Some
        && text_at(c, 3) is Some && opt_text_at(c, 4) is Some && opt_text_at(c, 5) is Some
        && text_at(c, 6) is Some && text_at(c, 7) is Some {
        Some(
            Snippet {
                id: text_at(c, 0)->0,
                title: text_at(c, 1)->0,
                language: text_at(c, 2)->0,
                code: text_at(c, 3)->0,
                description: opt_text_at(c, 4)->0,
                tags: opt_text_at(c, 5)->0,
                created_at: text_at(c, 6)->0,
                updated_at: text_at(c, 7)->0,
            },
        )
    } else {
        None
    }
}

/// The row of a file record, in the column order of its table.
pub open spec fn file_cells(f: FileRecord) -> Seq<SqlValue> {
    seq![
        SqlValue::Text(f.id),
        SqlValue::Text(f.filename),
        SqlValue::Text(f.filepath),
        SqlValue::Int(f.size),
        SqlValue::Text(f.mime_type),
        opt_text_cell(f.project_id),
        SqlValue::Text(f.created_at),
    ]
}

/// The file record that a row holds, if it has the shape of one.
pub open spec fn file_of_cells(c: Seq<SqlValue>) -> Option<FileRecord> {
    if c.len() == 7 && text_at(c, 0) is Some && text_at(c, 1) is Some && text_at(c, 2) is Some
        && int_at(c, 3) is Some && text_at(c, 4) is Some && opt_text_at(c, 5) is Some
        && text_at(c, 6) is Some {
        Some(
            FileRecord {
                id: text_at(c, 0)->0,
                filename: text_at(c, 1)->0,
                filepath: text_at(c, 2)->0,
                size: int_at(c, 3)->0,
                mime_type: text_at(c, 4)->0,
                project_id: opt_text_at(c, 5)->0,
                created_at: text_at(c, 6)->0,
            },
        )
    } else {
        None
    }
}

fn opt_text_value(o: &Option<String>) -> (r: SqlValue)
    ensures
        r == opt_text_cell(*o),
{
    match o {
        Some(s) => SqlValue::Text(s.clone()),
        None => SqlValue::Null,
    }
}

fn text_in(row: &Vec<SqlValue>, i: usize) -> (r: Option<String>)
    requires
        i < row@.len(),
    ensures
        r == text_at(row@, i as int),
{
    match &row[i] {
        SqlValue::Text(s) => Some(s.clone()),
        _ => None,
    }
}

fn opt_text_in(row: &Vec<SqlValue>, i: usize) -> (r: Option<Option<String>>)
    requires
        i < row@.len(),
    ensures
        r == opt_text_at(row@, i as int),
{
    match &row[i] {
        SqlValue::Null => Some(None),
        SqlValue::Text(s) => Some(Some(s.clone())),
        SqlValue::Int(_) => None,
    }
}

fn int_in(row: &Vec<SqlValue>, i: usize) -> (r: Option<i64>)
    requires
        i < row@.len(),
    ensures
        r == int_at(row@, i as int),
{
    match &row[i] {
        SqlValue::Int(n) => Some(*n),
        _ => None,
    }
}

/// The row that stores a project.
pub fn project_row(p: &Project) -> (r: Vec<SqlValue>)
    ensures
        r@ == project_cells(*p),
{
    let r = vec![
        SqlValue::Text(p.id.clone()),
        SqlValue::Text(p.name.clone()),
        opt_text_value(&p.description),
        SqlValue::Text(p.path.clone()),
        SqlValue::Text(p.created_at.clone()),
        SqlValue::Text(p.updated_at.clone()),
    ];
    assert(r@ =~= project_cells(*p));
    r
}

/// The parameters of the statement that writes back an updated project.
pub fn project_update_row(p: &Project) -> (r: Vec<SqlValue>)
    ensures
        r@ == project_update_cells(*p),
{
    let r = vec![
        SqlValue::Text(p.name.clone()),
        opt_text_value(&p.description),
        SqlValue::Text(p.updated_at.clone()),
        SqlValue::Text(p.id.clone()),
    ];
    assert(r@ =~= project_update_cells(*p));
    r
}

/// Reads a project back from its row.
pub fn project_from_row(row: &Vec<SqlValue>) -> (r: Option<Project>)
    ensures
        r == project_of_cells(row@),
{
    if row.len() != 6 {
        return None;
    }
    let id = match text_in(row, 0) { Some(s) => s, None => return None };
    let name = match text_in(row, 1) { Some(s) => s, None => return None };
    let description = match opt_text_in(row, 2) { Some(s) => s, None => return None };
    let path = match text_in(row, 3) { Some(s) => s, None => return None };
    let created_at = match text_in(row, 4) { Some(s) => s, None => return None };
    let updated_at = match text_in(row, 5) { Some(s) => s, None => return None };
    Some(Project { id, name, description, path, created_at, updated_at })
}

/// The row that stores a snippet.
pub fn snippet_row(s: &Snippet) -> (r: Vec<SqlValue>)
    ensures
        r@ == snippet_cells(*s),
{
    let r = vec![
        SqlValue::Text(s.id.clone()),
        SqlValue::Text(s.title.clone()),
        SqlValue::Text(s.language.clone()),
        SqlValue::Text(s.code.clone()),
        opt_text_value(&s.description),
        opt_text_value(&s.tags),
        SqlValue::Text(s.created_at.clone()),
        SqlValue::Text(s.updated_at.clone()),
    ];
    assert(r@ =~= snippet_cells(*s));
    r
}

/// Reads a snippet back from its row.
pub fn snippet_from_row(row: &Vec<SqlValue>) -> (r: Option<Snippet>)
    ensures
        r == snippet_of_cells(row@),
{
    if row.len() != 8 {
        return None;
    }
    let id = match text_in(row, 0) { Some(s) => s, None => return None };
    let title = match text_in(row, 1) { Some(s) => s, None => return None };
    let language = match text_in(row, 2) { Some(s) => s, None => return None };
    let code = match text_in(row, 3) { Some(s) => s, None => return None };
    let description = match opt_text_in(row, 4) { Some(s) => s, None => return None };
    let tags = match opt_text_in(row, 5) { Some(s) => s, None => return None };
    let created_at = match text_in(row, 6) { Some(s) => s, None => return None };
    let updated_at = match text_in(row, 7) { Some(s) => s, None => return None };
    Some(Snippet { id, title, language, code, description, tags, created_at, updated_at })
}

/// The row that stores a file record.
pub fn file_row(f: &FileRecord) -> (r: Vec<SqlValue>)
    ensures
        r@ == file_cells(*f),
{
    let r = vec![
        SqlValue::Text(f.id.clone()),
        SqlValue::Text(f.filename.clone()),
        SqlValue::Text(f.filepath.clone()),
        SqlValue::Int(f.size),
        SqlValue::Text(f.mime_type.clone()),
        opt_text_value(&f.project_id),
        SqlValue::Text(f.created_at.clone()),
    ];
    assert(r@ =~= file_cells(*f));
    r
}

/// Reads a file record back from its row.
pub fn file_from_row(row: &Vec<SqlValue>) -> (r: Option<FileRecord>)
    ensures
        r == file_of_cells(row@),
{
    if row.len() != 7 {
        return None;
    }
    let id = match text_in(row, 0) { Some(s) => s, None => return None };
    let filename = match text_in(row, 1) { Some(s) => s, None => return None };
    let filepath = match text_in(row, 2) { Some(s) => s, None => return None };
    let size = match int_in(row, 3) { Some(n) => n, None => return None };
    let mime_type = match text_in(row, 4) { Some(s) => s, None => return None };
    let project_id = match opt_text_in(row, 5) { Some(s) => s, None => return None };
    let created_at = match text_in(row, 6) { Some(s) => s, None => return None };
    Some(FileRecord { id, filename, filepath, size, mime_type, project_id, created_at })
}

} // verus!
