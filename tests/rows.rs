use ide_server::models::{FileRecord, Project, Snippet};
use ide_server::outcome::{
    file_lookup, files_from_rows, project_lookup, projects_from_rows, snippet_lookup,
    snippets_from_rows, write_outcome, ApiError, StoreFailure,
};
use ide_server::rows::{
    file_from_row, file_row, project_from_row, project_row, project_update_row, snippet_from_row,
    snippet_row, SqlValue,
};

fn s(x: &str) -> String {
    x.to_string()
}

fn project(id: &str, updated: &str) -> Project {
    Project {
        id: s(id),
        name: s("n"),
        description: Some(s("d")),
        path: s("/p"),
        created_at: s("c"),
        updated_at: s(updated),
    }
}

fn snippet() -> Snippet {
    Snippet {
        id: s("s1"),
        title: s("t"),
        language: s("rust"),
        code: s("x"),
        description: None,
        tags: Some(s("a,b")),
        created_at: s("c"),
        updated_at: s("u"),
    }
}

fn file() -> FileRecord {
    FileRecord {
        id: s("f1"),
        filename: s("a.txt"),
        filepath: s("./uploads/f1"),
        size: 5,
        mime_type: s("application/octet-stream"),
        project_id: None,
        created_at: s("c"),
    }
}

#[test]
fn project_row_round_trip() {
    let p = project("p1", "u");
    let row = project_row(&p);
    assert_eq!(row[2], SqlValue::Text(s("d")));
    assert_eq!(project_from_row(&row), Some(p.clone()));
    assert_eq!(project_lookup(Ok(Some(row))), Ok(p));
}

#[test]
fn project_update_parameters() {
    let mut p = project("p1", "u2");
    p.description = None;
    let row = project_update_row(&p);
    assert_eq!(row, vec![SqlValue::Text(s("n")), SqlValue::Null, SqlValue::Text(s("u2")), SqlValue::Text(s("p1"))]);
}

#[test]
fn snippet_row_round_trip() {
    let sn = snippet();
    let row = snippet_row(&sn);
    assert_eq!(row.len(), 8);
    assert_eq!(row[4], SqlValue::Null);
    assert_eq!(snippet_from_row(&row), Some(sn.clone()));
    assert_eq!(snippet_lookup(Ok(Some(row))), Ok(sn));
}

#[test]
fn file_row_round_trip() {
    let f = file();
    let row = file_row(&f);
    assert_eq!(row[3], SqlValue::Int(5));
    assert_eq!(file_from_row(&row), Some(f.clone()));
    assert_eq!(file_lookup(Ok(Some(row))), Ok(f));
}

#[test]
fn malformed_rows_are_rejected() {
    assert_eq!(project_from_row(&vec![]), None);
    let mut row = project_row(&project("p", "u"));
    row[1] = SqlValue::Null;
    assert_eq!(project_from_row(&row), None);
    assert_eq!(project_lookup(Ok(Some(row))), Err(ApiError::Internal));
    let mut frow = file_row(&file());
    frow[3] = SqlValue::Text(s("5"));
    assert_eq!(file_from_row(&frow), None);
}

#[test]
fn unknown_identifier_is_not_found() {
    assert_eq!(project_lookup(Ok(None)), Err(ApiError::NotFound));
    assert_eq!(snippet_lookup(Ok(None)), Err(ApiError::NotFound));
    assert_eq!(file_lookup(Ok(None)), Err(ApiError::NotFound));
    assert_eq!(ApiError::NotFound.status_code(), 404);
}

#[test]
fn store_failure_is_internal() {
    assert_eq!(project_lookup(Err(StoreFailure)), Err(ApiError::Internal));
    assert_eq!(write_outcome(Err(StoreFailure)), Err(ApiError::Internal));
    assert_eq!(ApiError::Internal.status_code(), 500);
    assert_eq!(ApiError::BadRequest.status_code(), 400);
}

#[test]
fn deleting_absent_row_succeeds() {
    assert_eq!(write_outcome(Ok(0)), Ok(()));
    assert_eq!(write_outcome(Ok(1)), Ok(()));
}

#[test]
fn listing_keeps_datastore_order() {
    let rows = vec![project_row(&project("b", "2")), project_row(&project("a", "1"))];
    let v = projects_from_rows(&rows).unwrap();
    assert_eq!(v, vec![project("b", "2"), project("a", "1")]);
    assert_eq!(projects_from_rows(&vec![]), Ok(vec![]));
    let sv = snippets_from_rows(&vec![snippet_row(&snippet())]).unwrap();
    assert_eq!(sv, vec![snippet()]);
    let fv = files_from_rows(&vec![file_row(&file())]).unwrap();
    assert_eq!(fv, vec![file()]);
}

#[test]
fn listing_with_bad_row_fails() {
    let rows = vec![project_row(&project("b", "2")), vec![SqlValue::Int(1)]];
    assert_eq!(projects_from_rows(&rows), Err(ApiError::Internal));
    assert_eq!(files_from_rows(&vec![vec![]]), Err(ApiError::Internal));
}
