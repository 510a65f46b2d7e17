use ide_server::models::{CreateProject, CreateSnippet, UpdateProject};
use ide_server::outcome::ApiError;
use ide_server::records::{
    apply_update, blob_path, create_project_record, create_snippet_record, new_file_record,
    new_project, new_snippet, plan_upload, update_project_record, UploadPart, MIME_TYPE,
    UPLOAD_DIR,
};
use ide_server::tags::join_tags;

fn s(x: &str) -> String {
    x.to_string()
}

fn is_id(t: &str) -> bool {
    t.len() == 36
        && t.chars().enumerate().all(|(i, c)| {
            if i == 8 || i == 13 || i == 18 || i == 23 {
                c == '-'
            } else {
                c.is_ascii_digit() || ('a'..='f').contains(&c)
            }
        })
}

fn demo_payload() -> CreateProject {
    CreateProject { name: s("demo"), description: None, path: s("/tmp/demo") }
}

#[test]
fn create_project_has_equal_timestamps() {
    let p = new_project(demo_payload(), s("id-1"), s("2024-01-01T00:00:00+00:00"));
    assert_eq!(p.id, "id-1");
    assert_eq!(p.name, "demo");
    assert_eq!(p.description, None);
    assert_eq!(p.path, "/tmp/demo");
    assert_eq!(p.created_at, p.updated_at);
}

#[test]
fn demo_project_scenario() {
    let p = create_project_record(demo_payload());
    assert!(is_id(&p.id));
    assert_eq!(p.created_at, p.updated_at);
    assert!(p.created_at.ends_with("+00:00"));
    let later = s("9999-12-31T23:59:59+00:00");
    let u = apply_update(p.clone(), UpdateProject { name: None, description: Some(s("hi")) }, later);
    assert_eq!(u.id, p.id);
    assert_eq!(u.name, "demo");
    assert_eq!(u.description, Some(s("hi")));
    assert_eq!(u.created_at, p.created_at);
    assert!(u.updated_at > u.created_at);
}

#[test]
fn update_with_name_only_keeps_description() {
    let p = new_project(
        CreateProject { name: s("a"), description: Some(s("d")), path: s("/p") },
        s("x"),
        s("t0"),
    );
    let u = apply_update(p, UpdateProject { name: Some(s("b")), description: None }, s("t1"));
    assert_eq!(u.name, "b");
    assert_eq!(u.description, Some(s("d")));
    assert_eq!(u.path, "/p");
    assert_eq!(u.created_at, "t0");
    assert_eq!(u.updated_at, "t1");
}

#[test]
fn update_at_current_time_refreshes_timestamp() {
    let p = new_project(demo_payload(), s("x"), s("2000-01-01T00:00:00+00:00"));
    let u = update_project_record(p, UpdateProject { name: None, description: None });
    assert_eq!(u.name, "demo");
    assert_eq!(u.created_at, "2000-01-01T00:00:00+00:00");
    assert_ne!(u.updated_at, u.created_at);
    assert!(u.updated_at.ends_with("+00:00"));
}

#[test]
fn snippet_tags_are_comma_joined() {
    let payload = CreateSnippet {
        title: s("t"),
        language: s("rust"),
        code: s("fn main() {}"),
        description: None,
        tags: Some(vec![s("a,b"), s("c")]),
    };
    let sn = new_snippet(payload, s("id"), s("now"));
    assert_eq!(sn.tags, Some(s("a,b,c")));
    assert_eq!(sn.title, "t");
    assert_eq!(sn.language, "rust");
    assert_eq!(sn.code, "fn main() {}");
    assert_eq!(sn.created_at, "now");
    assert_eq!(sn.updated_at, "now");
}

#[test]
fn tag_encoding_is_lossy() {
    let two = join_tags(&vec![s("a,b"), s("c")]);
    let three = join_tags(&vec![s("a"), s("b"), s("c")]);
    assert_eq!(two, three);
    let read_back: Vec<&str> = two.split(',').collect();
    assert_eq!(read_back, vec!["a", "b", "c"]);
}

#[test]
fn join_tags_edge_cases() {
    assert_eq!(join_tags(&vec![]), "");
    assert_eq!(join_tags(&vec![s("only")]), "only");
    assert_eq!(join_tags(&vec![s(""), s("")]), ",");
}

#[test]
fn snippet_without_tags_stores_none() {
    let payload = CreateSnippet {
        title: s("t"),
        language: s("py"),
        code: s("pass"),
        description: Some(s("d")),
        tags: None,
    };
    let sn = create_snippet_record(payload);
    assert!(is_id(&sn.id));
    assert_eq!(sn.tags, None);
    assert_eq!(sn.description, Some(s("d")));
    assert_eq!(sn.created_at, sn.updated_at);
}

#[test]
fn blob_path_joins_dir_and_id() {
    assert_eq!(blob_path("./uploads", "abc"), "./uploads/abc");
    assert_eq!(blob_path("", "x"), "/x");
}

#[test]
fn file_record_fields() {
    let f = new_file_record(s("a.txt"), "/srv", s("id9"), 5, s("now"));
    assert_eq!(f.id, "id9");
    assert_eq!(f.filename, "a.txt");
    assert_eq!(f.filepath, "/srv/id9");
    assert_eq!(f.size, 5);
    assert_eq!(f.mime_type, "application/octet-stream");
    assert_eq!(f.project_id, None);
    assert_eq!(f.created_at, "now");
}

#[test]
fn upload_of_five_bytes() {
    let part = UploadPart { file_name: Some(s("a.txt")), data: vec![1, 2, 3, 4, 5] };
    let f = plan_upload(Some(part), UPLOAD_DIR).unwrap();
    assert_eq!(f.size, 5);
    assert_eq!(f.mime_type, MIME_TYPE);
    assert_eq!(f.mime_type, "application/octet-stream");
    assert_eq!(f.filename, "a.txt");
    assert!(is_id(&f.id));
    assert_eq!(f.filepath, format!("./uploads/{}", f.id));
    assert_eq!(f.project_id, None);
    assert!(f.created_at.ends_with("+00:00"));
}

#[test]
fn upload_without_part_is_bad_request() {
    assert_eq!(plan_upload(None, UPLOAD_DIR), Err(ApiError::BadRequest));
}

#[test]
fn upload_without_file_name_is_bad_request() {
    let part = UploadPart { file_name: None, data: vec![1] };
    assert_eq!(plan_upload(Some(part), UPLOAD_DIR), Err(ApiError::BadRequest));
}

#[test]
fn two_uploads_get_distinct_ids() {
    let a = plan_upload(Some(UploadPart { file_name: Some(s("x")), data: vec![] }), "d").unwrap();
    let b = plan_upload(Some(UploadPart { file_name: Some(s("x")), data: vec![] }), "d").unwrap();
    assert_ne!(a.id, b.id);
    assert_ne!(a.filepath, b.filepath);
    assert_eq!(a.size, 0);
}
