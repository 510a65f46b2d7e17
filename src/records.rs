use vstd::prelude::*;
use vstd::string::*;
use crate::ids::{is_id_text, is_utc_timestamp, new_id, now_timestamp};
use crate::models::{CreateProject, CreateSnippet, FileRecord, Project, Snippet, UpdateProject};
use crate::outcome::ApiError;
use crate::tags::{join_tags, joined, tag_views};

verus! {

/// The directory that holds the blobs of uploaded files.
pub const UPLOAD_DIR: &'static str = "./uploads";

/// The media type recorded for every uploaded file.
pub const MIME_TYPE: &'static str = "application/octet-stream";

/// The project made from a create request, an identifier and the time.
pub open spec fn project_from(payload: CreateProject, id: String, now: String) -> Project {
    Project {
        id,
        name: payload.name,
        description: payload.description,
        path: payload.path,
        created_at: now,
        updated_at: now,
    }
}

/// The project after a partial update at time `now`: present fields replace
/// the old ones, absent fields are kept, and `updated_at` becomes `now`.
pub open spec fn merged(p: Project, u: UpdateProject, now: String) -> Project {
    Project {
        id: p.id,
        name: match u.name {
            Some(n) => n,
            None => p.name,
        },
        description: match u.description {
            Some(d) => Some(d),
            None => p.description,
        },
        path: p.path,
        created_at: p.created_at,
        updated_at: now,
    }
}

/// The stored tags are the given tags joined, and absent when none were given.
pub open spec fn tags_stored(stored: Option<String>, given: Option<Vec<String>>) -> bool {
    match (stored, given) {
        (Some(s), Some(t)) => s@ == joined(tag_views(t@)),
        (None, None) => true,
        _ => false,
    }
}

/// `s` is the snippet made from a create request, an identifier and the time.
pub open spec fn snippet_from(s: Snippet, payload: CreateSnippet, id: String, now: String) -> bool {
    &&& s.id == id
    &&& s.title == payload.title
    &&& s.language == payload.language
    &&& s.code == payload.code
    &&& s.description == payload.description
    &&& tags_stored(s.tags, payload.tags)
    &&& s.created_at == now
    &&& s.updated_at == now
}

/// Where the blob of identifier `id` is kept under directory `dir`.
pub open spec fn blob_location(dir: Seq<char>, id: Seq<char>) -> Seq<char> {
    dir + seq!['/'] + id
}

/// `f` records an upload of `size` bytes named `filename`, stored as blob `id` under `dir`.
pub open spec fn file_from(
    f: FileRecord,
    filename: String,
    dir: Seq<char>,
    id: String,
    size: int,
    now: String,
) -> bool {
    &&& f.id == id
    &&& f.filename == filename
    &&& f.filepath@ == blob_location(dir, id@)
    &&& f.size == size
    &&& f.mime_type@ == MIME_TYPE@
    &&& f.project_id is None
    &&& f.created_at == now
}

/// Builds the project for a create request.
pub fn new_project(payload: CreateProject, id: String, now: String) -> (r: Project)
    ensures
        r == project_from(payload, id, now),
{
    Project {
        id,
        name: payload.name,
        description: payload.description,
        path: payload.path,
        created_at: now.clone(),
        updated_at: now,
    }
}

/// Builds the project for a create request, with a fresh identifier and the current time.
pub fn create_project_record(payload: CreateProject) -> (r: Project)
    ensures
        r == project_from(payload, r.id, r.created_at),
        is_id_text(r.id@),
        is_utc_timestamp(r.created_at@),
{
    let id = new_id();
    let now = now_timestamp();
    new_project(payload, id, now)
}

/// Applies a partial update to a project at time `now`.
pub fn apply_update(project: Project, payload: UpdateProject, now: String) -> (r: Project)
    ensures
        r == merged(project, payload, now),
{
    let mut project = project;
    match payload.name {
        Some(n) => {
            project.name = n;
        },
        None => {},
    }
    match payload.description {
        Some(d) => {
            project.description = Some(d);
        },
        None => {},
    }
    project.updated_at = now;
    project
}

/// Applies a partial update to a project at the current time.
pub fn update_project_record(project: Project, payload: UpdateProject) -> (r: Project)
    ensures
        r == merged(project, payload, r.updated_at),
        is_utc_timestamp(r.updated_at@),
{
    let now = now_timestamp();
    apply_update(project, payload, now)
}

/// Builds the snippet for a create request; its tags are joined with commas.
pub fn new_snippet(payload: CreateSnippet, id: String, now: String) -> (r: Snippet)
    ensures
        snippet_from(r, payload, id, now),
{
    let tags = match &payload.tags {
        Some(t) => Some(join_tags(t)),
        None => None,
    };
    Snippet {
        id,
        title: payload.title,
        language: payload.language,
        code: payload.code,
        description: payload.description,
        tags,
        created_at: now.clone(),
        updated_at: now,
    }
}

/// Builds the snippet for a create request, with a fresh identifier and the current time.
pub fn create_snippet_record(payload: CreateSnippet) -> (r: Snippet)
    ensures
        snippet_from(r, payload, r.id, r.created_at),
        is_id_text(r.id@),
        is_utc_timestamp(r.created_at@),
{
    let id = new_id();
    let now = now_timestamp();
    new_snippet(payload, id, now)
}

/// The path of the blob with identifier `id` under directory `dir`.
pub fn blob_path(dir: &str, id: &str) -> (r: String)
    ensures
        r@ == blob_location(dir@, id@),
{
    let mut r = String::from_str(dir);
    proof {
        reveal_strlit("/");
    }
    r.append("/");
    r.append(id);
    r
}

/// Builds the record of an upload of `size` bytes, stored as blob `id` under `dir`.
pub fn new_file_record(filename: String, dir: &str, id: String, size: usize, now: String) -> (r:
    FileRecord)
    requires
        size <= i64::MAX,
    ensures
        file_from(r, filename, dir@, id, size as int, now),
{
    let filepath = blob_path(dir, id.as_str());
    FileRecord {
        id,
        filename,
        filepath,
        size: size as i64,
        mime_type: String::from_str(MIME_TYPE),
        project_id: None,
        created_at: now,
    }
}

/// One part of a multipart upload: the client's file name, if it gave one, and the bytes.
pub struct UploadPart {
    pub file_name: Option<String>,
    pub data: Vec<u8>,
}

/// Decides the record of an upload from its first part, with a fresh identifier
/// and the current time. The upload is refused when there is no part or the
/// part has no file name.
pub fn plan_upload(part: Option<UploadPart>, dir: &str) -> (r: Result<FileRecord, ApiError>)
    requires
        part matches Some(p) ==> p.data@.len() <= i64::MAX,
    ensures
        match part {
            None => r == Err::<FileRecord, ApiError>(ApiError::BadRequest),
            Some(p) => match p.file_name {
                None => r == Err::<FileRecord, ApiError>(ApiError::BadRequest),
                Some(name) => match r {
                    Ok(f) => {
                        &&& file_from(f, name, dir@, f.id, p.data@.len() as int, f.created_at)
                        &&& is_id_text(f.id@)
                        &&& is_utc_timestamp(f.created_at@)
                    },
                    Err(_) => false,
                },
            },
        },
{
    match part {
        None => Err(ApiError::BadRequest),
        Some(p) => match p.file_name {
            None => Err(ApiError::BadRequest),
            Some(name) => {
                let id = new_id();
                let now = now_timestamp();
                Ok(new_file_record(name, dir, id, p.data.len(), now))
            },
        },
    }
}

} // verus!
