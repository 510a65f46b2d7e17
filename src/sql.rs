use vstd::prelude::*;

verus! {

/// The table of projects; its columns are in the order of a project's row.
pub const CREATE_PROJECTS: &'static str = "CREATE TABLE IF NOT EXISTS projects (id TEXT PRIMARY KEY NOT NULL, name TEXT NOT NULL, description TEXT, path TEXT NOT NULL, created_at TEXT NOT NULL, updated_at TEXT NOT NULL)";

/// The table of snippets; its columns are in the order of a snippet's row.
pub const CREATE_SNIPPETS: &'static str = "CREATE TABLE IF NOT EXISTS snippets (id TEXT PRIMARY KEY NOT NULL, title TEXT NOT NULL, language TEXT NOT NULL, code TEXT NOT NULL, description TEXT, tags TEXT, created_at TEXT NOT NULL, updated_at TEXT NOT NULL)";

/// The table of file records; its columns are in the order of a file record's row.
pub const CREATE_FILES: &'static str = "CREATE TABLE IF NOT EXISTS files (id TEXT PRIMARY KEY NOT NULL, filename TEXT NOT NULL, filepath TEXT NOT NULL, size INTEGER NOT NULL, mime_type TEXT NOT NULL, project_id TEXT, created_at TEXT NOT NULL)";

pub const INSERT_PROJECT: &'static str = "INSERT INTO projects (id, name, description, path, created_at, updated_at) VALUES (?, ?, ?, ?, ?, ?)";

pub const SELECT_PROJECT: &'static str = "SELECT id, name, description, path, created_at, updated_at FROM projects WHERE id = ?";

/// All projects, the most recently updated first.
pub const LIST_PROJECTS: &'static str = "SELECT id, name, description, path, created_at, updated_at FROM projects ORDER BY updated_at DESC";

pub const UPDATE_PROJECT: &'static str = "UPDATE projects SET name = ?, description = ?, updated_at = ? WHERE id = ?";

pub const DELETE_PROJECT: &'static str = "DELETE FROM projects WHERE id = ?";

pub const INSERT_SNIPPET: &'static str = "INSERT INTO snippets (id, title, language, code, description, tags, created_at, updated_at) VALUES (?, ?, ?, ?, ?, ?, ?, ?)";

pub const SELECT_SNIPPET: &'static str = "SELECT id, title, language, code, description, tags, created_at, updated_at FROM snippets WHERE id = ?";

/// All snippets, the most recently updated first.
pub const LIST_SNIPPETS: &'static str = "SELECT id, title, language, code, description, tags, created_at, updated_at FROM snippets ORDER BY updated_at DESC";

pub const DELETE_SNIPPET: &'static str = "DELETE FROM snippets WHERE id = ?";

pub const INSERT_FILE: &'static str = "INSERT INTO files (id, filename, filepath, size, mime_type, project_id, created_at) VALUES (?, ?, ?, ?, ?, ?, ?)";

pub const SELECT_FILE: &'static str = "SELECT id, filename, filepath, size, mime_type, project_id, created_at FROM files WHERE id = ?";

/// All file records, the most recently created first.
pub const LIST_FILES: &'static str = "SELECT id, filename, filepath, size, mime_type, project_id, created_at FROM files ORDER BY created_at DESC";

pub const DELETE_FILE: &'static str = "DELETE FROM files WHERE id = ?";

} // verus!
