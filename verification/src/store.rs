//! The settings store at its boundary: the rows it holds, the statements it
//! is asked with and the columns that later versions added to it. Running
//! the statements is the caller's part.

use crate::text::{same_text, texts, trim, trimmed};
use vstd::prelude::*;
use vstd::string::*;

verus! {

/// A stored prompt.
#[derive(Clone, Debug)]
pub struct PromptRow {
    pub id: i64,
    pub content: String,
    pub created_at: String,
}

/// A prompt stored with a project.
#[derive(Clone, Debug)]
pub struct ProjectPromptRow {
    pub id: i64,
    pub project_id: i64,
    pub content: String,
    pub created_at: String,
}

/// A stored project.
#[derive(Clone, Debug)]
pub struct ProjectRow {
    pub id: i64,
    pub name: String,
    pub work_mode: String,
    pub provider: String,
    pub server: String,
    pub model: String,
    pub meta: Option<String>,
    pub created_at: String,
}

/// A project to store.
#[derive(Clone, Debug)]
pub struct ProjectInput {
    pub name: String,
    pub work_mode: String,
    pub provider: String,
    pub server: String,
    pub model: String,
    pub meta: Option<String>,
}

/// A statement with the row limit to bind to it, if it takes one.
#[derive(Clone, Debug)]
pub struct LimitedQuery {
    pub sql: String,
    pub limit: Option<i64>,
}

/// The limit that a list is cut to: the caller's, if it is positive.
pub open spec fn effective_limit(limit: Option<i64>) -> Option<i64> {
    match limit {
        Some(n) => if n > 0 {
            Some(n)
        } else {
            None
        },
        None => None,
    }
}

fn limit_of(limit: Option<i64>) -> (r: Option<i64>)
    ensures
        r == effective_limit(limit),
{
    match limit {
        Some(n) => if n > 0 {
            Some(n)
        } else {
            None
        },
        None => None,
    }
}

/// The statement that lists the prompts, newest first.
pub fn prompts_query(limit: Option<i64>) -> (q: LimitedQuery)
    ensures
        q.limit == effective_limit(limit),
        q.sql@ == if effective_limit(limit) is Some {
            "SELECT id, content, created_at FROM prompts ORDER BY id DESC LIMIT ?"@
        } else {
            "SELECT id, content, created_at FROM prompts ORDER BY id DESC"@
        },
{
    let limit = limit_of(limit);
    let sql = if limit.is_some() {
        String::from_str("SELECT id, content, created_at FROM prompts ORDER BY id DESC LIMIT ?")
    } else {
        String::from_str("SELECT id, content, created_at FROM prompts ORDER BY id DESC")
    };
    LimitedQuery { sql, limit }
}

/// The statement that lists the prompts of one project, oldest first; the
/// project's id is bound first, the limit second.
pub fn project_prompts_query(limit: Option<i64>) -> (q: LimitedQuery)
    ensures
        q.limit == effective_limit(limit),
        q.sql@ == if effective_limit(limit) is Some {
            "SELECT id, project_id, content, created_at FROM project_prompts WHERE project_id = ? ORDER BY id ASC LIMIT ?"@
        } else {
            "SELECT id, project_id, content, created_at FROM project_prompts WHERE project_id = ? ORDER BY id ASC"@
        },
{
    let limit = limit_of(limit);
    let sql = if limit.is_some() {
        String::from_str(
            "SELECT id, project_id, content, created_at FROM project_prompts WHERE project_id = ? ORDER BY id ASC LIMIT ?",
        )
    } else {
        String::from_str(
            "SELECT id, project_id, content, created_at FROM project_prompts WHERE project_id = ? ORDER BY id ASC",
        )
    };
    LimitedQuery { sql, limit }
}

/// The statement that lists the projects, newest first, of one work mode
/// or of all.
pub fn projects_query(by_work_mode: bool) -> (sql: String)
    ensures
        sql@ == if by_work_mode {
            "SELECT id, name, work_mode, provider, server, model, meta, created_at FROM projects WHERE work_mode = ? ORDER BY created_at DESC"@
        } else {
            "SELECT id, name, work_mode, provider, server, model, meta, created_at FROM projects ORDER BY created_at DESC"@
        },
{
    if by_work_mode {
        String::from_str(
            "SELECT id, name, work_mode, provider, server, model, meta, created_at FROM projects WHERE work_mode = ? ORDER BY created_at DESC",
        )
    } else {
        String::from_str(
            "SELECT id, name, work_mode, provider, server, model, meta, created_at FROM projects ORDER BY created_at DESC",
        )
    }
}

/// A project can be stored when its name holds more than white space.
pub fn validate_project(project: &ProjectInput) -> (r: Result<(), String>)
    ensures
        match r {
            Ok(()) => trimmed(project.name@).len() > 0,
            Err(e) => trimmed(project.name@).len() == 0 && e@ == "Project name cannot be empty"@,
        },
{
    let t = trim(project.name.as_str());
    if t.as_str().unicode_len() == 0 {
        Err(String::from_str("Project name cannot be empty"))
    } else {
        Ok(())
    }
}

/// How a flag is stored: one for set, zero for clear.
pub fn flag_to_sql(flag: bool) -> (v: i64)
    ensures
        v == if flag {
            1i64
        } else {
            0i64
        },
{
    if flag {
        1
    } else {
        0
    }
}

/// How a stored flag is read: everything but zero is set.
pub fn flag_from_sql(v: i64) -> (flag: bool)
    ensures
        flag == (v != 0),
{
    v != 0
}

/// Number of columns that were added to the settings table after its first
/// version.
pub const ADDED_COLUMNS: usize = 14;

/// Name of the `i`-th added column.
pub open spec fn added_column(i: int) -> Seq<char> {
    if i == 0 {
        "ollama_base"@
    } else if i == 1 {
        "ollama_model"@
    } else if i == 2 {
        "server_port"@
    } else if i == 3 {
        "server_variant"@
    } else if i == 4 {
        "temperature"@
    } else if i == 5 {
        "top_k"@
    } else if i == 6 {
        "top_p"@
    } else if i == 7 {
        "min_p"@
    } else if i == 8 {
        "max_tokens"@
    } else if i == 9 {
        "repeat_last_n"@
    } else if i == 10 {
        "paste_to_file_length"@
    } else if i == 11 {
        "parse_pdf_as_image"@
    } else if i == 12 {
        "context_folder"@
    } else {
        "ollama_params_json"@
    }
}

/// Type and default of the `i`-th added column.
pub open spec fn added_column_type(i: int) -> Seq<char> {
    if i == 0 {
        "TEXT NOT NULL DEFAULT 'http://127.0.0.1:11434'"@
    } else if i == 1 {
        "TEXT NOT NULL DEFAULT 'llama3'"@
    } else if i == 2 {
        "INTEGER NOT NULL DEFAULT 8080"@
    } else if i == 3 {
        "TEXT NOT NULL DEFAULT 'cpu'"@
    } else if i == 4 {
        "REAL NOT NULL DEFAULT 0.8"@
    } else if i == 5 {
        "INTEGER NOT NULL DEFAULT 40"@
    } else if i == 6 {
        "REAL NOT NULL DEFAULT 0.95"@
    } else if i == 7 {
        "REAL NOT NULL DEFAULT 0.05"@
    } else if i == 8 {
        "INTEGER NOT NULL DEFAULT -1"@
    } else if i == 9 {
        "INTEGER NOT NULL DEFAULT 64"@
    } else if i == 10 {
        "INTEGER NOT NULL DEFAULT 2500"@
    } else if i == 11 {
        "INTEGER NOT NULL DEFAULT 0"@
    } else if i == 12 {
        "TEXT NOT NULL DEFAULT ''"@
    } else {
        "TEXT NOT NULL DEFAULT ''"@
    }
}

/// The statement that adds the `i`-th column.
pub open spec fn add_column_statement(i: int) -> Seq<char> {
    "ALTER TABLE settings ADD COLUMN "@ + added_column(i) + " "@ + added_column_type(i)
}

/// Name of the `i`-th added column.
pub fn column_name(i: usize) -> (name: &'static str)
    requires
        i < ADDED_COLUMNS,
    ensures
        name@ == added_column(i as int),
{
    if i == 0 {
        "ollama_base"
    } else if i == 1 {
        "ollama_model"
    } else if i == 2 {
        "server_port"
    } else if i == 3 {
        "server_variant"
    } else if i == 4 {
        "temperature"
    } else if i == 5 {
        "top_k"
    } else if i == 6 {
        "top_p"
    } else if i == 7 {
        "min_p"
    } else if i == 8 {
        "max_tokens"
    } else if i == 9 {
        "repeat_last_n"
    } else if i == 10 {
        "paste_to_file_length"
    } else if i == 11 {
        "parse_pdf_as_image"
    } else if i == 12 {
        "context_folder"
    } else {
        "ollama_params_json"
    }
}

fn column_type(i: usize) -> (decl: &'static str)
    requires
        i < ADDED_COLUMNS,
    ensures
        decl@ == added_column_type(i as int),
{
    if i == 0 {
        "TEXT NOT NULL DEFAULT 'http://127.0.0.1:11434'"
    } else if i == 1 {
        "TEXT NOT NULL DEFAULT 'llama3'"
    } else if i == 2 {
        "INTEGER NOT NULL DEFAULT 8080"
    } else if i == 3 {
        "TEXT NOT NULL DEFAULT 'cpu'"
    } else if i == 4 {
        "REAL NOT NULL DEFAULT 0.8"
    } else if i == 5 {
        "INTEGER NOT NULL DEFAULT 40"
    } else if i == 6 {
        "REAL NOT NULL DEFAULT 0.95"
    } else if i == 7 {
        "REAL NOT NULL DEFAULT 0.05"
    } else if i == 8 {
        "INTEGER NOT NULL DEFAULT -1"
    } else if i == 9 {
        "INTEGER NOT NULL DEFAULT 64"
    } else if i == 10 {
        "INTEGER NOT NULL DEFAULT 2500"
    } else if i == 11 {
        "INTEGER NOT NULL DEFAULT 0"
    } else if i == 12 {
        "TEXT NOT NULL DEFAULT ''"
    } else {
        "TEXT NOT NULL DEFAULT ''"
    }
}

/// Whether `name` is among `existing`.
pub open spec fn has_column(existing: Seq<Seq<char>>, name: Seq<char>) -> bool {
    exists|j: int| 0 <= j < existing.len() && #[trigger] existing[j] == name
}

/// The statements that bring a settings table with the columns `existing`
/// up to date: one for each of the first `upto` added columns that the
/// table lacks, in the order in which the columns were added.
pub open spec fn pending(existing: Seq<Seq<char>>, upto: int) -> Seq<Seq<char>>
    decreases upto,
{
    if upto <= 0 {
        Seq::empty()
    } else if has_column(existing, added_column(upto - 1)) {
        pending(existing, upto - 1)
    } else {
        pending(existing, upto - 1).push(add_column_statement(upto - 1))
    }
}

fn contains_name(existing: &Vec<String>, name: &str) -> (r: bool)
    ensures
        r == has_column(texts(existing@), name@),
{
    let mut j: usize = 0;
    while j < existing.len()
        invariant
            j <= existing.len(),
            forall|k: int| 0 <= k < j ==> #[trigger] texts(existing@)[k] != name@,
        decreases existing.len() - j,
    {
        if same_text(existing[j].as_str(), name) {
            assert(texts(existing@)[j as int] == name@);
            return true;
        }
        j = j + 1;
    }
    false
}

/// The statements to run on a settings table that has the columns
/// `existing`, so that it has every column of the current version.
pub fn pending_migrations(existing: &Vec<String>) -> (statements: Vec<String>)
    ensures
        texts(statements@) == pending(texts(existing@), ADDED_COLUMNS as int),
{
    let mut statements: Vec<String> = Vec::new();
    let mut i: usize = 0;
    assert(texts(statements@) =~= Seq::<Seq<char>>::empty());
    while i < ADDED_COLUMNS
        invariant
            i <= ADDED_COLUMNS,
            texts(statements@) == pending(texts(existing@), i as int),
        decreases ADDED_COLUMNS - i,
    {
        let ghost before = texts(statements@);
        if !contains_name(existing, column_name(i)) {
            let mut statement = String::from_str("ALTER TABLE settings ADD COLUMN ");
            statement.append(column_name(i));
            statement.append(" ");
            statement.append(column_type(i));
            statements.push(statement);
            assert(texts(statements@) =~= before.push(add_column_statement(i as int)));
        }
        i = i + 1;
    }
    statements
}

/// A table that has every added column needs no statement.
pub proof fn complete_table_needs_nothing(existing: Seq<Seq<char>>, upto: int)
    requires
        forall|i: int| 0 <= i < upto ==> has_column(existing, #[trigger] added_column(i)),
    ensures
        pending(existing, upto).len() == 0,
    decreases upto,
{
    if upto > 0 {
        complete_table_needs_nothing(existing, upto - 1);
    }
}

} // verus!
