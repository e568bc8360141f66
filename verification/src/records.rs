//! Records kept in the database and its connection settings.

use vstd::prelude::*;
use crate::text::str_eq;

verus! {

/// A knowledge base.
#[derive(Debug, Clone)]
pub struct KnowledgeBase {
    pub id: String,
    pub name: String,
    pub description: String,
    pub model: String,
    pub chunk_size: i32,
    pub overlap_size: i32,
    pub document_count: i32,
    pub created_at: i64,
    pub updated_at: i64,
}

/// A document stored in a knowledge base.
#[derive(Debug, Clone)]
pub struct Document {
    pub id: String,
    pub filename: String,
    pub filetype: String,
    pub filesize: i64,
    pub created_at: i64,
}

/// Where the databases are.
#[derive(Debug, Clone)]
pub struct PostgresDbEnv {
    pub postgres_url: String,
    pub pgvector_url: String,
}

/// Whether `key` names a setting of `PostgresDbEnv`.
pub open spec fn is_db_setting(key: Seq<char>) -> bool {
    key == "DATABASE_URL"@ || key == "PGVECTOR_URI"@
}

impl PostgresDbEnv {
    /// The value of the setting named `key`.
    pub fn get_env_var(&self, key: &str) -> (r: String)
        requires
            is_db_setting(key@),
        ensures
            key@ == "DATABASE_URL"@ ==> r@ == self.postgres_url@,
            key@ != "DATABASE_URL"@ ==> r@ == self.pgvector_url@,
    {
        if str_eq(key, "DATABASE_URL") {
            self.postgres_url.clone()
        } else {
            self.pgvector_url.clone()
        }
    }
}

} // verus!
