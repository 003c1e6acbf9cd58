//! The sync providers' own data: the Linear options, the record an issue
//! is stored from, the errors of a pull, and what a pull writes to its
//! sync cursor.

use vstd::prelude::*;

use crate::text::{push_str, string_of};

verus! {

/// Configuration for the Linear sync provider.
#[derive(Clone, Debug)]
pub struct LinearOptions {
    pub token: String,
    pub team_keys: Vec<String>,
}

impl Default for LinearOptions {
    fn default() -> (r: Self)
        ensures
            r.token@.len() == 0,
            r.team_keys@.len() == 0,
    {
        LinearOptions { token: String::new(), team_keys: Vec::new() }
    }
}

/// Record for upserting a Linear issue.
#[derive(Clone, Debug)]
pub struct IssueRecord {
    pub linear_id: String,
    pub identifier: String,
    pub title: String,
    pub description: Option<String>,
    pub url: String,
    pub state_name: String,
    pub state_type: String,
    pub priority: Option<i64>,
    pub team_key: Option<String>,
    pub assignee_name: Option<String>,
    pub assigned_to_me: bool,
}

/// Errors of a provider pull.
#[derive(Debug)]
pub enum SyncError {
    /// The database refused an operation (its message).
    Db(String),
    /// No sync state row exists for the source.
    NotFound(String),
}

impl SyncError {
    /// The message of the error.
    pub open spec fn message_spec(&self) -> Seq<char> {
        match self {
            SyncError::Db(m) => "database error: "@ + m@,
            SyncError::NotFound(s) => "sync state not found for "@ + s@,
        }
    }

    /// The message of the error, as `Display` shows it.
    pub fn message(&self) -> (r: String)
        ensures
            r@ == self.message_spec(),
    {
        let mut out: Vec<char> = Vec::new();
        match self {
            SyncError::Db(m) => {
                push_str(&mut out, "database error: ");
                push_str(&mut out, m.as_str());
                proof {
                    reveal_strlit("database error: ");
                }
            },
            SyncError::NotFound(s) => {
                push_str(&mut out, "sync state not found for ");
                push_str(&mut out, s.as_str());
                proof {
                    reveal_strlit("sync state not found for ");
                }
            },
        }
        string_of(out.as_slice())
    }
}

/// What a pull writes to the source's sync cursor: its status and error.
#[derive(Clone, Copy, Debug, PartialEq, Eq)]
pub struct CursorWrite {
    pub status: &'static str,
    pub error: Option<&'static str>,
}

/// Without a token a pull fetches nothing and marks the cursor `never`
/// with the error "no token configured"; with one it marks it `ok`.
pub fn pull_cursor(token: &str) -> (r: CursorWrite)
    ensures
        token@.len() == 0 ==> (r.status@ == "never"@ && (r.error matches Some(e) && e@
            == "no token configured"@)),
        token@.len() > 0 ==> r.status@ == "ok"@ && r.error is None,
{
    if token.is_empty() {
        CursorWrite { status: "never", error: Some("no token configured") }
    } else {
        CursorWrite { status: "ok", error: None }
    }
}

} // verus!
