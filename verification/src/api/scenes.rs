//! Rules of the scene endpoints: the answers to failures and to deletions.

use vstd::prelude::*;

verus! {

/// Failures of the scene endpoints.
#[derive(Debug)]
pub enum AppError {
    Database(String),
    NotFound(&'static str),
    Internal(String),
}

impl AppError {
    pub open spec fn status_spec(&self) -> u16 {
        match self {
            AppError::NotFound(_) => 404,
            _ => 500,
        }
    }

    pub open spec fn body_spec(&self) -> Seq<char> {
        match self {
            AppError::Database(e) => "Database error: "@ + e@,
            AppError::NotFound(msg) => "Not found: "@ + msg@,
            AppError::Internal(msg) => msg@,
        }
    }

    /// HTTP status answered for the failure.
    pub fn status_code(&self) -> (code: u16)
        ensures
            code == self.status_spec(),
    {
        match self {
            AppError::NotFound(_) => 404,
            _ => 500,
        }
    }

    /// Text of the answer.
    pub fn body(&self) -> (body: String)
        ensures
            body@ == self.body_spec(),
    {
        match self {
            AppError::Database(e) => {
                let mut b = String::from_str("Database error: ");
                b.append(e.as_str());
                b
            },
            AppError::NotFound(msg) => {
                let mut b = String::from_str("Not found: ");
                b.append(msg);
                b
            },
            AppError::Internal(msg) => msg.clone(),
        }
    }
}

/// Status of a deletion that removed `rows_affected` scenes: `204 No Content`,
/// or `Scene not found` when nothing was removed.
pub fn deletion_status(rows_affected: u64) -> (r: Result<u16, AppError>)
    ensures
        rows_affected == 0 ==> (r matches Err(AppError::NotFound(m)) && m@ == "Scene not found"@),
        rows_affected != 0 ==> r == Ok::<u16, AppError>(204),
{
    if rows_affected == 0 {
        Err(AppError::NotFound("Scene not found"))
    } else {
        Ok(204)
    }
}

} // verus!
