//! Adding, finding, updating and deleting calls.

use vstd::prelude::*;
use vstd::string::*;
use crate::error::{ErrorKind, MenteeError};
use crate::models::Call;
use crate::services::mentee_service::database_error;
use crate::store::DbFailure;
use crate::text::{decimal, push_decimal};

verus! {

/// The decisions of the commands on calls.
pub struct CallService;

impl CallService {
    /// What adding a call comes to, given what the store answered.
    pub fn add_call(name: &str, date: &str, outcome: Result<usize, DbFailure>) -> (r: Result<
        String,
        MenteeError,
    >)
        ensures
            match outcome {
                Ok(_) => r is Ok && r->Ok_0@ == "Call with "@ + name@ + " on "@ + date@
                    + " added."@,
                Err(failure) => r is Err && r->Err_0.carries(
                    ErrorKind::Database,
                    failure.message@,
                ),
            },
    {
        match outcome {
            Ok(_) => {
                let mut done = String::from_str("Call with ");
                done.append(name);
                done.append(" on ");
                done.append(date);
                done.append(" added.");
                Ok(done)
            },
            Err(failure) => Err(database_error(failure)),
        }
    }

    /// What looking a call up by id comes to: the call, or not-found with
    /// the id where the store had none to give.
    pub fn get_call_by_id(call_id: u32, found: Result<Call, DbFailure>) -> (r: Result<
        Call,
        MenteeError,
    >)
        ensures
            match found {
                Ok(call) => r == Ok::<Call, MenteeError>(call),
                Err(_) => r is Err && r->Err_0.carries(
                    ErrorKind::NotFound,
                    "Can't find a call with id of "@ + decimal(call_id as nat),
                ),
            },
    {
        match found {
            Ok(call) => Ok(call),
            Err(_) => {
                let mut what = String::from_str("Can't find a call with id of ");
                push_decimal(&mut what, call_id as u128);
                Err(MenteeError::NotFound(what))
            },
        }
    }

    /// What updating a call comes to, given what the store answered: the
    /// number of rows changed, in words.
    pub fn update_call(outcome: Result<usize, DbFailure>) -> (r: Result<String, MenteeError>)
        ensures
            match outcome {
                Ok(rows) => r is Ok && r->Ok_0@ == decimal(rows as nat) + " call record updated"@,
                Err(failure) => r is Err && r->Err_0.carries(
                    ErrorKind::Database,
                    failure.message@,
                ),
            },
    {
        match outcome {
            Ok(rows) => {
                let mut done = String::new();
                push_decimal(&mut done, rows as u128);
                done.append(" call record updated");
                assert(done@ =~= decimal(rows as nat) + " call record updated"@);
                Ok(done)
            },
            Err(failure) => Err(database_error(failure)),
        }
    }

    /// What deleting a call comes to, given what the store answered: a
    /// confirmation where a row was deleted, else the reason in words.
    pub fn delete_call(call_id: u32, outcome: Result<usize, DbFailure>) -> (r: Result<
        String,
        String,
    >)
        ensures
            match outcome {
                Ok(rows) => if rows == 0 {
                    r is Err && r->Err_0@ == "Call with ID "@ + decimal(call_id as nat)
                        + " not found."@
                } else {
                    r is Ok && r->Ok_0@ == "Deleted call "@ + decimal(call_id as nat)
                },
                Err(failure) => r is Err && r->Err_0@ == "Database error: "@ + failure.message@,
            },
    {
        match outcome {
            Ok(rows) => {
                if rows == 0 {
                    let mut why = String::from_str("Call with ID ");
                    push_decimal(&mut why, call_id as u128);
                    why.append(" not found.");
                    Err(why)
                } else {
                    let mut done = String::from_str("Deleted call ");
                    push_decimal(&mut done, call_id as u128);
                    Ok(done)
                }
            },
            Err(failure) => {
                let mut why = String::from_str("Database error: ");
                why.append(failure.message.as_str());
                Err(why)
            },
        }
    }
}

} // verus!
