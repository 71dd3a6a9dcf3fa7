//! Adding, finding, updating and deleting videos.

use vstd::prelude::*;
use vstd::string::*;
use crate::error::{ErrorKind, MenteeError};
use crate::models::Video;
use crate::services::mentee_service::database_error;
use crate::store::DbFailure;
use crate::text::{decimal, push_decimal};

verus! {

/// The decisions of the commands on videos.
pub struct VideoService;

impl VideoService {
    /// What adding a video comes to, given what the store answered.
    pub fn add_video(name: &str, date: &str, outcome: Result<usize, DbFailure>) -> (r: Result<
        String,
        MenteeError,
    >)
        ensures
            match outcome {
                Ok(_) => r is Ok && r->Ok_0@ == "Video log with "@ + name@ + " on "@ + date@
                    + " added."@,
                Err(failure) => r is Err && r->Err_0.carries(
                    ErrorKind::Database,
                    failure.message@,
                ),
            },
    {
        match outcome {
            Ok(_) => {
                let mut done = String::from_str("Video log with ");
                done.append(name);
                done.append(" on ");
                done.append(date);
                done.append(" added.");
                Ok(done)
            },
            Err(failure) => Err(database_error(failure)),
        }
    }

    /// What looking a video up by id comes to: the video, or not-found with
    /// the id where the store had none to give.
    pub fn get_video_by_id(video_id: u32, found: Result<Video, DbFailure>) -> (r: Result<
        Video,
        MenteeError,
    >)
        ensures
            match found {
                Ok(video) => r == Ok::<Video, MenteeError>(video),
                Err(_) => r is Err && r->Err_0.carries(
                    ErrorKind::NotFound,
                    "Video with id of "@ + decimal(video_id as nat),
                ),
            },
    {
        match found {
            Ok(video) => Ok(video),
            Err(_) => {
                let mut what = String::from_str("Video with id of ");
                push_decimal(&mut what, video_id as u128);
                Err(MenteeError::NotFound(what))
            },
        }
    }

    /// What updating a video comes to, given what the store answered: the
    /// number of rows changed, in words.
    pub fn update_video(outcome: Result<usize, DbFailure>) -> (r: Result<String, MenteeError>)
        ensures
            match outcome {
                Ok(rows) => r is Ok && r->Ok_0@ == decimal(rows as nat)
                    + " video record updated"@,
                Err(failure) => r is Err && r->Err_0.carries(
                    ErrorKind::Database,
                    failure.message@,
                ),
            },
    {
        match outcome {
            Ok(rows) => {
                let mut done = String::new();
                push_decimal(&mut done, rows as u128);
                done.append(" video record updated");
                assert(done@ =~= decimal(rows as nat) + " video record updated"@);
                Ok(done)
            },
            Err(failure) => Err(database_error(failure)),
        }
    }

    /// What deleting a video comes to, given what the store answered:
    /// not-found with the id where no row was deleted.
    pub fn delete_video(video_id: u32, outcome: Result<usize, DbFailure>) -> (r: Result<
        String,
        MenteeError,
    >)
        ensures
            match outcome {
                Ok(rows) => if rows == 0 {
                    r is Err && r->Err_0.carries(
                        ErrorKind::NotFound,
                        "Video with Id "@ + decimal(video_id as nat),
                    )
                } else {
                    r is Ok && r->Ok_0@ == "Video with Id of "@ + decimal(video_id as nat)
                        + " deleted."@
                },
                Err(failure) => r is Err && r->Err_0.carries(
                    ErrorKind::Database,
                    failure.message@,
                ),
            },
    {
        match outcome {
            Ok(rows) => {
                if rows == 0 {
                    let mut what = String::from_str("Video with Id ");
                    push_decimal(&mut what, video_id as u128);
                    Err(MenteeError::NotFound(what))
                } else {
                    let mut done = String::from_str("Video with Id of ");
                    push_decimal(&mut done, video_id as u128);
                    done.append(" deleted.");
                    Ok(done)
                }
            },
            Err(failure) => Err(database_error(failure)),
        }
    }
}

} // verus!
