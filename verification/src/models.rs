//! The records that the ledger keeps: mentees, calls, videos and payments.

use vstd::prelude::*;
use crate::status::Status;

verus! {

/// A mentee as the listings show it: the agreed terms and, where they were
/// counted, the totals of what happened so far.
#[derive(Debug, Clone)]
pub struct Mentee {
    pub name: String,
    /// Calls agreed per month.
    pub calls: u32,
    pub gross: u32,
    pub net: u32,
    pub status: Status,
    /// Day of the month on which the mentee pays, 1 to 31.
    pub payment_day: u32,
    pub notes: String,
    pub call_count: Option<i64>,
    pub payment_count: Option<i64>,
    pub video_count: Option<i64>,
    pub remaining_calls: Option<i64>,
}

impl Mentee {
    /// The payment day is a day of a month.
    pub open spec fn well_formed(&self) -> bool {
        1 <= self.payment_day <= 31
    }

    /// A second record with the same content.
    pub fn duplicate(&self) -> (r: Mentee)
        ensures
            r == *self,
    {
        Mentee {
            name: self.name.clone(),
            calls: self.calls,
            gross: self.gross,
            net: self.net,
            status: self.status,
            payment_day: self.payment_day,
            notes: self.notes.clone(),
            call_count: self.call_count,
            payment_count: self.payment_count,
            video_count: self.video_count,
            remaining_calls: self.remaining_calls,
        }
    }
}

/// A mentee together with the totals of one look-up.
#[derive(Debug, Clone)]
pub struct MenteeWithCounts {
    pub mentee: Mentee,
    pub call_count: i64,
    pub payment_count: i64,
    pub video_count: i64,
    pub remaining_calls: i64,
}

/// A call as stored.
#[derive(Debug, Clone)]
pub struct Call {
    pub id: u32,
    pub mentee_id: i64,
    pub date: String,
    pub notes: Option<String>,
    /// A free call does not use up the quota.
    pub free_call: bool,
}

/// A call with the name of the mentee it was held with.
#[derive(Debug, Clone)]
pub struct CallWithMenteeName {
    pub id: u32,
    pub mentee_name: String,
    pub date: String,
    pub notes: Option<String>,
    pub free_call: bool,
}

/// A recorded video as stored.
#[derive(Debug, Clone)]
pub struct Video {
    pub id: i64,
    pub mentee_id: i64,
    pub date: String,
    /// Length in minutes.
    pub length: u32,
    pub notes: String,
}

/// A video with the name of the mentee it was recorded for.
#[derive(Debug, Clone)]
pub struct VideoWithMenteeName {
    pub id: i64,
    pub mentee_name: String,
    pub date: String,
    pub length: u32,
    pub notes: String,
}

/// A payment as stored.
#[derive(Debug, Clone)]
pub struct Payment {
    pub id: u32,
    pub mentee_id: u32,
    pub date: String,
    pub amount: u32,
}

/// A payment with the name of the mentee who made it.
#[derive(Debug, Clone)]
pub struct PaymentWithMenteeName {
    pub id: u32,
    pub mentee_name: String,
    pub date: String,
    pub amount: u32,
}

/// The fields of a mentee that an update may replace; `name` says which
/// mentee is meant, and an absent field stays as it is.
#[derive(Debug, Clone)]
pub struct UpdateMentee {
    pub name: String,
    pub new_name: Option<String>,
    pub calls: Option<i32>,
    pub status: Option<Status>,
    pub payment_day: Option<i32>,
    pub gross: Option<i32>,
    pub net: Option<i32>,
    pub notes: Option<String>,
}

/// What the count command adds up over the mentees that are not archived.
#[derive(Debug, Clone, Copy, PartialEq, Eq, Structural)]
pub enum CountOptions {
    Mentees,
    Calls,
    Gross,
    Net,
    NetPerCall,
}

/// Where the ledger is kept.
#[derive(Debug, Clone)]
pub struct Config {
    pub db_path: String,
}

} // verus!
