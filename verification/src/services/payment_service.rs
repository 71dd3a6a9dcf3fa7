//! Adding, finding, updating and deleting payments.

use vstd::prelude::*;
use vstd::string::*;
use crate::error::{ErrorKind, MenteeError};
use crate::models::Payment;
use crate::services::mentee_service::database_error;
use crate::store::DbFailure;
use crate::text::{decimal, push_decimal};

verus! {

/// The decisions of the commands on payments.
pub struct PaymentService;

impl PaymentService {
    /// What adding a payment comes to, given what the store answered.
    pub fn add_payment(name: &str, amount: u32, outcome: Result<usize, DbFailure>) -> (r: Result<
        String,
        MenteeError,
    >)
        ensures
            match outcome {
                Ok(_) => r is Ok && r->Ok_0@ == "Payment of "@ + decimal(amount as nat)
                    + " added for "@ + name@,
                Err(failure) => r is Err && r->Err_0.carries(
                    ErrorKind::Database,
                    failure.message@,
                ),
            },
    {
        match outcome {
            Ok(_) => {
                let mut done = String::from_str("Payment of ");
                push_decimal(&mut done, amount as u128);
                done.append(" added for ");
                done.append(name);
                Ok(done)
            },
            Err(failure) => Err(database_error(failure)),
        }
    }

    /// What looking a payment up by id comes to: the payment, or not-found
    /// with the id where the store had none to give.
    pub fn get_payment_by_id(payment_id: u32, found: Result<Payment, DbFailure>) -> (r: Result<
        Payment,
        MenteeError,
    >)
        ensures
            match found {
                Ok(payment) => r == Ok::<Payment, MenteeError>(payment),
                Err(_) => r is Err && r->Err_0.carries(
                    ErrorKind::NotFound,
                    "Payment with id "@ + decimal(payment_id as nat),
                ),
            },
    {
        match found {
            Ok(payment) => Ok(payment),
            Err(_) => {
                let mut what = String::from_str("Payment with id ");
                push_decimal(&mut what, payment_id as u128);
                Err(MenteeError::NotFound(what))
            },
        }
    }

    /// What updating a payment comes to, given what the store answered.
    pub fn update_payment(amount: u32, date: &str, outcome: Result<usize, DbFailure>) -> (r:
        Result<String, MenteeError>)
        ensures
            match outcome {
                Ok(_) => r is Ok && r->Ok_0@ == "Payment updated to "@ + decimal(amount as nat)
                    + " on "@ + date@,
                Err(failure) => r is Err && r->Err_0.carries(
                    ErrorKind::Database,
                    failure.message@,
                ),
            },
    {
        match outcome {
            Ok(_) => {
                let mut done = String::from_str("Payment updated to ");
                push_decimal(&mut done, amount as u128);
                done.append(" on ");
                done.append(date);
                Ok(done)
            },
            Err(failure) => Err(database_error(failure)),
        }
    }

    /// What deleting a payment comes to, given what the store answered:
    /// not-found with the id where no row was deleted.
    pub fn delete_payment(payment_id: u32, outcome: Result<usize, DbFailure>) -> (r: Result<
        String,
        MenteeError,
    >)
        ensures
            match outcome {
                Ok(rows) => if rows == 0 {
                    r is Err && r->Err_0.carries(
                        ErrorKind::NotFound,
                        "Payment with id "@ + decimal(payment_id as nat),
                    )
                } else {
                    r is Ok && r->Ok_0@ == "Payment with id "@ + decimal(payment_id as nat)
                        + " deleted"@
                },
                Err(failure) => r is Err && r->Err_0.carries(
                    ErrorKind::Database,
                    failure.message@,
                ),
            },
    {
        match outcome {
            Ok(rows) => {
                let mut text = String::from_str("Payment with id ");
                push_decimal(&mut text, payment_id as u128);
                if rows == 0 {
                    Err(MenteeError::NotFound(text))
                } else {
                    text.append(" deleted");
                    Ok(text)
                }
            },
            Err(failure) => Err(database_error(failure)),
        }
    }
}

} // verus!
