//! Adding, finding, updating, deleting and counting mentees.

use vstd::prelude::*;
use vstd::string::*;
use crate::error::{ErrorKind, MenteeError};
use crate::ledger::{count_result, count_value, list_mentees, listing};
use crate::models::{CountOptions, Mentee, MenteeWithCounts, UpdateMentee};
use crate::statements::{
    any_change, changes, has_changes, new_values, update_sql, update_statement,
};
use crate::status::Status;
use crate::store::{terms, DbFailure, SqlTerm, Statement, UNIQUE_CONSTRAINT};
use crate::text::{decimal, lowercase_of, push_decimal, same_text, to_lowercase};
use crate::validation::{
    is_valid_day, is_valid_name, name_complaint, validate_day_core, validate_name_core,
};

verus! {

/// The failure that reports what the store reported.
pub fn database_error(failure: DbFailure) -> (r: MenteeError)
    ensures
        r.carries(ErrorKind::Database, failure.message@),
{
    MenteeError::DatabaseError(failure.message)
}

/// The record of a new mentee: the name in lower case, the terms as given,
/// and nothing counted yet. A text that is no name, or a payment day that is
/// no day of a month, is refused with the validator's words; the name is
/// looked at first.
pub fn new_mentee(
    name: &str,
    calls: u32,
    gross: u32,
    net: u32,
    status: Status,
    payment_day: u32,
    notes: String,
) -> (r: Result<Mentee, MenteeError>)
    ensures
        r is Ok <==> is_valid_name(name@) && is_valid_day(payment_day as int),
        match r {
            Ok(m) => {
                &&& m.name@ == lowercase_of(name@)
                &&& m.calls == calls
                &&& m.gross == gross
                &&& m.net == net
                &&& m.status == status
                &&& m.payment_day == payment_day
                &&& m.notes == notes
                &&& m.call_count is None
                &&& m.payment_count is None
                &&& m.video_count is None
                &&& m.remaining_calls is None
                &&& m.well_formed()
            },
            Err(e) => e.carries(
                ErrorKind::Validation,
                match name_complaint(name@) {
                    Some(complaint) => complaint,
                    None => "The day must be between 1 and 31."@,
                },
            ),
        },
{
    match validate_name_core(name) {
        Err(complaint) => Err(MenteeError::ValidationError(complaint)),
        Ok(()) => match validate_day_core(&payment_day) {
            Err(complaint) => Err(MenteeError::ValidationError(complaint)),
            Ok(()) => Ok(
                Mentee {
                    name: to_lowercase(name),
                    calls,
                    gross,
                    net,
                    status,
                    payment_day,
                    notes,
                    call_count: None,
                    payment_count: None,
                    video_count: None,
                    remaining_calls: None,
                },
            ),
        },
    }
}

/// The command on whose behalf a mentee is looked up by name.
#[derive(Debug, Clone, Copy, PartialEq, Eq, Structural)]
pub enum Lookup {
    /// Deleting the mentee, adding a call, or listing calls, videos or
    /// payments.
    General,
    AddPayment,
    AddVideo,
}

/// What is reported as not found where no mentee has the name.
pub open spec fn missing_mentee(name: Seq<char>, lookup: Lookup) -> Seq<char> {
    match lookup {
        Lookup::General => "No mentee found with name '"@ + name + "'"@,
        Lookup::AddPayment => "Mentee with name "@ + name,
        Lookup::AddVideo => "No mentee with name '"@ + name + "'"@,
    }
}

/// The failure that reports that no mentee has the name.
pub fn mentee_not_found(name: &str, lookup: Lookup) -> (r: MenteeError)
    ensures
        r.carries(ErrorKind::NotFound, missing_mentee(name@, lookup)),
{
    let what = match lookup {
        Lookup::General => {
            let mut w = String::from_str("No mentee found with name '");
            w.append(name);
            w.append("'");
            w
        },
        Lookup::AddPayment => {
            let mut w = String::from_str("Mentee with name ");
            w.append(name);
            w
        },
        Lookup::AddVideo => {
            let mut w = String::from_str("No mentee with name '");
            w.append(name);
            w.append("'");
            w
        },
    };
    MenteeError::NotFound(what)
}

/// The id of the mentee with the given name, or not-found where the store
/// knew no such mentee.
pub fn require_mentee_id(name: &str, id: Option<i64>, lookup: Lookup) -> (r: Result<
    i64,
    MenteeError,
>)
    ensures
        match id {
            Some(found) => r == Ok::<i64, MenteeError>(found),
            None => r is Err && r->Err_0.carries(
                ErrorKind::NotFound,
                missing_mentee(name@, lookup),
            ),
        },
{
    match id {
        Some(found) => Ok(found),
        None => Err(mentee_not_found(name, lookup)),
    }
}

/// The words before a counted figure.
pub open spec fn count_label(what: Option<CountOptions>) -> Seq<char> {
    match what {
        Some(CountOptions::Calls) => "Number of calls: "@,
        Some(CountOptions::Gross) => "Gross $"@,
        Some(CountOptions::Net) => "Net $"@,
        Some(CountOptions::NetPerCall) => "Average net amount per call $"@,
        _ => "Number of mentees: "@,
    }
}

/// The line that reports a counted figure.
pub fn count_message(what: Option<CountOptions>, value: u128) -> (r: String)
    ensures
        r@ == count_label(what) + decimal(value as nat),
{
    let label: &str = match what {
        Some(CountOptions::Calls) => "Number of calls: ",
        Some(CountOptions::Gross) => "Gross $",
        Some(CountOptions::Net) => "Net $",
        Some(CountOptions::NetPerCall) => "Average net amount per call $",
        _ => "Number of mentees: ",
    };
    let mut r = String::from_str(label);
    push_decimal(&mut r, value);
    r
}

/// The refusal of an update that names no field.
pub fn nothing_to_update() -> (r: MenteeError)
    ensures
        r.carries(ErrorKind::InvalidInput, "At least one field must be updated."@),
{
    MenteeError::InvalidInput(String::from_str("At least one field must be updated."))
}

/// Refuses an update that names no field to change.
pub fn check_update(args: &UpdateMentee) -> (r: Result<(), MenteeError>)
    ensures
        r is Ok <==> has_changes(*args),
        r is Err ==> r->Err_0.carries(
            ErrorKind::InvalidInput,
            "At least one field must be updated."@,
        ),
{
    if any_change(args) {
        Ok(())
    } else {
        Err(nothing_to_update())
    }
}

/// The name under which a mentee goes after an update.
pub open spec fn name_after(args: UpdateMentee) -> Seq<char> {
    match args.new_name {
        Some(n) => n@,
        None => args.name@,
    }
}

/// A number that the user typed, as an update carries it: unchanged where it
/// fits in 31 bits, and refused as invalid input where it does not.
pub fn update_number(value: u32) -> (r: Result<i32, MenteeError>)
    ensures
        r is Ok <==> value <= i32::MAX,
        match r {
            Ok(n) => n == value,
            Err(e) => e.carries(ErrorKind::InvalidInput, "The number is too large."@),
        },
{
    if value <= 0x7FFF_FFFF {
        Ok(value as i32)
    } else {
        Err(MenteeError::InvalidInput(String::from_str("The number is too large.")))
    }
}

/// A field of a mentee that the guided update can change.
#[derive(Debug, Clone, Copy, PartialEq, Eq, Structural)]
pub enum UpdateField {
    Name,
    Calls,
    Gross,
    Net,
    Status,
    PaymentDay,
    Notes,
}

impl UpdateField {
    /// The words under which the field is offered for selection.
    pub open spec fn option_text(self) -> Seq<char> {
        match self {
            UpdateField::Name => "Name"@,
            UpdateField::Calls => "Calls"@,
            UpdateField::Gross => "Gross amount"@,
            UpdateField::Net => "Net amount"@,
            UpdateField::Status => "Status"@,
            UpdateField::PaymentDay => "Payment Day"@,
            UpdateField::Notes => "Notes"@,
        }
    }

    /// The words under which the field is offered for selection.
    pub fn option(self) -> (r: &'static str)
        ensures
            r@ == self.option_text(),
    {
        match self {
            UpdateField::Name => "Name",
            UpdateField::Calls => "Calls",
            UpdateField::Gross => "Gross amount",
            UpdateField::Net => "Net amount",
            UpdateField::Status => "Status",
            UpdateField::PaymentDay => "Payment Day",
            UpdateField::Notes => "Notes",
        }
    }
}

/// The field that a selected option stands for, if any.
pub open spec fn field_of_option(selected: Seq<char>) -> Option<UpdateField> {
    if selected == "Name"@ {
        Some(UpdateField::Name)
    } else if selected == "Calls"@ {
        Some(UpdateField::Calls)
    } else if selected == "Gross amount"@ {
        Some(UpdateField::Gross)
    } else if selected == "Net amount"@ {
        Some(UpdateField::Net)
    } else if selected == "Status"@ {
        Some(UpdateField::Status)
    } else if selected == "Payment Day"@ {
        Some(UpdateField::PaymentDay)
    } else if selected == "Notes"@ {
        Some(UpdateField::Notes)
    } else {
        None
    }
}

/// The field that the user selected for the guided update; any other text
/// is refused as invalid input.
pub fn selected_field(selected: &str) -> (r: Result<UpdateField, MenteeError>)
    ensures
        match field_of_option(selected@) {
            Some(f) => r == Ok::<UpdateField, MenteeError>(f),
            None => r is Err && r->Err_0.carries(
                ErrorKind::InvalidInput,
                "Invalid select option"@,
            ),
        },
{
    if same_text(selected, "Name") {
        Ok(UpdateField::Name)
    } else if same_text(selected, "Calls") {
        Ok(UpdateField::Calls)
    } else if same_text(selected, "Gross amount") {
        Ok(UpdateField::Gross)
    } else if same_text(selected, "Net amount") {
        Ok(UpdateField::Net)
    } else if same_text(selected, "Status") {
        Ok(UpdateField::Status)
    } else if same_text(selected, "Payment Day") {
        Ok(UpdateField::PaymentDay)
    } else if same_text(selected, "Notes") {
        Ok(UpdateField::Notes)
    } else {
        Err(MenteeError::InvalidInput(String::from_str("Invalid select option")))
    }
}

/// The decisions of the commands on mentees. The store and the prompt are
/// asked elsewhere; each function here takes what they answered.
pub struct MenteeService;

impl MenteeService {
    /// What adding a mentee comes to, given what the store answered to the
    /// insertion: the name where the row went in; a uniqueness failure that
    /// names the mentee where the store found the name taken; else the store's
    /// own failure.
    pub fn add_mentee(name: String, outcome: Result<usize, DbFailure>) -> (r: Result<
        String,
        MenteeError,
    >)
        ensures
            match outcome {
                Ok(_) => r == Ok::<String, MenteeError>(name),
                Err(failure) => r is Err && if failure.is_unique_violation() {
                    r->Err_0.carries(ErrorKind::UniqueViolation, name@)
                } else {
                    r->Err_0.carries(ErrorKind::Database, failure.message@)
                },
            },
    {
        match outcome {
            Ok(_) => Ok(name),
            Err(failure) => {
                let taken = match failure.extended_code {
                    Some(code) => code == UNIQUE_CONSTRAINT,
                    None => false,
                };
                if taken {
                    Err(MenteeError::UniqueViolation(name))
                } else {
                    Err(database_error(failure))
                }
            },
        }
    }

    /// What looking a mentee up by name comes to: the record, or not-found with
    /// the name where the store had none to give.
    pub fn get_mentee_with_counts(name: &str, found: Result<MenteeWithCounts, DbFailure>) -> (r: Result<
        MenteeWithCounts,
        MenteeError,
    >)
        ensures
            match found {
                Ok(m) => r == Ok::<MenteeWithCounts, MenteeError>(m),
                Err(_) => r is Err && r->Err_0.carries(
                    ErrorKind::NotFound,
                    "Mentee with name "@ + name@,
                ),
            },
    {
        match found {
            Ok(m) => Ok(m),
            Err(_) => {
                let mut what = String::from_str("Mentee with name ");
                what.append(name);
                Err(MenteeError::NotFound(what))
            },
        }
    }

    /// What deleting a mentee comes to, given what the store answered:
    /// not-found with the name where no row was deleted, else the
    /// confirmation. The store deletes the calls, videos and payments of the
    /// mentee with it, as the definitions of their tables say.
    pub fn delete_mentee(name: &str, outcome: Result<usize, DbFailure>) -> (r: Result<
        String,
        MenteeError,
    >)
        ensures
            match outcome {
                Ok(rows) => if rows == 0 {
                    r is Err && r->Err_0.carries(
                        ErrorKind::NotFound,
                        missing_mentee(name@, Lookup::General),
                    )
                } else {
                    r is Ok && r->Ok_0@ == "Deleted mentee "@ + name@
                },
                Err(failure) => r is Err && r->Err_0.carries(ErrorKind::Database, failure.message@),
            },
    {
        match outcome {
            Ok(rows) => {
                if rows == 0 {
                    Err(mentee_not_found(name, Lookup::General))
                } else {
                    let mut done = String::from_str("Deleted mentee ");
                    done.append(name);
                    Ok(done)
                }
            },
            Err(failure) => Err(database_error(failure)),
        }
    }

    /// The line that the count command prints for the mentees given, or
    /// not-found where an average is asked for and no mentee is active.
    pub fn get_mentee_count(all: &Vec<Mentee>, what: Option<CountOptions>) -> (r: Result<
        String,
        MenteeError,
    >)
        ensures
            match count_result(all@, what) {
                Some(value) => r is Ok && r->Ok_0@ == count_label(what) + decimal(value),
                None => r is Err && r->Err_0.carries(ErrorKind::NotFound, "Active mentee"@),
            },
    {
        match count_value(all, what) {
            Some(value) => Ok(count_message(what, value)),
            None => Err(MenteeError::NotFound(String::from_str("Active mentee"))),
        }
    }

    /// The statement that an update sends to the store. An update that names
    /// no field is refused as invalid input, and nothing is sent.
    pub fn update_request(args: &UpdateMentee) -> (r: Result<Statement, MenteeError>)
        ensures
            r is Ok <==> has_changes(*args),
            match r {
                Ok(statement) => {
                    &&& statement.sql@ == update_sql(changes(*args))
                    &&& terms(statement.params@) == new_values(changes(*args)).push(
                        SqlTerm::Text(args.name@),
                    )
                },
                Err(e) => e.carries(
                    ErrorKind::InvalidInput,
                    "At least one field must be updated."@,
                ),
            },
    {
        match update_statement(args) {
            Some(statement) => Ok(statement),
            None => Err(nothing_to_update()),
        }
    }

    /// What an update comes to. One that names no field is refused as
    /// invalid input, whatever the store answered. For any other, given what
    /// the store answered: not-found with the name where no row was changed,
    /// else the confirmation under the name that the mentee now has.
    pub fn update_mentee(args: &UpdateMentee, outcome: Result<usize, DbFailure>) -> (r: Result<
        String,
        MenteeError,
    >)
        ensures
            !has_changes(*args) ==> r is Err && r->Err_0.carries(
                ErrorKind::InvalidInput,
                "At least one field must be updated."@,
            ),
            has_changes(*args) ==> match outcome {
                Ok(rows) => if rows == 0 {
                    r is Err && r->Err_0.carries(ErrorKind::NotFound, args.name@)
                } else {
                    r is Ok && r->Ok_0@ == name_after(*args) + " was updated"@
                },
                Err(failure) => r is Err && r->Err_0.carries(ErrorKind::Database, failure.message@),
            },
    {
        if !any_change(args) {
            return Err(nothing_to_update());
        }
        match outcome {
            Ok(rows) => {
                if rows == 0 {
                    Err(MenteeError::NotFound(args.name.clone()))
                } else {
                    let mut done = match &args.new_name {
                        Some(n) => n.clone(),
                        None => args.name.clone(),
                    };
                    done.append(" was updated");
                    Ok(done)
                }
            },
            Err(failure) => Err(database_error(failure)),
        }
    }

    /// The mentees that the overview shows, in its order: hot first, and the
    /// archived ones last and only on request.
    pub fn get_mentees_summaries(all: &Vec<Mentee>, show_all: bool) -> (r: Vec<Mentee>)
        ensures
            r@ == listing(all@, show_all),
    {
        list_mentees(all, show_all)
    }
}

} // verus!
