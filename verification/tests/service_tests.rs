use mentees::error::MenteeError;
use mentees::models::{Call, CountOptions, Mentee, MenteeWithCounts, Payment, UpdateMentee, Video};
use mentees::services::call_service::CallService;
use mentees::services::mentee_service::{
    check_update, count_message, database_error, mentee_not_found, new_mentee,
    nothing_to_update, require_mentee_id, selected_field, update_number, Lookup, MenteeService,
    UpdateField,
};
use mentees::services::payment_service::PaymentService;
use mentees::services::video_service::VideoService;
use mentees::status::Status;
use mentees::store::{DbFailure, UNIQUE_CONSTRAINT};

fn failure(code: Option<i32>, message: &str) -> DbFailure {
    DbFailure { extended_code: code, message: message.to_string() }
}

fn mentee(name: &str, status: Status, calls: u32, net: u32) -> Mentee {
    Mentee {
        name: name.to_string(),
        calls,
        gross: net,
        net,
        status,
        payment_day: 1,
        notes: String::new(),
        call_count: None,
        payment_count: None,
        video_count: None,
        remaining_calls: None,
    }
}

fn update(name: &str) -> UpdateMentee {
    UpdateMentee {
        name: name.to_string(),
        new_name: None,
        calls: None,
        status: None,
        payment_day: None,
        gross: None,
        net: None,
        notes: None,
    }
}

fn text(r: Result<String, MenteeError>) -> Result<String, String> {
    r.map_err(|e| e.message())
}

#[test]
fn new_mentee_lowers_the_name() {
    let m = new_mentee("Dan PAGE", 4, 1000, 900, Status::Hot, 15, "notes".to_string()).unwrap();
    assert_eq!(m.name, "dan page");
    assert_eq!((m.calls, m.gross, m.net, m.payment_day), (4, 1000, 900, 15));
    assert_eq!(m.status, Status::Hot);
    assert_eq!(m.notes, "notes");
    assert_eq!(
        (m.call_count, m.payment_count, m.video_count, m.remaining_calls),
        (None, None, None, None)
    );
}

#[test]
fn new_mentee_refuses_a_bad_name_or_day() {
    let blank = new_mentee("  ", 1, 1, 1, Status::Warm, 1, String::new()).unwrap_err();
    assert!(matches!(&blank, MenteeError::ValidationError(m) if m == "Name cannot be empty or just whitespace."));
    let digits = new_mentee("d4n", 1, 1, 1, Status::Warm, 1, String::new()).unwrap_err();
    assert!(matches!(&digits, MenteeError::ValidationError(m) if m == "Name can only contain letters and spaces."));
    let day = new_mentee("dan", 1, 1, 1, Status::Warm, 32, String::new()).unwrap_err();
    assert!(matches!(&day, MenteeError::ValidationError(m) if m == "The day must be between 1 and 31."));
    let zero = new_mentee("dan", 1, 1, 1, Status::Warm, 0, String::new()).unwrap_err();
    assert_eq!(zero.message(), "Invalid input: The day must be between 1 and 31.");
    let both = new_mentee("d#n", 1, 1, 1, Status::Warm, 99, String::new()).unwrap_err();
    assert_eq!(both.message(), "Invalid input: Name can only contain letters and spaces.");
}

#[test]
fn adding_a_mentee_twice_is_a_uniqueness_failure() {
    let taken = failure(Some(UNIQUE_CONSTRAINT), "UNIQUE constraint failed: mentees.name");
    let r = MenteeService::add_mentee("dan".to_string(), Err(taken));
    assert!(matches!(&r, Err(MenteeError::UniqueViolation(n)) if n == "dan"));
    assert_eq!(text(r), Err("Mentee with name 'dan' already exists.".to_string()));
}

#[test]
fn adding_a_mentee_reports_the_name_or_the_failure() {
    assert_eq!(
        text(MenteeService::add_mentee("dan".to_string(), Ok(1))),
        Ok("dan".to_string())
    );
    let other = failure(Some(1299), "NOT NULL constraint failed");
    assert_eq!(
        text(MenteeService::add_mentee("dan".to_string(), Err(other))),
        Err("Database error: NOT NULL constraint failed".to_string())
    );
    let no_code = failure(None, "closed");
    let r = MenteeService::add_mentee("dan".to_string(), Err(no_code));
    assert!(matches!(r, Err(MenteeError::DatabaseError(m)) if m == "closed"));
}

#[test]
fn updating_an_unknown_mentee_is_not_found() {
    let mut args = update("nobody");
    args.calls = Some(3);
    let r = MenteeService::update_mentee(&args, Ok(0));
    assert!(matches!(&r, Err(MenteeError::NotFound(n)) if n == "nobody"));
    assert_eq!(text(r), Err("nobody not found".to_string()));
}

#[test]
fn updating_confirms_under_the_new_name() {
    let mut args = update("dan");
    args.calls = Some(3);
    assert_eq!(
        text(MenteeService::update_mentee(&args, Ok(1))),
        Ok("dan was updated".to_string())
    );
    args.new_name = Some("daniel".to_string());
    assert_eq!(
        text(MenteeService::update_mentee(&args, Ok(1))),
        Ok("daniel was updated".to_string())
    );
    assert_eq!(
        text(MenteeService::update_mentee(&args, Err(failure(None, "locked")))),
        Err("Database error: locked".to_string())
    );
}

#[test]
fn an_update_must_name_a_field() {
    let r = check_update(&update("dan"));
    assert!(matches!(&r, Err(MenteeError::InvalidInput(m)) if m == "At least one field must be updated."));
    let mut args = update("dan");
    args.notes = Some(String::new());
    assert!(check_update(&args).is_ok());
}

#[test]
fn looking_a_mentee_up() {
    let found = MenteeWithCounts {
        mentee: mentee("dan", Status::Hot, 4, 100),
        call_count: 1,
        payment_count: 2,
        video_count: 3,
        remaining_calls: 7,
    };
    let r = MenteeService::get_mentee_with_counts("dan", Ok(found)).unwrap();
    assert_eq!(r.mentee.name, "dan");
    assert_eq!((r.call_count, r.payment_count, r.video_count, r.remaining_calls), (1, 2, 3, 7));
    let r = MenteeService::get_mentee_with_counts("dan", Err(failure(None, "no rows")));
    assert!(matches!(&r, Err(MenteeError::NotFound(m)) if m == "Mentee with name dan"));
}

#[test]
fn a_missing_mentee_is_named_in_the_words_of_the_command() {
    assert_eq!(require_mentee_id("dan", Some(5), Lookup::General).unwrap(), 5);
    let e = require_mentee_id("dan", None, Lookup::General).unwrap_err();
    assert!(matches!(&e, MenteeError::NotFound(m) if m == "No mentee found with name 'dan'"));
    let e = require_mentee_id("dan", None, Lookup::AddPayment).unwrap_err();
    assert!(matches!(&e, MenteeError::NotFound(m) if m == "Mentee with name dan"));
    let e = require_mentee_id("dan", None, Lookup::AddVideo).unwrap_err();
    assert!(matches!(&e, MenteeError::NotFound(m) if m == "No mentee with name 'dan'"));
    assert_eq!(e.message(), "No mentee with name 'dan' not found");
}

#[test]
fn an_update_without_fields_is_refused_whatever_the_store_answered() {
    let args = update("dan");
    for outcome in [Ok(0), Ok(1), Ok(7), Err(failure(None, "locked"))] {
        let r = MenteeService::update_mentee(&args, outcome);
        assert!(
            matches!(&r, Err(MenteeError::InvalidInput(m)) if m == "At least one field must be updated.")
        );
    }
    let r = MenteeService::update_request(&args);
    assert!(
        matches!(&r, Err(MenteeError::InvalidInput(m)) if m == "At least one field must be updated.")
    );
    assert_eq!(
        nothing_to_update().message(),
        "Invalid input: At least one field must be updated."
    );
}

#[test]
fn an_update_with_a_field_is_sent() {
    let mut args = update("dan");
    args.net = Some(70);
    let statement = MenteeService::update_request(&args).unwrap();
    assert_eq!(statement.sql, "UPDATE mentees SET net = ? WHERE name = ?");
    assert_eq!(statement.params.len(), 2);
}

#[test]
fn deleting_an_unknown_mentee_is_not_found() {
    let r = MenteeService::delete_mentee("dan", Ok(0));
    assert!(matches!(&r, Err(MenteeError::NotFound(m)) if m == "No mentee found with name 'dan'"));
    let e = mentee_not_found("dan", Lookup::General);
    assert_eq!(e.message(), "No mentee found with name 'dan' not found");
}

#[test]
fn a_typed_number_must_fit_an_update() {
    assert_eq!(update_number(0).unwrap(), 0);
    assert_eq!(update_number(31).unwrap(), 31);
    assert_eq!(update_number(i32::MAX as u32).unwrap(), i32::MAX);
    let e = update_number(i32::MAX as u32 + 1).unwrap_err();
    assert!(matches!(&e, MenteeError::InvalidInput(m) if m == "The number is too large."));
    assert!(update_number(u32::MAX).is_err());
}

#[test]
fn deleting_a_mentee() {
    assert_eq!(
        text(MenteeService::delete_mentee("dan", Ok(3))),
        Ok("Deleted mentee dan".to_string())
    );
    assert_eq!(
        text(MenteeService::delete_mentee("dan", Ok(1))),
        Ok("Deleted mentee dan".to_string())
    );
    assert_eq!(
        text(MenteeService::delete_mentee("dan", Err(failure(None, "busy")))),
        Err("Database error: busy".to_string())
    );
}

#[test]
fn counting_mentees() {
    let all = vec![
        mentee("a", Status::Hot, 2, 100),
        mentee("b", Status::Archived, 9, 900),
        mentee("c", Status::Cold, 0, 50),
    ];
    assert_eq!(text(MenteeService::get_mentee_count(&all, None)), Ok("Number of mentees: 2".to_string()));
    assert_eq!(
        text(MenteeService::get_mentee_count(&all, Some(CountOptions::Mentees))),
        Ok("Number of mentees: 2".to_string())
    );
    assert_eq!(
        text(MenteeService::get_mentee_count(&all, Some(CountOptions::Calls))),
        Ok("Number of calls: 2".to_string())
    );
    assert_eq!(
        text(MenteeService::get_mentee_count(&all, Some(CountOptions::Gross))),
        Ok("Gross $150".to_string())
    );
    assert_eq!(
        text(MenteeService::get_mentee_count(&all, Some(CountOptions::Net))),
        Ok("Net $150".to_string())
    );
    assert_eq!(
        text(MenteeService::get_mentee_count(&all, Some(CountOptions::NetPerCall))),
        Ok("Average net amount per call $50".to_string())
    );
    let r = MenteeService::get_mentee_count(&Vec::new(), Some(CountOptions::NetPerCall));
    assert!(matches!(&r, Err(MenteeError::NotFound(m)) if m == "Active mentee"));
    assert_eq!(count_message(None, 0), "Number of mentees: 0");
    assert_eq!(
        count_message(Some(CountOptions::Gross), u128::MAX),
        format!("Gross ${}", u128::MAX)
    );
}

#[test]
fn the_overview_is_the_listing() {
    let all = vec![
        mentee("c", Status::Cold, 0, 0),
        mentee("x", Status::Archived, 0, 0),
        mentee("h", Status::Hot, 0, 0),
    ];
    let names = |ms: Vec<Mentee>| ms.into_iter().map(|m| m.name).collect::<Vec<String>>();
    assert_eq!(names(MenteeService::get_mentees_summaries(&all, false)), vec!["h", "c"]);
    assert_eq!(names(MenteeService::get_mentees_summaries(&all, true)), vec!["h", "c", "x"]);
}

#[test]
fn the_guided_update_knows_its_options() {
    for f in [
        UpdateField::Name,
        UpdateField::Calls,
        UpdateField::Gross,
        UpdateField::Net,
        UpdateField::Status,
        UpdateField::PaymentDay,
        UpdateField::Notes,
    ] {
        assert_eq!(selected_field(f.option()).unwrap(), f);
    }
    assert_eq!(UpdateField::Notes.option(), "Notes");
    assert_eq!(UpdateField::Gross.option(), "Gross amount");
    assert_eq!(UpdateField::PaymentDay.option(), "Payment Day");
    let e = selected_field("Address").unwrap_err();
    assert!(matches!(&e, MenteeError::InvalidInput(m) if m == "Invalid select option"));
    assert!(selected_field("notes").is_err());
    assert!(selected_field("name").is_err());
    assert!(selected_field("").is_err());
}

#[test]
fn a_store_failure_keeps_its_text() {
    let e = database_error(failure(Some(5), "database is locked"));
    assert!(matches!(&e, MenteeError::DatabaseError(m) if m == "database is locked"));
}

#[test]
fn calls_are_confirmed_or_refused() {
    assert_eq!(
        text(CallService::add_call("dan", "2024-03-09", Ok(1))),
        Ok("Call with dan on 2024-03-09 added.".to_string())
    );
    assert_eq!(
        text(CallService::add_call("dan", "2024-03-09", Err(failure(None, "full")))),
        Err("Database error: full".to_string())
    );
    assert_eq!(text(CallService::update_call(Ok(1))), Ok("1 call record updated".to_string()));
    assert_eq!(text(CallService::update_call(Ok(0))), Ok("0 call record updated".to_string()));
    assert_eq!(
        text(CallService::update_call(Err(failure(None, "full")))),
        Err("Database error: full".to_string())
    );
    assert_eq!(CallService::delete_call(12, Ok(1)), Ok("Deleted call 12".to_string()));
    assert_eq!(
        CallService::delete_call(12, Ok(0)),
        Err("Call with ID 12 not found.".to_string())
    );
    assert_eq!(
        CallService::delete_call(12, Err(failure(None, "full"))),
        Err("Database error: full".to_string())
    );
}

#[test]
fn a_call_is_found_or_not() {
    let call = Call {
        id: 3,
        mentee_id: 1,
        date: "2024-03-09".to_string(),
        notes: None,
        free_call: true,
    };
    let found = CallService::get_call_by_id(3, Ok(call)).unwrap();
    assert_eq!((found.id, found.mentee_id, found.free_call), (3, 1, true));
    let missing = CallService::get_call_by_id(3, Err(failure(None, "no rows")));
    assert!(matches!(&missing, Err(MenteeError::NotFound(m)) if m == "Can't find a call with id of 3"));
}

#[test]
fn payments_are_confirmed_or_refused() {
    assert_eq!(
        text(PaymentService::add_payment("dan", 250, Ok(1))),
        Ok("Payment of 250 added for dan".to_string())
    );
    assert_eq!(
        text(PaymentService::add_payment("dan", 250, Err(failure(None, "full")))),
        Err("Database error: full".to_string())
    );
    assert_eq!(
        text(PaymentService::update_payment(300, "2024-03-09", Ok(1))),
        Ok("Payment updated to 300 on 2024-03-09".to_string())
    );
    assert_eq!(
        text(PaymentService::update_payment(300, "2024-03-09", Err(failure(None, "full")))),
        Err("Database error: full".to_string())
    );
    assert_eq!(
        text(PaymentService::delete_payment(4, Ok(1))),
        Ok("Payment with id 4 deleted".to_string())
    );
    let r = PaymentService::delete_payment(4, Ok(0));
    assert!(matches!(&r, Err(MenteeError::NotFound(m)) if m == "Payment with id 4"));
    assert_eq!(
        text(PaymentService::delete_payment(4, Err(failure(None, "full")))),
        Err("Database error: full".to_string())
    );
}

#[test]
fn a_payment_is_found_or_not() {
    let payment = Payment { id: 4, mentee_id: 1, date: "2024-03-09".to_string(), amount: 10 };
    let found = PaymentService::get_payment_by_id(4, Ok(payment)).unwrap();
    assert_eq!((found.id, found.amount), (4, 10));
    let missing = PaymentService::get_payment_by_id(4, Err(failure(None, "no rows")));
    assert!(matches!(&missing, Err(MenteeError::NotFound(m)) if m == "Payment with id 4"));
}

#[test]
fn videos_are_confirmed_or_refused() {
    assert_eq!(
        text(VideoService::add_video("dan", "2024-03-09", Ok(1))),
        Ok("Video log with dan on 2024-03-09 added.".to_string())
    );
    assert_eq!(
        text(VideoService::add_video("dan", "2024-03-09", Err(failure(None, "full")))),
        Err("Database error: full".to_string())
    );
    assert_eq!(text(VideoService::update_video(Ok(1))), Ok("1 video record updated".to_string()));
    assert_eq!(
        text(VideoService::update_video(Err(failure(None, "full")))),
        Err("Database error: full".to_string())
    );
    assert_eq!(
        text(VideoService::delete_video(9, Ok(2))),
        Ok("Video with Id of 9 deleted.".to_string())
    );
    let r = VideoService::delete_video(9, Ok(0));
    assert!(matches!(&r, Err(MenteeError::NotFound(m)) if m == "Video with Id 9"));
    assert_eq!(
        text(VideoService::delete_video(9, Err(failure(None, "full")))),
        Err("Database error: full".to_string())
    );
}

#[test]
fn a_video_is_found_or_not() {
    let video = Video {
        id: 9,
        mentee_id: 1,
        date: "2024-03-09".to_string(),
        length: 30,
        notes: String::new(),
    };
    let found = VideoService::get_video_by_id(9, Ok(video)).unwrap();
    assert_eq!((found.id, found.length), (9, 30));
    let missing = VideoService::get_video_by_id(9, Err(failure(None, "no rows")));
    assert!(matches!(&missing, Err(MenteeError::NotFound(m)) if m == "Video with id of 9"));
}
