use mentees::error::{ErrorKind, MenteeError};

#[test]
fn test_database_error_display() {
    let db_err = rusqlite::Error::InvalidQuery;
    let mentee_error = MenteeError::DatabaseError(db_err.to_string());
    assert_eq!(
        mentee_error.message(),
        "Database error: Query is not read-only"
    );
}

#[test]
fn test_io_error_display() {
    let io_err = std::io::Error::new(std::io::ErrorKind::NotFound, "file not found");
    let mentee_error = MenteeError::IOError(io_err.to_string());
    assert_eq!(mentee_error.message(), "IO error: file not found");
}

#[test]
fn test_inquire_error_display() {
    let inquire_err = inquire::InquireError::Custom("custom error".to_string().into());
    let mentee_error = MenteeError::InquireError(inquire_err.to_string());
    assert_eq!(
        mentee_error.message(),
        "Inquire error: User-provided error: custom error"
    );
}

#[test]
fn test_not_found_display() {
    let mentee_error = MenteeError::NotFound("Mentee".to_string());
    assert_eq!(mentee_error.message(), "Mentee not found");
}

#[test]
fn test_invalid_input_display() {
    let mentee_error = MenteeError::InvalidInput("Invalid name".to_string());
    assert_eq!(mentee_error.message(), "Invalid input: Invalid name");
}

#[test]
fn test_unique_violation_display() {
    let mentee_error = MenteeError::UniqueViolation("John Doe".to_string());
    assert_eq!(
        mentee_error.message(),
        "Mentee with name 'John Doe' already exists."
    );
}

#[test]
fn test_validation_error_from_str() {
    let mentee_error: MenteeError = "Validation error".into();
    assert_eq!(mentee_error.message(), "Invalid input: Validation error");
}

#[test]
fn validation_error_keeps_its_message() {
    let e = MenteeError::validation("too long");
    assert!(matches!(&e, MenteeError::ValidationError(m) if m == "too long"));
    assert_eq!(e.kind(), ErrorKind::Validation);
    let from: MenteeError = MenteeError::from("x");
    assert!(matches!(from, MenteeError::ValidationError(m) if m == "x"));
}

#[test]
fn every_kind_is_told_apart() {
    let t = String::new;
    assert_eq!(MenteeError::DatabaseError(t()).kind(), ErrorKind::Database);
    assert_eq!(MenteeError::IOError(t()).kind(), ErrorKind::IO);
    assert_eq!(MenteeError::InquireError(t()).kind(), ErrorKind::Inquire);
    assert_eq!(MenteeError::NotFound(t()).kind(), ErrorKind::NotFound);
    assert_eq!(MenteeError::InvalidInput(t()).kind(), ErrorKind::InvalidInput);
    assert_eq!(MenteeError::UniqueViolation(t()).kind(), ErrorKind::UniqueViolation);
    assert_eq!(MenteeError::ValidationError(t()).kind(), ErrorKind::Validation);
}

#[test]
fn messages_with_empty_detail() {
    assert_eq!(MenteeError::DatabaseError(String::new()).message(), "Database error: ");
    assert_eq!(MenteeError::NotFound(String::new()).message(), " not found");
    assert_eq!(
        MenteeError::UniqueViolation(String::new()).message(),
        "Mentee with name '' already exists."
    );
    assert_eq!(
        MenteeError::ValidationError("bad".to_string()).message(),
        "Invalid input: bad"
    );
}
