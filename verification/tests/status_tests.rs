use mentees::status::Status;

#[test]
fn test_status_as_str() {
    assert_eq!(Status::Hot.as_str(), "hot");
    assert_eq!(Status::Warm.as_str(), "warm");
    assert_eq!(Status::Cold.as_str(), "cold");
    assert_eq!(Status::Archived.as_str(), "archived");
}

#[test]
fn test_status_from_str() {
    assert_eq!(Status::from_str("hot"), Some(Status::Hot));
    assert_eq!(Status::from_str("warm"), Some(Status::Warm));
    assert_eq!(Status::from_str("cold"), Some(Status::Cold));
    assert_eq!(Status::from_str("archived"), Some(Status::Archived));

    assert_eq!(Status::from_str("unknown"), None);
    assert_eq!(Status::from_str(""), None);
    assert_eq!(Status::from_str("_"), None);
    assert_eq!(Status::from_str("hott"), None);
}

#[test]
fn test_status_variants() {
    let expected = vec!["hot", "warm", "cold", "archived"];
    assert_eq!(Status::variants(), expected);
}

#[test]
fn status_label_round_trip() {
    for s in [Status::Hot, Status::Warm, Status::Cold, Status::Archived] {
        assert_eq!(Status::from_str(s.as_str()), Some(s));
    }
    for label in Status::variants() {
        assert_eq!(Status::from_str(label).unwrap().as_str(), label);
    }
}

#[test]
fn status_from_str_is_exact() {
    assert_eq!(Status::from_str("Hot"), None);
    assert_eq!(Status::from_str(" hot"), None);
    assert_eq!(Status::from_str("ho"), None);
    assert_eq!(Status::from_str("archive"), None);
}

#[test]
fn status_names() {
    assert_eq!(Status::Hot.name(), "Hot");
    assert_eq!(Status::Warm.name(), "Warm");
    assert_eq!(Status::Cold.name(), "Cold");
    assert_eq!(Status::Archived.name(), "Archived");
}

#[test]
fn a_stored_label_that_is_none_reads_as_warm() {
    assert_eq!(Status::from_stored("hot"), Status::Hot);
    assert_eq!(Status::from_stored("archived"), Status::Archived);
    assert_eq!(Status::from_stored("cold"), Status::Cold);
    assert_eq!(Status::from_stored("lukewarm"), Status::Warm);
    assert_eq!(Status::from_stored(""), Status::Warm);
}
