use mentees::models::UpdateMentee;
use mentees::statements::{
    add_free_call_column, any_change, create_table, foreign_keys_on, lacks_column, listing_statement, update_statement,
    Listed, Table,
};
use mentees::status::Status;
use mentees::store::SqlValue;

fn nothing(name: &str) -> UpdateMentee {
    UpdateMentee {
        name: name.to_string(),
        new_name: None,
        calls: None,
        status: None,
        payment_day: None,
        gross: None,
        net: None,
        notes: None,
    }
}

fn shown(params: &[SqlValue]) -> Vec<String> {
    params
        .iter()
        .map(|p| match p {
            SqlValue::Text(t) => format!("'{}'", t),
            SqlValue::Integer(n) => format!("{}", n),
        })
        .collect()
}

#[test]
fn update_without_fields_gives_no_statement() {
    let args = nothing("dan");
    assert!(!any_change(&args));
    assert!(update_statement(&args).is_none());
}

#[test]
fn update_of_one_field() {
    let mut args = nothing("dan");
    args.calls = Some(6);
    assert!(any_change(&args));
    let st = update_statement(&args).unwrap();
    assert_eq!(st.sql, "UPDATE mentees SET calls = ? WHERE name = ?");
    assert_eq!(shown(&st.params), vec!["6", "'dan'"]);
}

#[test]
fn update_of_every_field_keeps_the_order() {
    let args = UpdateMentee {
        name: "dan".to_string(),
        new_name: Some("daniel".to_string()),
        calls: Some(4),
        status: Some(Status::Hot),
        payment_day: Some(15),
        gross: Some(1000),
        net: Some(-1),
        notes: Some("moved".to_string()),
    };
    let st = update_statement(&args).unwrap();
    assert_eq!(
        st.sql,
        "UPDATE mentees SET name = ?, calls = ?, gross = ?, net = ?, status = ?, payment_day = ?, notes = ? WHERE name = ?"
    );
    assert_eq!(
        shown(&st.params),
        vec!["'daniel'", "4", "1000", "-1", "'hot'", "15", "'moved'", "'dan'"]
    );
}

#[test]
fn update_of_first_and_last_field() {
    let mut args = nothing("ada");
    args.new_name = Some("ada l".to_string());
    args.notes = Some(String::new());
    let st = update_statement(&args).unwrap();
    assert_eq!(st.sql, "UPDATE mentees SET name = ?, notes = ? WHERE name = ?");
    assert_eq!(shown(&st.params), vec!["'ada l'", "''", "'ada'"]);
}

#[test]
fn update_of_status_binds_the_label() {
    for (status, label) in [
        (Status::Archived, "'archived'"),
        (Status::Cold, "'cold'"),
        (Status::Warm, "'warm'"),
        (Status::Hot, "'hot'"),
    ] {
        let mut args = nothing("x");
        args.status = Some(status);
        let st = update_statement(&args).unwrap();
        assert_eq!(st.sql, "UPDATE mentees SET status = ? WHERE name = ?");
        assert_eq!(shown(&st.params), vec![label, "'x'"]);
    }
}

#[test]
fn one_placeholder_for_each_bound_value() {
    let mut args = nothing("x");
    args.gross = Some(1);
    args.net = Some(2);
    args.payment_day = Some(3);
    let st = update_statement(&args).unwrap();
    assert_eq!(st.sql.matches('?').count(), st.params.len());
    assert_eq!(st.params.len(), 4);
}

#[test]
fn listing_of_all_records() {
    let calls = listing_statement(Listed::Calls, None);
    assert_eq!(
        calls.sql,
        "SELECT calls.id, mentees.name, calls.date, calls.notes, calls.free_call FROM calls JOIN mentees ON calls.mentee_id = mentees.id ORDER BY calls.date DESC"
    );
    assert!(calls.params.is_empty());
    let videos = listing_statement(Listed::Videos, None);
    assert_eq!(
        videos.sql,
        "SELECT videos.id, mentees.name, videos.date, videos.length, videos.notes FROM videos JOIN mentees ON videos.mentee_id = mentees.id ORDER BY videos.date DESC"
    );
    assert!(videos.params.is_empty());
    let payments = listing_statement(Listed::Payments, None);
    assert_eq!(
        payments.sql,
        "SELECT payments.id, mentees.name, payments.date, payments.amount FROM payments JOIN mentees ON payments.mentee_id = mentees.id ORDER BY payments.date DESC"
    );
    assert!(payments.params.is_empty());
}

#[test]
fn listing_of_one_mentee() {
    let calls = listing_statement(Listed::Calls, Some(7));
    assert!(calls.sql.ends_with(
        "mentees.id WHERE calls.mentee_id = ?1 ORDER BY calls.date DESC"
    ));
    assert_eq!(shown(&calls.params), vec!["7"]);
    let videos = listing_statement(Listed::Videos, Some(-1));
    assert!(videos.sql.ends_with(
        "mentees.id WHERE videos.mentee_id = ?1 ORDER BY videos.date DESC"
    ));
    assert_eq!(shown(&videos.params), vec!["-1"]);
    let payments = listing_statement(Listed::Payments, Some(i64::MAX));
    assert!(payments.sql.ends_with(
        "mentees.id WHERE payments.mentee_id = ?1 ORDER BY payments.date DESC"
    ));
    assert_eq!(shown(&payments.params), vec![i64::MAX.to_string()]);
}

#[test]
fn a_column_is_added_only_where_it_is_missing() {
    let columns = vec!["id".to_string(), "mentee_id".to_string(), "date".to_string()];
    assert!(lacks_column(&columns, "free_call"));
    assert!(!lacks_column(&columns, "date"));
    assert!(!lacks_column(&columns, "id"));
    assert!(lacks_column(&columns, "Date"));
    assert!(lacks_column(&Vec::new(), "free_call"));
}

#[test]
fn tables_are_made_only_once() {
    for (table, name) in [
        (Table::Mentees, "mentees"),
        (Table::Calls, "calls"),
        (Table::Videos, "videos"),
        (Table::Payments, "payments"),
    ] {
        let sql = create_table(table);
        assert!(sql.starts_with(&format!("CREATE TABLE IF NOT EXISTS {} (id INTEGER PRIMARY KEY", name)));
    }
}

#[test]
fn the_mentees_table_holds_the_invariants() {
    let sql = create_table(Table::Mentees);
    assert!(sql.contains("name TEXT NOT NULL UNIQUE"));
    assert!(sql.contains("CHECK(status IN ('archived', 'cold', 'warm', 'hot'))"));
    assert!(sql.contains("CHECK(payment_day BETWEEN 1 AND 31)"));
}

#[test]
fn records_go_with_their_mentee() {
    for table in [Table::Calls, Table::Videos, Table::Payments] {
        assert!(create_table(table)
            .ends_with("FOREIGN KEY (mentee_id) REFERENCES mentees (id) ON DELETE CASCADE)"));
    }
    assert!(!create_table(Table::Mentees).contains("CASCADE"));
    assert_eq!(foreign_keys_on(), "PRAGMA foreign_keys = ON");
}

#[test]
fn the_schema_is_accepted_and_cascades() {
    let conn = rusqlite::Connection::open_in_memory().unwrap();
    conn.execute(foreign_keys_on(), []).unwrap();
    for table in [Table::Mentees, Table::Calls, Table::Videos, Table::Payments] {
        conn.execute(create_table(table), []).unwrap();
    }
    conn.execute(add_free_call_column(), []).unwrap();
    conn.execute(
        "INSERT INTO mentees (name, calls, gross, net, status, payment_day) VALUES ('dan', 4, 1, 1, 'hot', 5)",
        [],
    )
    .unwrap();
    conn.execute("INSERT INTO calls (mentee_id, date) VALUES (1, '2024-03-09')", []).unwrap();
    let mut args = nothing("dan");
    args.calls = Some(6);
    args.status = Some(Status::Cold);
    let st = update_statement(&args).unwrap();
    let bound: Vec<rusqlite::types::Value> = st
        .params
        .iter()
        .map(|p| match p {
            SqlValue::Text(t) => rusqlite::types::Value::Text(t.clone()),
            SqlValue::Integer(n) => rusqlite::types::Value::Integer(*n),
        })
        .collect();
    assert_eq!(conn.execute(&st.sql, rusqlite::params_from_iter(bound)).unwrap(), 1);
    let status: String =
        conn.query_row("SELECT status FROM mentees WHERE name = 'dan'", [], |r| r.get(0)).unwrap();
    assert_eq!(status, "cold");
    let listed = listing_statement(Listed::Calls, None);
    let n = conn.prepare(&listed.sql).unwrap().query_map([], |_| Ok(())).unwrap().count();
    assert_eq!(n, 1);
    assert_eq!(conn.execute("DELETE FROM mentees WHERE name = 'dan'", []).unwrap(), 1);
    let left: i64 = conn.query_row("SELECT COUNT(*) FROM calls", [], |r| r.get(0)).unwrap();
    assert_eq!(left, 0);
}
