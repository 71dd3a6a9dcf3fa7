//! The statements whose text depends on what was asked: the update of the
//! chosen fields of a mentee, and the listings with or without a filter.

use vstd::prelude::*;
use vstd::string::*;
use crate::models::UpdateMentee;
use crate::status::Status;
use crate::store::{terms, SqlTerm, SqlValue, Statement};
use crate::text::same_text;

verus! {

/// The column and the new value for a field, where the field is given.
pub open spec fn text_change(column: Seq<char>, value: Option<String>) -> Seq<
    (Seq<char>, SqlTerm),
> {
    match value {
        Some(t) => seq![(column, SqlTerm::Text(t@))],
        None => Seq::empty(),
    }
}

/// The column and the new value for a field, where the field is given.
pub open spec fn number_change(column: Seq<char>, value: Option<i32>) -> Seq<
    (Seq<char>, SqlTerm),
> {
    match value {
        Some(n) => seq![(column, SqlTerm::Integer(n as int))],
        None => Seq::empty(),
    }
}

/// The status column and the label of the new status, where one is given.
pub open spec fn status_change(value: Option<Status>) -> Seq<(Seq<char>, SqlTerm)> {
    match value {
        Some(s) => seq![("status"@, SqlTerm::Text(s.label()))],
        None => Seq::empty(),
    }
}

/// The columns that an update sets, each with its new value: name, calls,
/// gross, net, status, payment day, notes, as far as they are given.
pub open spec fn changes(args: UpdateMentee) -> Seq<(Seq<char>, SqlTerm)> {
    text_change("name"@, args.new_name) + number_change("calls"@, args.calls) + number_change(
        "gross"@,
        args.gross,
    ) + number_change("net"@, args.net) + status_change(args.status) + number_change(
        "payment_day"@,
        args.payment_day,
    ) + text_change("notes"@, args.notes)
}

/// The assignments of a `SET` clause: `column = ?` for each change, with a
/// comma and a space between neighbours.
pub open spec fn set_clause(changes: Seq<(Seq<char>, SqlTerm)>) -> Seq<char>
    decreases changes.len(),
{
    if changes.len() == 0 {
        Seq::empty()
    } else if changes.len() == 1 {
        changes[0].0 + " = ?"@
    } else {
        set_clause(changes.drop_last()) + ", "@ + changes.last().0 + " = ?"@
    }
}

/// The values of the changes, in order.
pub open spec fn new_values(changes: Seq<(Seq<char>, SqlTerm)>) -> Seq<SqlTerm> {
    changes.map_values(|c: (Seq<char>, SqlTerm)| c.1)
}

/// The text of the statement that applies the changes to the mentee of a
/// given name.
pub open spec fn update_sql(changes: Seq<(Seq<char>, SqlTerm)>) -> Seq<char> {
    "UPDATE mentees SET "@ + set_clause(changes) + " WHERE name = ?"@
}

/// Whether an update names at least one field to change.
pub open spec fn has_changes(args: UpdateMentee) -> bool {
    args.new_name is Some || args.calls is Some || args.gross is Some || args.net is Some
        || args.status is Some || args.payment_day is Some || args.notes is Some
}

/// Whether an update names at least one field to change.
pub fn any_change(args: &UpdateMentee) -> (r: bool)
    ensures
        r == has_changes(*args),
        r == (changes(*args).len() > 0),
{
    args.new_name.is_some() || args.calls.is_some() || args.gross.is_some() || args.net.is_some()
        || args.status.is_some() || args.payment_day.is_some() || args.notes.is_some()
}

struct Draft {
    clause: String,
    params: Vec<SqlValue>,
}

fn assign(
    draft: &mut Draft,
    column: &str,
    value: SqlValue,
    Ghost(done): Ghost<Seq<(Seq<char>, SqlTerm)>>,
)
    requires
        old(draft).clause@ == set_clause(done),
        terms(old(draft).params@) == new_values(done),
    ensures
        final(draft).clause@ == set_clause(done.push((column@, value@))),
        terms(final(draft).params@) == new_values(done.push((column@, value@))),
{
    let ghost next = done.push((column@, value@));
    let ghost before = draft.params@;
    assert(next.drop_last() =~= done);
    assert(terms(before).len() == before.len());
    assert(new_values(done).len() == done.len());
    if draft.params.len() > 0 {
        draft.clause.append(", ");
    } else {
        assert(done.len() == 0);
        assert(draft.clause@ =~= Seq::<char>::empty());
    }
    draft.clause.append(column);
    draft.clause.append(" = ?");
    draft.params.push(value);
    assert(draft.clause@ =~= set_clause(next));
    assert forall|k: int| 0 <= k < next.len() implies terms(draft.params@)[k] == new_values(
        next,
    )[k] by {
        if k < done.len() {
            assert(terms(before)[k] == new_values(done)[k]);
        }
    }
    assert(terms(draft.params@) =~= new_values(next));
}

fn assign_text(
    draft: &mut Draft,
    column: &str,
    value: &Option<String>,
    Ghost(done): Ghost<Seq<(Seq<char>, SqlTerm)>>,
)
    requires
        old(draft).clause@ == set_clause(done),
        terms(old(draft).params@) == new_values(done),
    ensures
        final(draft).clause@ == set_clause(done + text_change(column@, *value)),
        terms(final(draft).params@) == new_values(done + text_change(column@, *value)),
{
    match value {
        Some(t) => {
            assign(draft, column, SqlValue::Text(t.clone()), Ghost(done));
            assert(done + text_change(column@, *value) =~= done.push(
                (column@, SqlTerm::Text(t@)),
            ));
        },
        None => {
            assert(done + text_change(column@, *value) =~= done);
        },
    }
}

fn assign_number(
    draft: &mut Draft,
    column: &str,
    value: Option<i32>,
    Ghost(done): Ghost<Seq<(Seq<char>, SqlTerm)>>,
)
    requires
        old(draft).clause@ == set_clause(done),
        terms(old(draft).params@) == new_values(done),
    ensures
        final(draft).clause@ == set_clause(done + number_change(column@, value)),
        terms(final(draft).params@) == new_values(done + number_change(column@, value)),
{
    match value {
        Some(n) => {
            assign(draft, column, SqlValue::Integer(n as i64), Ghost(done));
            assert(done + number_change(column@, value) =~= done.push(
                (column@, SqlTerm::Integer(n as int)),
            ));
        },
        None => {
            assert(done + number_change(column@, value) =~= done);
        },
    }
}

fn assign_status(
    draft: &mut Draft,
    value: Option<Status>,
    Ghost(done): Ghost<Seq<(Seq<char>, SqlTerm)>>,
)
    requires
        old(draft).clause@ == set_clause(done),
        terms(old(draft).params@) == new_values(done),
    ensures
        final(draft).clause@ == set_clause(done + status_change(value)),
        terms(final(draft).params@) == new_values(done + status_change(value)),
{
    match value {
        Some(s) => {
            let label = String::from_str(s.as_str());
            assign(draft, "status", SqlValue::Text(label), Ghost(done));
            assert(done + status_change(value) =~= done.push(
                ("status"@, SqlTerm::Text(s.label())),
            ));
        },
        None => {
            assert(done + status_change(value) =~= done);
        },
    }
}

/// The statement that applies an update, or `None` where the update names no
/// field: the chosen columns are set from placeholders, and the last
/// placeholder takes the name of the mentee that is meant.
pub fn update_statement(args: &UpdateMentee) -> (r: Option<Statement>)
    ensures
        r is Some <==> has_changes(*args),
        r is Some ==> {
            &&& r->Some_0.sql@ == update_sql(changes(*args))
            &&& terms(r->Some_0.params@) == new_values(changes(*args)).push(
                SqlTerm::Text(args.name@),
            )
        },
{
    let mut draft = Draft { clause: String::new(), params: Vec::new() };
    let ghost d0: Seq<(Seq<char>, SqlTerm)> = Seq::empty();
    assert(terms(draft.params@) =~= new_values(d0));
    assign_text(&mut draft, "name", &args.new_name, Ghost(d0));
    let ghost d1 = d0 + text_change("name"@, args.new_name);
    assert(d1 =~= text_change("name"@, args.new_name));
    assign_number(&mut draft, "calls", args.calls, Ghost(d1));
    let ghost d2 = d1 + number_change("calls"@, args.calls);
    assign_number(&mut draft, "gross", args.gross, Ghost(d2));
    let ghost d3 = d2 + number_change("gross"@, args.gross);
    assign_number(&mut draft, "net", args.net, Ghost(d3));
    let ghost d4 = d3 + number_change("net"@, args.net);
    assign_status(&mut draft, args.status, Ghost(d4));
    let ghost d5 = d4 + status_change(args.status);
    assign_number(&mut draft, "payment_day", args.payment_day, Ghost(d5));
    let ghost d6 = d5 + number_change("payment_day"@, args.payment_day);
    assign_text(&mut draft, "notes", &args.notes, Ghost(d6));
    let ghost done = d6 + text_change("notes"@, args.notes);
    assert(done == changes(*args));
    assert(terms(draft.params@).len() == draft.params@.len());
    assert(new_values(done).len() == done.len());
    if draft.params.len() == 0 {
        return None;
    }
    let mut sql = String::from_str("UPDATE mentees SET ");
    sql.append(draft.clause.as_str());
    sql.append(" WHERE name = ?");
    let Draft { clause: _, params: bound } = draft;
    let mut params = bound;
    let ghost before = params@;
    params.push(SqlValue::Text(args.name.clone()));
    assert forall|k: int| 0 <= k < params@.len() implies terms(params@)[k] == new_values(
        done,
    ).push(SqlTerm::Text(args.name@))[k] by {
        if k < before.len() {
            assert(terms(before)[k] == new_values(done)[k]);
        }
    }
    assert(terms(params@) =~= new_values(done).push(SqlTerm::Text(args.name@)));
    Some(Statement { sql, params })
}

/// The records that are listed with the name of their mentee.
#[derive(Debug, Clone, Copy, PartialEq, Eq, Structural)]
pub enum Listed {
    Calls,
    Videos,
    Payments,
}

/// The query that reads all records of a kind, each with its mentee's name.
pub open spec fn select_all(what: Listed) -> Seq<char> {
    match what {
        Listed::Calls =>
            "SELECT calls.id, mentees.name, calls.date, calls.notes, calls.free_call FROM calls JOIN mentees ON calls.mentee_id = mentees.id"@,
        Listed::Videos =>
            "SELECT videos.id, mentees.name, videos.date, videos.length, videos.notes FROM videos JOIN mentees ON videos.mentee_id = mentees.id"@,
        Listed::Payments =>
            "SELECT payments.id, mentees.name, payments.date, payments.amount FROM payments JOIN mentees ON payments.mentee_id = mentees.id"@,
    }
}

/// The condition that keeps the records of one mentee.
pub open spec fn only_mentee(what: Listed) -> Seq<char> {
    match what {
        Listed::Calls => " WHERE calls.mentee_id = ?1"@,
        Listed::Videos => " WHERE videos.mentee_id = ?1"@,
        Listed::Payments => " WHERE payments.mentee_id = ?1"@,
    }
}

/// The order of a listing: latest date first.
pub open spec fn latest_first(what: Listed) -> Seq<char> {
    match what {
        Listed::Calls => " ORDER BY calls.date DESC"@,
        Listed::Videos => " ORDER BY videos.date DESC"@,
        Listed::Payments => " ORDER BY payments.date DESC"@,
    }
}

/// The text of the query that lists records, of all mentees or of one.
pub open spec fn listing_sql(what: Listed, filtered: bool) -> Seq<char> {
    select_all(what) + (if filtered {
        only_mentee(what)
    } else {
        Seq::empty()
    }) + latest_first(what)
}

/// The query that lists the records of a kind, latest first: those of the
/// mentee with the given id, which is then the one bound value, or all.
pub fn listing_statement(what: Listed, mentee_id: Option<i64>) -> (r: Statement)
    ensures
        r.sql@ == listing_sql(what, mentee_id is Some),
        terms(r.params@) == (match mentee_id {
            Some(id) => seq![SqlTerm::Integer(id as int)],
            None => Seq::empty(),
        }),
{
    let mut sql = String::from_str(
        match what {
            Listed::Calls =>
                "SELECT calls.id, mentees.name, calls.date, calls.notes, calls.free_call FROM calls JOIN mentees ON calls.mentee_id = mentees.id",
            Listed::Videos =>
                "SELECT videos.id, mentees.name, videos.date, videos.length, videos.notes FROM videos JOIN mentees ON videos.mentee_id = mentees.id",
            Listed::Payments =>
                "SELECT payments.id, mentees.name, payments.date, payments.amount FROM payments JOIN mentees ON payments.mentee_id = mentees.id",
        },
    );
    let mut params: Vec<SqlValue> = Vec::new();
    if let Some(id) = mentee_id {
        sql.append(
            match what {
                Listed::Calls => " WHERE calls.mentee_id = ?1",
                Listed::Videos => " WHERE videos.mentee_id = ?1",
                Listed::Payments => " WHERE payments.mentee_id = ?1",
            },
        );
        params.push(SqlValue::Integer(id));
    }
    sql.append(
        match what {
            Listed::Calls => " ORDER BY calls.date DESC",
            Listed::Videos => " ORDER BY videos.date DESC",
            Listed::Payments => " ORDER BY payments.date DESC",
        },
    );
    assert(sql@ =~= listing_sql(what, mentee_id is Some));
    assert(terms(params@) =~= (match mentee_id {
        Some(id) => seq![SqlTerm::Integer(id as int)],
        None => Seq::empty(),
    }));
    Statement { sql, params }
}

/// A table of the ledger.
#[derive(Debug, Clone, Copy, PartialEq, Eq, Structural)]
pub enum Table {
    Mentees,
    Calls,
    Videos,
    Payments,
}

/// The definition of a table. A mentee's name is unique, its status one of
/// the four labels and its payment day a day of a month. Calls, videos and
/// payments belong to a mentee, and deleting the mentee deletes them with
/// it: each refers to its mentee with `ON DELETE CASCADE`, which the store
/// honours once `foreign_keys_on` was sent on the connection.
pub open spec fn table_definition(table: Table) -> Seq<char> {
    match table {
        Table::Mentees =>
            "CREATE TABLE IF NOT EXISTS mentees (id INTEGER PRIMARY KEY, name TEXT NOT NULL UNIQUE, calls INTEGER, gross INTEGER NOT NULL, net INTEGER NOT NULL, status TEXT NOT NULL CHECK(status IN ('archived', 'cold', 'warm', 'hot')), payment_day INTEGER NOT NULL CHECK(payment_day BETWEEN 1 AND 31), notes TEXT)"@,
        Table::Calls =>
            "CREATE TABLE IF NOT EXISTS calls (id INTEGER PRIMARY KEY AUTOINCREMENT, mentee_id INTEGER NOT NULL, date TEXT NOT NULL, notes TEXT, FOREIGN KEY (mentee_id) REFERENCES mentees (id) ON DELETE CASCADE)"@,
        Table::Videos =>
            "CREATE TABLE IF NOT EXISTS videos (id INTEGER PRIMARY KEY AUTOINCREMENT, mentee_id INTEGER NOT NULL, date TEXT NOT NULL, length INTEGER NOT NULL, notes TEXT, FOREIGN KEY (mentee_id) REFERENCES mentees (id) ON DELETE CASCADE)"@,
        Table::Payments =>
            "CREATE TABLE IF NOT EXISTS payments (id INTEGER PRIMARY KEY AUTOINCREMENT, mentee_id INTEGER NOT NULL, date TEXT NOT NULL, amount INTEGER NOT NULL, FOREIGN KEY (mentee_id) REFERENCES mentees (id) ON DELETE CASCADE)"@,
    }
}

/// The statement that makes a table where it is not there yet.
pub fn create_table(table: Table) -> (r: &'static str)
    ensures
        r@ == table_definition(table),
{
    match table {
        Table::Mentees =>
            "CREATE TABLE IF NOT EXISTS mentees (id INTEGER PRIMARY KEY, name TEXT NOT NULL UNIQUE, calls INTEGER, gross INTEGER NOT NULL, net INTEGER NOT NULL, status TEXT NOT NULL CHECK(status IN ('archived', 'cold', 'warm', 'hot')), payment_day INTEGER NOT NULL CHECK(payment_day BETWEEN 1 AND 31), notes TEXT)",
        Table::Calls =>
            "CREATE TABLE IF NOT EXISTS calls (id INTEGER PRIMARY KEY AUTOINCREMENT, mentee_id INTEGER NOT NULL, date TEXT NOT NULL, notes TEXT, FOREIGN KEY (mentee_id) REFERENCES mentees (id) ON DELETE CASCADE)",
        Table::Videos =>
            "CREATE TABLE IF NOT EXISTS videos (id INTEGER PRIMARY KEY AUTOINCREMENT, mentee_id INTEGER NOT NULL, date TEXT NOT NULL, length INTEGER NOT NULL, notes TEXT, FOREIGN KEY (mentee_id) REFERENCES mentees (id) ON DELETE CASCADE)",
        Table::Payments =>
            "CREATE TABLE IF NOT EXISTS payments (id INTEGER PRIMARY KEY AUTOINCREMENT, mentee_id INTEGER NOT NULL, date TEXT NOT NULL, amount INTEGER NOT NULL, FOREIGN KEY (mentee_id) REFERENCES mentees (id) ON DELETE CASCADE)",
    }
}

/// The statement that makes the store enforce what one table refers to in
/// another, and with it the deletion of a mentee's calls, videos and
/// payments together with the mentee.
pub fn foreign_keys_on() -> (r: &'static str)
    ensures
        r@ == "PRAGMA foreign_keys = ON"@,
{
    "PRAGMA foreign_keys = ON"
}

/// The statement that gives the table of calls its column for free calls; a
/// call is not free unless marked so. It is for a ledger whose table of
/// calls was made without the column.
pub fn add_free_call_column() -> (r: &'static str)
    ensures
        r@ == "ALTER TABLE calls ADD COLUMN free_call INTEGER DEFAULT 0"@,
{
    "ALTER TABLE calls ADD COLUMN free_call INTEGER DEFAULT 0"
}

/// Whether a table with the given columns has none of the given name, so
/// that the column is still to be added.
pub fn lacks_column(columns: &Vec<String>, column: &str) -> (r: bool)
    ensures
        r == (forall|i: int| 0 <= i < columns@.len() ==> (#[trigger] columns@[i])@ != column@),
{
    let mut i: usize = 0;
    while i < columns.len()
        invariant
            i <= columns@.len(),
            forall|k: int| 0 <= k < i ==> (#[trigger] columns@[k])@ != column@,
        decreases columns@.len() - i,
    {
        if same_text(columns[i].as_str(), column) {
            return false;
        }
        i += 1;
    }
    true
}

} // verus!
