//! What passes between the rules and the place where the ledger is stored:
//! statements with their parameters on the way in, failures on the way out.

use vstd::prelude::*;

verus! {

/// The extended result code with which SQLite reports a broken `UNIQUE`
/// constraint.
pub const UNIQUE_CONSTRAINT: i32 = 2067;

/// A failure that the store reported.
#[derive(Debug, Clone)]
pub struct DbFailure {
    /// The extended result code, where the store itself refused the
    /// statement.
    pub extended_code: Option<i32>,
    /// The text of the failure.
    pub message: String,
}

impl DbFailure {
    /// The store refused a row because a value that must be unique is taken.
    pub open spec fn is_unique_violation(self) -> bool {
        self.extended_code == Some(UNIQUE_CONSTRAINT)
    }
}

/// A value bound to a placeholder of a statement.
#[derive(Debug, Clone)]
pub enum SqlValue {
    Text(String),
    Integer(i64),
}

/// A bound value as contracts speak of it.
pub ghost enum SqlTerm {
    Text(Seq<char>),
    Integer(int),
}

impl View for SqlValue {
    type V = SqlTerm;

    open spec fn view(&self) -> SqlTerm {
        match self {
            SqlValue::Text(t) => SqlTerm::Text(t@),
            SqlValue::Integer(n) => SqlTerm::Integer(*n as int),
        }
    }
}

/// The bound values of a statement as contracts speak of them.
pub open spec fn terms(params: Seq<SqlValue>) -> Seq<SqlTerm> {
    params.map_values(|p: SqlValue| p@)
}

/// A statement with one value for each of its placeholders, in order.
#[derive(Debug, Clone)]
pub struct Statement {
    pub sql: String,
    pub params: Vec<SqlValue>,
}

} // verus!
