//! Prepared statements as the toolkit sees them.
//!
//! Against the live host no upfront parameter typing is possible, so a
//! prepared statement is just the SQL text: parameter type lists passed
//! to prepare are accepted but not validated at this layer, and no column
//! metadata is reported.

use vstd::prelude::*;
use vstd::string::*;

use crate::row::D1Column;

verus! {

/// One prepared statement: the SQL text, with no inferred metadata.
#[derive(Debug)]
pub struct D1Statement {
    sql: String,
}

impl D1Statement {
    /// The statement's SQL text, abstractly.
    pub closed spec fn spec_sql(&self) -> Seq<char> {
        self.sql@
    }

    /// Prepares a statement from its SQL text. The parameter types the
    /// toolkit may supply are accepted but not validated, so they are not
    /// taken here.
    pub fn prepare(sql: &str) -> (r: Self)
        ensures
            r.spec_sql() == sql@,
    {
        D1Statement { sql: String::from_str(sql) }
    }

    /// The SQL text.
    pub fn sql(&self) -> (r: &str)
        ensures
            r@ == self.spec_sql(),
    {
        self.sql.as_str()
    }

    /// An owning copy of the statement.
    pub fn to_owned(&self) -> (r: Self)
        ensures
            r.spec_sql() == self.spec_sql(),
    {
        D1Statement { sql: self.sql.clone() }
    }

    /// Parameter metadata: none is known against the live host.
    pub fn parameters(&self) -> (r: Option<usize>)
        ensures
            r is None,
    {
        None
    }

    /// Column metadata: none is known against the live host.
    pub fn columns(&self) -> (r: Vec<D1Column>)
        ensures
            r@.len() == 0,
    {
        Vec::new()
    }
}

} // verus!
