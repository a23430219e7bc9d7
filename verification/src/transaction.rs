//! The transaction manager: thin forwarding onto the connection's
//! pseudo-transaction batch.

use vstd::prelude::*;

use crate::connection::{
    BoundStatement,
    D1Connection,
    spec_begin,
    spec_commit,
    spec_rollback,
};

verus! {

/// Manages pseudo-transactions on a connection.
#[derive(Debug)]
pub struct D1TransactionManager;

impl D1TransactionManager {
    /// Opens a pseudo-transaction on the connection.
    pub fn begin(conn: &mut D1Connection)
        ensures
            final(conn).spec_batch() == spec_begin(old(conn).spec_batch()),
    {
        conn.begin();
    }

    /// Closes the pseudo-transaction, handing back the batch to submit
    /// (or nothing, when idle).
    pub fn commit(conn: &mut D1Connection) -> (r: Option<Vec<BoundStatement>>)
        ensures
            final(conn).spec_batch() == spec_commit(old(conn).spec_batch()).0,
            match spec_commit(old(conn).spec_batch()).1 {
                Some(submitted) => r matches Some(v) && v.deep_view() == submitted,
                None => r is None,
            },
    {
        conn.commit()
    }

    /// Discards the pending batch without submitting anything.
    pub fn rollback(conn: &mut D1Connection)
        ensures
            final(conn).spec_batch() == spec_rollback(old(conn).spec_batch()),
    {
        conn.rollback();
    }

    /// The abort path taken when a transaction is dropped: the pending
    /// batch is discarded unsent, exactly as an explicit rollback.
    pub fn start_rollback(conn: &mut D1Connection)
        ensures
            final(conn).spec_batch() == spec_rollback(old(conn).spec_batch()),
    {
        conn.rollback();
    }
}

} // verus!
