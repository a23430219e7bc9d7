//! The connection adapter: pseudo-transaction batching and connect-time
//! pragma configuration.
//!
//! The host binding has no transaction primitive, so transactional
//! semantics are emulated entirely by buffering statements: `begin` opens
//! an empty batch (overwriting any previous one — there is no nesting),
//! statements enqueued while batching are appended and never sent,
//! `commit` hands the whole batch back for one submission, and `rollback`
//! discards it without anything having reached the host.

use vstd::prelude::*;
use vstd::string::*;

use crate::arguments::D1Arguments;
use crate::value::{HostValue, SpecValue};

verus! {

/// One prepared statement bound to its encoded arguments, ready for
/// submission to the host.
#[derive(Debug)]
pub struct BoundStatement {
    /// The SQL text handed to the host's prepare call.
    pub sql: String,
    /// The encoded parameters, in binding order.
    pub arguments: Vec<HostValue>,
}

/// The mathematical abstraction of one bound statement.
pub struct SpecStatement {
    pub sql: Seq<char>,
    pub args: Seq<SpecValue>,
}

impl DeepView for BoundStatement {
    type V = SpecStatement;

    open spec fn deep_view(&self) -> SpecStatement {
        SpecStatement { sql: self.sql@, args: self.arguments.deep_view() }
    }
}

impl BoundStatement {
    /// Binds a statement for one fetch: the SQL text with its encoded
    /// arguments, or with none.
    pub fn bind(sql: &str, arguments: Option<D1Arguments>) -> (r: BoundStatement)
        ensures
            r.deep_view().sql == sql@,
            match arguments {
                Some(a) => r.deep_view().args == a@,
                None => r.deep_view().args.len() == 0,
            },
    {
        let args = match arguments {
            Some(a) => a.into_values(),
            None => Vec::new(),
        };
        proof {
            if arguments is None {
                assert(args.deep_view() =~= Seq::<SpecValue>::empty());
            }
        }
        BoundStatement { sql: String::from_str(sql), arguments: args }
    }
}

/// The batch state of a connection after `begin`.
pub open spec fn spec_begin(b: Option<Seq<SpecStatement>>) -> Option<Seq<SpecStatement>> {
    Some(Seq::<SpecStatement>::empty())
}

/// The batch state and immediate action after enqueueing one statement:
/// while batching the statement is appended and nothing is executed;
/// while idle the statement is handed back for immediate execution.
pub open spec fn spec_enqueue(b: Option<Seq<SpecStatement>>, s: SpecStatement) -> (
    Option<Seq<SpecStatement>>,
    Option<SpecStatement>,
) {
    match b {
        Some(pending) => (Some(pending.push(s)), None),
        None => (None, Some(s)),
    }
}

/// The batch state and submission after `commit`: the whole pending list
/// is handed back for one batch call, or nothing when idle.
pub open spec fn spec_commit(b: Option<Seq<SpecStatement>>) -> (
    Option<Seq<SpecStatement>>,
    Option<Seq<SpecStatement>>,
) {
    (None, b)
}

/// The batch state after `rollback`: the pending list is discarded, and
/// nothing is ever submitted.
pub open spec fn spec_rollback(b: Option<Seq<SpecStatement>>) -> Option<Seq<SpecStatement>> {
    None
}

/// The connection's buffering state. The host binding handle itself lives
/// outside this crate; everything the logic decides about is here.
#[derive(Debug)]
pub struct D1Connection {
    batch: Option<Vec<BoundStatement>>,
}

impl D1Connection {
    /// The pending pseudo-transaction batch, abstractly: `None` when
    /// idle, the buffered statements in append order while batching.
    pub closed spec fn spec_batch(&self) -> Option<Seq<SpecStatement>> {
        match self.batch {
            Some(b) => Some(b.deep_view()),
            None => None,
        }
    }

    /// A fresh connection starts idle.
    pub fn new() -> (r: Self)
        ensures
            r.spec_batch() is None,
    {
        D1Connection { batch: None }
    }

    /// Opens a pseudo-transaction: an empty batch, overwriting any batch
    /// already open (no nesting).
    pub fn begin(&mut self)
        ensures
            final(self).spec_batch() == spec_begin(old(self).spec_batch()),
    {
        self.batch = Some(Vec::new());
        proof {
            assert(self.batch->0.deep_view() =~= Seq::<SpecStatement>::empty());
        }
    }

    /// Discards the pending batch; nothing buffered ever reaches the
    /// host.
    pub fn rollback(&mut self)
        ensures
            final(self).spec_batch() == spec_rollback(old(self).spec_batch()),
    {
        self.batch = None;
    }

    /// Closes the pseudo-transaction: while batching the entire
    /// accumulated statement list is handed back for one batch
    /// submission; while idle this is a no-op success.
    pub fn commit(&mut self) -> (r: Option<Vec<BoundStatement>>)
        ensures
            final(self).spec_batch() == spec_commit(old(self).spec_batch()).0,
            match spec_commit(old(self).spec_batch()).1 {
                Some(submitted) => r matches Some(v) && v.deep_view() == submitted,
                None => r is None,
            },
    {
        let b = self.batch.take();
        b
    }

    /// Routes one statement: while batching it is appended to the pending
    /// list and nothing is returned for execution; while idle it is
    /// handed back to be executed at once.
    pub fn enqueue(&mut self, stmt: BoundStatement) -> (r: Option<BoundStatement>)
        ensures
            final(self).spec_batch() == spec_enqueue(
                old(self).spec_batch(),
                stmt.deep_view(),
            ).0,
            match spec_enqueue(old(self).spec_batch(), stmt.deep_view()).1 {
                Some(s) => r matches Some(out) && out.deep_view() == s,
                None => r is None,
            },
    {
        let b = self.batch.take();
        match b {
            Some(mut pending) => {
                let ghost prev = pending.deep_view();
                let ghost sv = stmt.deep_view();
                pending.push(stmt);
                proof {
                    assert(pending.deep_view() =~= prev.push(sv));
                }
                self.batch = Some(pending);
                None
            },
            None => Some(stmt),
        }
    }
}

/// Decodes a batch of host records into rows, in the order the host
/// returned them, with no reordering and no buffering beyond the batch
/// itself.
pub fn decode_rows(raw: &Vec<Vec<(String, HostValue)>>) -> (r: Vec<crate::row::D1Row>)
    ensures
        r@.len() == raw@.len(),
        forall|i: int| 0 <= i < raw@.len() ==> (#[trigger] r@[i]).wf(),
        forall|i: int|
            0 <= i < raw@.len() ==> (#[trigger] r@[i]).spec_columns().len() == raw@[i]@.len(),
        forall|i: int, j: int|
            0 <= i < raw@.len() && 0 <= j < raw@[i]@.len()
                ==> (#[trigger] r@[i].spec_columns()[j]).name@ == raw@[i]@[j].0@,
        forall|i: int, j: int|
            0 <= i < raw@.len() && 0 <= j < raw@[i]@.len() ==> (#[trigger] r@[i].spec_values()[j])
                == raw@[i]@[j].1@,
{
    let n = raw.len();
    let mut r: Vec<crate::row::D1Row> = Vec::new();
    let mut i: usize = 0;
    while i < n
        invariant
            i <= n,
            n == raw@.len(),
            r@.len() == i,
            forall|k: int| 0 <= k < i ==> (#[trigger] r@[k]).wf(),
            forall|k: int|
                0 <= k < i ==> (#[trigger] r@[k]).spec_columns().len() == raw@[k]@.len(),
            forall|k: int, j: int|
                0 <= k < i && 0 <= j < raw@[k]@.len()
                    ==> (#[trigger] r@[k].spec_columns()[j]).name@ == raw@[k]@[j].0@,
            forall|k: int, j: int|
                0 <= k < i && 0 <= j < raw@[k]@.len() ==> (#[trigger] r@[k].spec_values()[j])
                    == raw@[k]@[j].1@,
        decreases n - i,
    {
        let row = crate::row::D1Row::from_raw(&raw[i]);
        r.push(row);
        i = i + 1;
    }
    r
}

/// The single-row fetch outcome: a host null or empty result is `None`,
/// not an error; a record is decoded as usual.
pub fn first_row(raw: Option<Vec<(String, HostValue)>>) -> (r: Option<crate::row::D1Row>)
    ensures
        raw is None ==> r is None,
        raw matches Some(entries) ==> (r matches Some(row) && row.wf()
            && row.spec_columns().len() == entries@.len() && (forall|j: int|
            0 <= j < entries@.len() ==> (#[trigger] row.spec_columns()[j]).name@
                == entries@[j].0@) && (forall|j: int|
            0 <= j < entries@.len() ==> (#[trigger] row.spec_values()[j]) == entries@[j].1@)),
{
    match raw {
        None => None,
        Some(entries) => Some(crate::row::D1Row::from_raw(&entries)),
    }
}

/// A `begin`; two statements; `rollback` sequence never lets either
/// statement reach the host: both are buffered (no immediate action) and
/// the rollback discards them without a submission. The same prefix
/// followed by `commit` submits exactly one batch holding the two
/// statements in order.
pub proof fn lemma_pseudo_transaction(
    b0: Option<Seq<SpecStatement>>,
    s1: SpecStatement,
    s2: SpecStatement,
)
    ensures
        ({
            let b1 = spec_begin(b0);
            let (b2, a1) = spec_enqueue(b1, s1);
            let (b3, a2) = spec_enqueue(b2, s2);
            &&& a1 is None
            &&& a2 is None
            &&& spec_rollback(b3) is None
            &&& spec_commit(b3).1 == Some(seq![s1, s2])
        }),
{
    let b1 = spec_begin(b0);
    let (b2, a1) = spec_enqueue(b1, s1);
    let (b3, a2) = spec_enqueue(b2, s2);
    assert(spec_commit(b3).1->0 =~= seq![s1, s2]);
}

} // verus!
