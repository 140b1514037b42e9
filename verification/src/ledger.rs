//! An append-only log of transactions, each under an id that is used once.

use vstd::prelude::*;
use vstd::string::*;
use crate::error::NotFoundError;

verus! {

/// One logged action.
#[derive(Debug)]
pub struct Transaction {
    pub transaction_id: String,
    pub timestamp: u64,
    pub action_type: String,
    pub details: String,
    pub actor_id: String,
}

/// What a `Transaction` says.
pub struct TransactionView {
    pub transaction_id: Seq<char>,
    pub timestamp: u64,
    pub action_type: Seq<char>,
    pub details: Seq<char>,
    pub actor_id: Seq<char>,
}

impl View for Transaction {
    type V = TransactionView;

    open spec fn view(&self) -> TransactionView {
        TransactionView {
            transaction_id: self.transaction_id@,
            timestamp: self.timestamp,
            action_type: self.action_type@,
            details: self.details@,
            actor_id: self.actor_id@,
        }
    }
}

impl Clone for Transaction {
    fn clone(&self) -> (r: Self)
        ensures
            r@ == self@,
    {
        Transaction {
            transaction_id: self.transaction_id.clone(),
            timestamp: self.timestamp,
            action_type: self.action_type.clone(),
            details: self.details.clone(),
            actor_id: self.actor_id.clone(),
        }
    }
}

/// The id of a new transaction is taken already.
#[derive(Clone, Copy, Debug, PartialEq, Eq, Structural)]
pub struct DuplicateIdError {}

/// The transactions of a log, in order.
pub open spec fn log_view(log: Seq<Transaction>) -> Seq<TransactionView> {
    log.map_values(|t: Transaction| t@)
}

/// Whether the log holds the id `id` at `i`.
pub open spec fn logged_at(log: Seq<TransactionView>, id: Seq<char>, i: int) -> bool {
    0 <= i < log.len() && log[i].transaction_id == id
}

/// Whether the log holds a transaction with the id `id`.
pub open spec fn logged(log: Seq<TransactionView>, id: Seq<char>) -> bool {
    exists|i: int| logged_at(log, id, i)
}

/// No id occurs twice.
pub open spec fn ids_distinct(log: Seq<TransactionView>) -> bool {
    forall|i: int, j: int|
        0 <= i < j < log.len() ==> (#[trigger] log[i]).transaction_id != (
        #[trigger] log[j]).transaction_id
}

/// The log. Transactions are appended and never changed or removed.
pub struct Ledger {
    entries: Vec<Transaction>,
}

impl View for Ledger {
    type V = Seq<TransactionView>;

    closed spec fn view(&self) -> Seq<TransactionView> {
        log_view(self.entries@)
    }
}

impl Ledger {
    pub open spec fn wf(&self) -> bool {
        ids_distinct(self@)
    }

    /// An empty log.
    pub fn new() -> (r: Self)
        ensures
            r.wf(),
            r@.len() == 0,
    {
        Ledger { entries: Vec::new() }
    }

    fn find(&self, id: &String) -> (r: Option<usize>)
        ensures
            match r {
                Some(i) => logged_at(self@, id@, i as int),
                None => !logged(self@, id@),
            },
    {
        let mut i: usize = 0;
        while i < self.entries.len()
            invariant
                i <= self.entries.len(),
                forall|j: int| 0 <= j < i ==> !logged_at(self@, id@, j),
            decreases self.entries.len() - i,
        {
            if self.entries[i].transaction_id == *id {
                return Some(i);
            }
            i += 1;
        }
        None
    }

    /// Appends a transaction stamped `now`, unless its id is taken.
    pub fn add_transaction(
        &mut self,
        transaction_id: String,
        action_type: String,
        details: String,
        actor_id: String,
        now: u64,
    ) -> (r: Result<(), DuplicateIdError>)
        requires
            old(self).wf(),
        ensures
            final(self).wf(),
            logged(old(self)@, transaction_id@) ==> r is Err && final(self)@ == old(self)@,
            !logged(old(self)@, transaction_id@) ==> r is Ok && final(self)@ == old(self)@.push(
                TransactionView {
                    transaction_id: transaction_id@,
                    timestamp: now,
                    action_type: action_type@,
                    details: details@,
                    actor_id: actor_id@,
                },
            ),
    {
        match self.find(&transaction_id) {
            Some(_) => Err(DuplicateIdError {}),
            None => {
                let ghost before = self@;
                let transaction = Transaction {
                    transaction_id,
                    timestamp: now,
                    action_type,
                    details,
                    actor_id,
                };
                self.entries.push(transaction);
                proof {
                    assert(self@ =~= before.push(transaction@));
                    assert forall|i: int, j: int| 0 <= i < j < self@.len() implies (
                    #[trigger] self@[i]).transaction_id != (#[trigger] self@[j]).transaction_id by {
                        if j == before.len() {
                            assert(!logged_at(before, transaction@.transaction_id, i));
                        } else {
                            assert(before[i].transaction_id != before[j].transaction_id);
                        }
                    }
                }
                Ok(())
            },
        }
    }

    /// The transaction with the id `transaction_id`.
    pub fn get_transaction(&self, transaction_id: String) -> (r: Result<Transaction, NotFoundError>)
        requires
            self.wf(),
        ensures
            match r {
                Ok(t) => exists|i: int| logged_at(self@, transaction_id@, i) && self@[i] == t@,
                Err(e) => !logged(self@, transaction_id@) && e.key@ == transaction_id@,
            },
    {
        match self.find(&transaction_id) {
            Some(i) => {
                let found = self.entries[i].clone();
                assert(logged_at(self@, transaction_id@, i as int) && self@[i as int] == found@);
                Ok(found)
            },
            None => Err(NotFoundError { key: transaction_id }),
        }
    }

    /// Every transaction, in the order in which they were appended.
    pub fn list_transactions(&self) -> (r: Vec<Transaction>)
        ensures
            log_view(r@) == self@,
    {
        let mut out: Vec<Transaction> = Vec::new();
        let mut i: usize = 0;
        while i < self.entries.len()
            invariant
                i <= self.entries.len(),
                out.len() == i,
                forall|j: int| 0 <= j < i ==> out@[j]@ == self.entries@[j]@,
            decreases self.entries.len() - i,
        {
            out.push(self.entries[i].clone());
            i += 1;
        }
        assert(log_view(out@) =~= self@);
        out
    }
}

/// A transaction that was appended is found under its id, and the ones
/// before it are where they were.
pub proof fn law_appended_is_found(log: Seq<TransactionView>, t: TransactionView)
    requires
        ids_distinct(log),
        !logged(log, t.transaction_id),
    ensures
        logged_at(log.push(t), t.transaction_id, log.len() as int),
        log.push(t)[log.len() as int] == t,
        forall|i: int| 0 <= i < log.len() ==> log.push(t)[i] == log[i],
{
}

} // verus!
