//! The state machine: applies one event to the account store and the
//! ledger.

use crate::amount::{value_ge, Amount};
use crate::model::{Account, ClientId, ProcessError, RecordKind, TxEvent, TxId, TxKindRaw, TxRecord};
use crate::store::{
    account_entries, get_account, get_record, new_account_store, new_ledger, put_account,
    put_record, record_entries, AccountStore, Ledger,
};
use vstd::prelude::*;

verus! {

/// The accounts by client and the ledger records by transaction.
pub type State = (Map<ClientId, Account>, Map<TxId, TxRecord>);

/// Every account and every record holds amounts in range.
pub open spec fn state_wf(s: State) -> bool {
    &&& forall|c: ClientId| #[trigger] s.0.contains_key(c) ==> s.0[c].wf()
    &&& forall|t: TxId| #[trigger] s.1.contains_key(t) ==> s.1[t].wf()
}

/// The account of `client`, or a new one where it has none yet.
pub open spec fn account_or_new(accounts: Map<ClientId, Account>, client: ClientId) -> Account {
    if accounts.contains_key(client) {
        accounts[client]
    } else {
        Account::zero_spec()
    }
}

/// The record that a deposit or withdrawal leaves in the ledger.
pub open spec fn fresh_record(client: ClientId, amount: Amount, kind: RecordKind) -> TxRecord {
    TxRecord { client, amount, disputed: false, dispute_finished: false, kind }
}

/// A deposit: available grows by `amount`, even on a locked account.
pub open spec fn deposit_step(s: State, client: ClientId, tx: TxId, amount: Amount) -> Result<
    State,
    ProcessError,
> {
    match account_or_new(s.0, client).available_shifted(amount, RecordKind::Deposit) {
        Some(a) => Ok(
            (s.0.insert(client, a), s.1.insert(tx, fresh_record(client, amount, RecordKind::Deposit))),
        ),
        None => Err(ProcessError::Overflow),
    }
}

/// A withdrawal: available shrinks by `amount` only where the account is
/// unlocked and holds at least `amount`; the record is kept either way.
pub open spec fn withdrawal_step(s: State, client: ClientId, tx: TxId, amount: Amount) -> Result<
    State,
    ProcessError,
> {
    let acc = account_or_new(s.0, client);
    let rec = fresh_record(client, amount, RecordKind::Withdrawal);
    if !acc.locked && value_ge(acc.available, amount) {
        match acc.available_shifted(amount, RecordKind::Withdrawal) {
            Some(a) => Ok((s.0.insert(client, a), s.1.insert(tx, rec))),
            None => Err(ProcessError::Overflow),
        }
    } else {
        Ok((s.0.insert(client, acc), s.1.insert(tx, rec)))
    }
}

/// A dispute on a record that was never disputed and whose client has an
/// account: funds move only on an unlocked account, the record is marked
/// disputed either way.
pub open spec fn dispute_step(s: State, tx: TxId) -> Result<State, ProcessError> {
    if !s.1.contains_key(tx) {
        Ok(s)
    } else {
        let rec = s.1[tx];
        if rec.disputed || !s.0.contains_key(rec.client) {
            Ok(s)
        } else {
            let acc = s.0[rec.client];
            let marked = TxRecord { disputed: true, ..rec };
            if acc.locked {
                Ok((s.0, s.1.insert(tx, marked)))
            } else {
                match acc.disputed_spec(rec.amount, rec.kind) {
                    Some(a) => Ok((s.0.insert(rec.client, a), s.1.insert(tx, marked))),
                    None => Err(ProcessError::Overflow),
                }
            }
        }
    }
}

/// A resolve on a record under dispute whose client has an account: the
/// dispute's fund movement is undone on an unlocked account, the dispute
/// is finished either way.
pub open spec fn resolve_step(s: State, tx: TxId) -> Result<State, ProcessError> {
    if !s.1.contains_key(tx) {
        Ok(s)
    } else {
        let rec = s.1[tx];
        if !rec.under_dispute() || !s.0.contains_key(rec.client) {
            Ok(s)
        } else {
            let acc = s.0[rec.client];
            let marked = TxRecord { dispute_finished: true, ..rec };
            if acc.locked {
                Ok((s.0, s.1.insert(tx, marked)))
            } else {
                match acc.resolved_spec(rec.amount, rec.kind) {
                    Some(a) => Ok((s.0.insert(rec.client, a), s.1.insert(tx, marked))),
                    None => Err(ProcessError::Overflow),
                }
            }
        }
    }
}

/// A chargeback on a record under dispute whose client has an account:
/// held funds are removed and the account locked where it was unlocked,
/// the dispute is finished either way.
pub open spec fn chargeback_step(s: State, tx: TxId) -> Result<State, ProcessError> {
    if !s.1.contains_key(tx) {
        Ok(s)
    } else {
        let rec = s.1[tx];
        if !rec.under_dispute() || !s.0.contains_key(rec.client) {
            Ok(s)
        } else {
            let acc = s.0[rec.client];
            let marked = TxRecord { dispute_finished: true, ..rec };
            if acc.locked {
                Ok((s.0, s.1.insert(tx, marked)))
            } else {
                match acc.charged_back_spec(rec.amount, rec.kind) {
                    Some(a) => Ok((s.0.insert(rec.client, a), s.1.insert(tx, marked))),
                    None => Err(ProcessError::Overflow),
                }
            }
        }
    }
}

/// The effect of one event: the next state, or the error that leaves the
/// state as it was.
pub open spec fn step(s: State, ev: TxEvent) -> Result<State, ProcessError> {
    match ev.kind {
        TxKindRaw::Deposit => match ev.amount {
            Some(a) => deposit_step(s, ev.client, ev.tx, a),
            None => Err(ProcessError::MissingAmount),
        },
        TxKindRaw::Withdrawal => match ev.amount {
            Some(a) => withdrawal_step(s, ev.client, ev.tx, a),
            None => Err(ProcessError::MissingAmount),
        },
        TxKindRaw::Dispute => dispute_step(s, ev.tx),
        TxKindRaw::Resolve => resolve_step(s, ev.tx),
        TxKindRaw::Chargeback => chargeback_step(s, ev.tx),
    }
}

/// The state after `step`, where a failed event changes nothing.
pub open spec fn next_state(s: State, ev: TxEvent) -> State {
    match step(s, ev) {
        Ok(n) => n,
        Err(_) => s,
    }
}

/// Events applied one after another, each failure skipped.
pub open spec fn apply_all(s: State, events: Seq<TxEvent>) -> State
    decreases events.len(),
{
    if events.len() == 0 {
        s
    } else {
        next_state(apply_all(s, events.drop_last()), events.last())
    }
}

/// The failures, in order, that applying `events` one after another
/// reports: client, transaction and error of each event that failed.
pub open spec fn failures(s: State, events: Seq<TxEvent>) -> Seq<(ClientId, TxId, ProcessError)>
    decreases events.len(),
{
    if events.len() == 0 {
        Seq::empty()
    } else {
        let before = failures(s, events.drop_last());
        let ev = events.last();
        match step(apply_all(s, events.drop_last()), ev) {
            Ok(_) => before,
            Err(e) => before.push((ev.client, ev.tx, e)),
        }
    }
}

/// `r` and the move from `before` to `after` are what `outcome` says.
pub open spec fn followed(before: State, after: State, r: Result<(), ProcessError>, outcome: Result<State, ProcessError>) -> bool {
    match outcome {
        Ok(n) => r is Ok && after == n,
        Err(e) => r == Err::<(), ProcessError>(e) && after == before,
    }
}

pub struct Processor {
    accounts: AccountStore,
    tx_history: Ledger,
}

impl View for Processor {
    type V = State;

    closed spec fn view(&self) -> State {
        (account_entries(self.accounts), record_entries(self.tx_history))
    }
}

impl Processor {
    pub open spec fn wf(&self) -> bool {
        state_wf(self@)
    }

    /// A processor with no accounts and an empty ledger.
    pub fn default() -> (r: Processor)
        ensures
            r@.0.dom().is_empty(),
            r@.1.dom().is_empty(),
            r.wf(),
    {
        Processor { accounts: new_account_store(), tx_history: new_ledger() }
    }

    /// The account store.
    pub fn accounts(&self) -> (r: &AccountStore)
        ensures
            account_entries(*r) == self@.0,
    {
        &self.accounts
    }

    /// The ledger.
    pub fn tx_history(&self) -> (r: &Ledger)
        ensures
            record_entries(*r) == self@.1,
    {
        &self.tx_history
    }

    /// Applies one event; on an error nothing changes.
    pub fn process(&mut self, ev: TxEvent) -> (r: Result<(), ProcessError>)
        requires
            old(self).wf(),
            ev.wf(),
        ensures
            final(self).wf(),
            followed(old(self)@, final(self)@, r, step(old(self)@, ev)),
    {
        match ev.kind {
            TxKindRaw::Deposit => match ev.amount {
                Some(a) => self.deposit(ev.client, ev.tx, a),
                None => Err(ProcessError::MissingAmount),
            },
            TxKindRaw::Withdrawal => match ev.amount {
                Some(a) => self.withdrawal(ev.client, ev.tx, a),
                None => Err(ProcessError::MissingAmount),
            },
            TxKindRaw::Dispute => self.dispute(ev.tx),
            TxKindRaw::Resolve => self.resolve(ev.tx),
            TxKindRaw::Chargeback => self.chargeback(ev.tx),
        }
    }

    /// Applies the events of one lane in order. A failing event is
    /// reported and skipped; it never stops the lane.
    pub fn run_lane(&mut self, events: &Vec<TxEvent>) -> (r: Vec<(ClientId, TxId, ProcessError)>)
        requires
            old(self).wf(),
            forall|i: int| 0 <= i < events@.len() ==> (#[trigger] events@[i]).wf(),
        ensures
            final(self).wf(),
            final(self)@ == apply_all(old(self)@, events@),
            r@ == failures(old(self)@, events@),
    {
        let ghost start = self@;
        let mut out: Vec<(ClientId, TxId, ProcessError)> = Vec::new();
        let mut i: usize = 0;
        while i < events.len()
            invariant
                self.wf(),
                0 <= i <= events@.len(),
                forall|j: int| 0 <= j < events@.len() ==> (#[trigger] events@[j]).wf(),
                self@ == apply_all(start, events@.take(i as int)),
                out@ == failures(start, events@.take(i as int)),
            decreases events@.len() - i,
        {
            let ev = events[i];
            assert(events@.take(i + 1).drop_last() == events@.take(i as int));
            assert(events@.take(i + 1).last() == ev);
            match self.process(ev) {
                Ok(()) => {},
                Err(e) => {
                    out.push((ev.client, ev.tx, e));
                },
            }
            i = i + 1;
        }
        assert(events@.take(events@.len() as int) == events@);
        out
    }

    fn account_or_new(&self, client: ClientId) -> (r: Account)
        requires
            self.wf(),
        ensures
            r == account_or_new(self@.0, client),
            r.wf(),
    {
        match get_account(&self.accounts, client) {
            Some(a) => {
                assert(self@.0.contains_key(client));
                a
            },
            None => Account::new(),
        }
    }

    fn deposit(&mut self, client: ClientId, tx: TxId, amount: Amount) -> (r: Result<(), ProcessError>)
        requires
            old(self).wf(),
            amount.wf(),
        ensures
            final(self).wf(),
            followed(old(self)@, final(self)@, r, deposit_step(old(self)@, client, tx, amount)),
    {
        let mut acc = self.account_or_new(client);
        match acc.modify_available(&amount, &RecordKind::Deposit) {
            Ok(()) => {},
            Err(e) => {
                return Err(e);
            },
        }
        put_account(&mut self.accounts, client, acc);
        put_record(&mut self.tx_history, tx, TxRecord::new(client, amount, false, RecordKind::Deposit));
        Ok(())
    }

    fn withdrawal(&mut self, client: ClientId, tx: TxId, amount: Amount) -> (r: Result<(), ProcessError>)
        requires
            old(self).wf(),
            amount.wf(),
        ensures
            final(self).wf(),
            followed(old(self)@, final(self)@, r, withdrawal_step(old(self)@, client, tx, amount)),
    {
        let mut acc = self.account_or_new(client);
        if !acc.locked() && acc.available().ge(&amount) {
            match acc.modify_available(&amount, &RecordKind::Withdrawal) {
                Ok(()) => {},
                Err(e) => {
                    return Err(e);
                },
            }
        }
        put_account(&mut self.accounts, client, acc);
        put_record(&mut self.tx_history, tx, TxRecord::new(client, amount, false, RecordKind::Withdrawal));
        Ok(())
    }

    fn dispute(&mut self, tx: TxId) -> (r: Result<(), ProcessError>)
        requires
            old(self).wf(),
        ensures
            final(self).wf(),
            followed(old(self)@, final(self)@, r, dispute_step(old(self)@, tx)),
    {
        let mut rec = match get_record(&self.tx_history, tx) {
            Some(rec) => rec,
            None => {
                return Ok(());
            },
        };
        if rec.disputed() {
            return Ok(());
        }
        let mut acc = match get_account(&self.accounts, rec.client()) {
            Some(acc) => acc,
            None => {
                return Ok(());
            },
        };
        if !acc.locked() {
            match acc.dispute_funds(&rec.amount(), &rec.kind()) {
                Ok(()) => {},
                Err(e) => {
                    return Err(e);
                },
            }
            put_account(&mut self.accounts, rec.client(), acc);
        }
        rec.modify_disputed(true);
        put_record(&mut self.tx_history, tx, rec);
        Ok(())
    }

    fn resolve(&mut self, tx: TxId) -> (r: Result<(), ProcessError>)
        requires
            old(self).wf(),
        ensures
            final(self).wf(),
            followed(old(self)@, final(self)@, r, resolve_step(old(self)@, tx)),
    {
        let mut rec = match get_record(&self.tx_history, tx) {
            Some(rec) => rec,
            None => {
                return Ok(());
            },
        };
        if !rec.disputed() || rec.dispute_finished() {
            return Ok(());
        }
        let mut acc = match get_account(&self.accounts, rec.client()) {
            Some(acc) => acc,
            None => {
                return Ok(());
            },
        };
        if !acc.locked() {
            match acc.resolve_funds(&rec.amount(), &rec.kind()) {
                Ok(()) => {},
                Err(e) => {
                    return Err(e);
                },
            }
            put_account(&mut self.accounts, rec.client(), acc);
        }
        rec.finish_dispute();
        put_record(&mut self.tx_history, tx, rec);
        Ok(())
    }

    fn chargeback(&mut self, tx: TxId) -> (r: Result<(), ProcessError>)
        requires
            old(self).wf(),
        ensures
            final(self).wf(),
            followed(old(self)@, final(self)@, r, chargeback_step(old(self)@, tx)),
    {
        let mut rec = match get_record(&self.tx_history, tx) {
            Some(rec) => rec,
            None => {
                return Ok(());
            },
        };
        if !rec.disputed() || rec.dispute_finished() {
            return Ok(());
        }
        let mut acc = match get_account(&self.accounts, rec.client()) {
            Some(acc) => acc,
            None => {
                return Ok(());
            },
        };
        if !acc.locked() {
            match acc.chargeback_funds(&rec.amount(), &rec.kind()) {
                Ok(()) => {},
                Err(e) => {
                    return Err(e);
                },
            }
            put_account(&mut self.accounts, rec.client(), acc);
        }
        rec.finish_dispute();
        put_record(&mut self.tx_history, tx, rec);
        Ok(())
    }
}

} // verus!
