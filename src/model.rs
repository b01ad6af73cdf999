//! Accounts, ledger records and events.

use crate::amount::{shifted, Amount};
use vstd::prelude::*;

verus! {

pub type ClientId = u16;

pub type TxId = u32;

/// The kind of an incoming event.
#[derive(Clone, Copy, Debug, PartialEq, Eq, Structural)]
pub enum TxKindRaw {
    Deposit,
    Withdrawal,
    Dispute,
    Resolve,
    Chargeback,
}

/// The kind of a ledger record: only deposits and withdrawals are recorded.
#[derive(Clone, Copy, Debug, PartialEq, Eq, Structural)]
pub enum RecordKind {
    Deposit,
    Withdrawal,
}

/// A failure to apply one event.
#[derive(Clone, Copy, Debug, PartialEq, Eq, Structural)]
pub enum ProcessError {
    /// A deposit or withdrawal without an amount.
    MissingAmount,
    /// A balance would leave the range of a decimal.
    Overflow,
}

/// One transaction instruction.
#[derive(Clone, Copy, Debug)]
pub struct TxEvent {
    pub kind: TxKindRaw,
    pub client: ClientId,
    pub tx: TxId,
    pub amount: Option<Amount>,
}

impl TxEvent {
    /// The event's amount, where present, lies in the representable range.
    pub open spec fn wf(self) -> bool {
        self.amount matches Some(a) ==> a.wf()
    }
}

/// The balances of one client. The total is derived: `available + held`.
#[derive(Clone, Copy, Debug)]
pub struct Account {
    pub available: Amount,
    pub held: Amount,
    pub locked: bool,
}

impl Account {
    pub open spec fn wf(self) -> bool {
        self.available.wf() && self.held.wf()
    }

    pub open spec fn zero_spec() -> Account {
        Account { available: Amount::zero_spec(), held: Amount::zero_spec(), locked: false }
    }

    /// The account with `available` shifted by `val`: up for a deposit,
    /// down for a withdrawal.
    pub open spec fn available_shifted(self, val: Amount, kind: RecordKind) -> Option<Account> {
        match shifted(self.available, val, kind == RecordKind::Deposit) {
            Some(a) => Some(Account { available: a, ..self }),
            None => None,
        }
    }

    /// The account with `held` shifted by `val`: up for a deposit, down for
    /// a withdrawal.
    pub open spec fn held_shifted(self, val: Amount, kind: RecordKind) -> Option<Account> {
        match shifted(self.held, val, kind == RecordKind::Deposit) {
            Some(h) => Some(Account { held: h, ..self }),
            None => None,
        }
    }

    /// The account with `val` moved from available to held (`to_held`), or
    /// from held to available.
    pub open spec fn moved(self, val: Amount, to_held: bool) -> Option<Account> {
        match (shifted(self.available, val, !to_held), shifted(self.held, val, to_held)) {
            (Some(a), Some(h)) => Some(Account { available: a, held: h, locked: self.locked }),
            _ => None,
        }
    }

    /// A dispute holds back a deposit, and gives a withdrawal back as held.
    pub open spec fn disputed_spec(self, val: Amount, kind: RecordKind) -> Option<Account> {
        self.moved(val, kind == RecordKind::Deposit)
    }

    /// A resolve undoes the fund movement of a dispute exactly.
    pub open spec fn resolved_spec(self, val: Amount, kind: RecordKind) -> Option<Account> {
        self.moved(val, kind == RecordKind::Withdrawal)
    }

    /// A chargeback removes a deposit from held (adds a withdrawal back to
    /// it) and locks the account.
    pub open spec fn charged_back_spec(self, val: Amount, kind: RecordKind) -> Option<Account> {
        match shifted(self.held, val, kind == RecordKind::Withdrawal) {
            Some(h) => Some(Account { available: self.available, held: h, locked: true }),
            None => None,
        }
    }

    /// The outcome of a balance change given by `next`: the new account, or
    /// the account unchanged and `Overflow`.
    pub open spec fn changed_to(
        old_acc: Account,
        new_acc: Account,
        r: Result<(), ProcessError>,
        next: Option<Account>,
    ) -> bool {
        match next {
            Some(a) => r is Ok && new_acc == a,
            None => r == Err::<(), ProcessError>(ProcessError::Overflow) && new_acc == old_acc,
        }
    }

    /// A new account: zero balances, unlocked.
    pub fn new() -> (r: Account)
        ensures
            r == Account::zero_spec(),
            r.wf(),
    {
        Account { available: Amount::zero(), held: Amount::zero(), locked: false }
    }

    /// `available + held`, or `None` where the sum overflows.
    pub fn total(&self) -> (r: Option<Amount>)
        requires
            self.wf(),
        ensures
            r == crate::amount::decimal_sum(self.available, self.held),
    {
        self.available.checked_add(self.held)
    }

    /// Adds `val` to the available funds for a deposit, subtracts it for a
    /// withdrawal.
    pub fn modify_available(&mut self, val: &Amount, record_kind: &RecordKind) -> (r: Result<
        (),
        ProcessError,
    >)
        requires
            old(self).wf(),
            val.wf(),
        ensures
            final(self).wf(),
            Account::changed_to(
                *old(self),
                *final(self),
                r,
                old(self).available_shifted(*val, *record_kind),
            ),
    {
        let next = match record_kind {
            RecordKind::Deposit => self.available.checked_add(*val),
            RecordKind::Withdrawal => self.available.checked_sub(*val),
        };
        match next {
            Some(a) => {
                self.available = a;
                Ok(())
            },
            None => Err(ProcessError::Overflow),
        }
    }

    /// Adds `val` to the held funds for a deposit, subtracts it for a
    /// withdrawal.
    pub fn modify_held(&mut self, val: &Amount, record_kind: &RecordKind) -> (r: Result<
        (),
        ProcessError,
    >)
        requires
            old(self).wf(),
            val.wf(),
        ensures
            final(self).wf(),
            Account::changed_to(
                *old(self),
                *final(self),
                r,
                old(self).held_shifted(*val, *record_kind),
            ),
    {
        let next = match record_kind {
            RecordKind::Deposit => self.held.checked_add(*val),
            RecordKind::Withdrawal => self.held.checked_sub(*val),
        };
        match next {
            Some(h) => {
                self.held = h;
                Ok(())
            },
            None => Err(ProcessError::Overflow),
        }
    }

    /// Moves `val` between available and held; both change or neither.
    fn move_funds(&mut self, val: &Amount, to_held: bool) -> (r: Result<(), ProcessError>)
        requires
            old(self).wf(),
            val.wf(),
        ensures
            final(self).wf(),
            Account::changed_to(*old(self), *final(self), r, old(self).moved(*val, to_held)),
    {
        let a = if to_held {
            self.available.checked_sub(*val)
        } else {
            self.available.checked_add(*val)
        };
        let h = if to_held {
            self.held.checked_add(*val)
        } else {
            self.held.checked_sub(*val)
        };
        match (a, h) {
            (Some(a), Some(h)) => {
                self.available = a;
                self.held = h;
                Ok(())
            },
            _ => Err(ProcessError::Overflow),
        }
    }

    /// Puts a disputed record's funds on hold: a deposit moves from
    /// available to held, a withdrawal from held back to available.
    pub fn dispute_funds(&mut self, val: &Amount, record_kind: &RecordKind) -> (r: Result<
        (),
        ProcessError,
    >)
        requires
            old(self).wf(),
            val.wf(),
        ensures
            final(self).wf(),
            Account::changed_to(
                *old(self),
                *final(self),
                r,
                old(self).disputed_spec(*val, *record_kind),
            ),
    {
        match record_kind {
            RecordKind::Deposit => self.move_funds(val, true),
            RecordKind::Withdrawal => self.move_funds(val, false),
        }
    }

    /// Undoes `dispute_funds` for the same record.
    pub fn resolve_funds(&mut self, val: &Amount, record_kind: &RecordKind) -> (r: Result<
        (),
        ProcessError,
    >)
        requires
            old(self).wf(),
            val.wf(),
        ensures
            final(self).wf(),
            Account::changed_to(
                *old(self),
                *final(self),
                r,
                old(self).resolved_spec(*val, *record_kind),
            ),
    {
        match record_kind {
            RecordKind::Deposit => self.move_funds(val, false),
            RecordKind::Withdrawal => self.move_funds(val, true),
        }
    }

    /// Removes a disputed deposit from held (adds back a disputed
    /// withdrawal) and locks the account.
    pub fn chargeback_funds(&mut self, val: &Amount, record_kind: &RecordKind) -> (r: Result<
        (),
        ProcessError,
    >)
        requires
            old(self).wf(),
            val.wf(),
        ensures
            final(self).wf(),
            Account::changed_to(
                *old(self),
                *final(self),
                r,
                old(self).charged_back_spec(*val, *record_kind),
            ),
    {
        let h = match record_kind {
            RecordKind::Deposit => self.held.checked_sub(*val),
            RecordKind::Withdrawal => self.held.checked_add(*val),
        };
        match h {
            Some(h) => {
                self.held = h;
                self.lock();
                Ok(())
            },
            None => Err(ProcessError::Overflow),
        }
    }

    pub fn available(&self) -> (r: Amount)
        ensures
            r == self.available,
    {
        self.available
    }

    pub fn held(&self) -> (r: Amount)
        ensures
            r == self.held,
    {
        self.held
    }

    pub fn locked(&self) -> (r: bool)
        ensures
            r == self.locked,
    {
        self.locked
    }

    pub fn lock(&mut self)
        ensures
            *final(self) == (Account { locked: true, ..*old(self) }),
    {
        self.locked = true;
    }

    pub fn unlock(&mut self)
        ensures
            *final(self) == (Account { locked: false, ..*old(self) }),
    {
        self.locked = false;
    }
}

/// A deposit or withdrawal as the ledger keeps it. Only the dispute flags
/// change after creation: not disputed, then disputed, then finished.
#[derive(Clone, Copy, Debug)]
pub struct TxRecord {
    pub client: ClientId,
    pub amount: Amount,
    pub disputed: bool,
    pub dispute_finished: bool,
    pub kind: RecordKind,
}

impl TxRecord {
    pub open spec fn wf(self) -> bool {
        self.amount.wf()
    }

    /// A dispute is open on the record: disputed and neither resolved nor
    /// charged back.
    pub open spec fn under_dispute(self) -> bool {
        self.disputed && !self.dispute_finished
    }

    pub fn new(client: ClientId, amount: Amount, disputed: bool, kind: RecordKind) -> (r: TxRecord)
        ensures
            r == (TxRecord { client, amount, disputed, dispute_finished: false, kind }),
    {
        TxRecord { client, amount, disputed, dispute_finished: false, kind }
    }

    pub fn client(&self) -> (r: ClientId)
        ensures
            r == self.client,
    {
        self.client
    }

    pub fn amount(&self) -> (r: Amount)
        ensures
            r == self.amount,
    {
        self.amount
    }

    pub fn disputed(&self) -> (r: bool)
        ensures
            r == self.disputed,
    {
        self.disputed
    }

    pub fn dispute_finished(&self) -> (r: bool)
        ensures
            r == self.dispute_finished,
    {
        self.dispute_finished
    }

    pub fn kind(&self) -> (r: RecordKind)
        ensures
            r == self.kind,
    {
        self.kind
    }

    pub fn modify_disputed(&mut self, val: bool)
        ensures
            *final(self) == (TxRecord { disputed: val, ..*old(self) }),
    {
        self.disputed = val;
    }

    pub fn finish_dispute(&mut self)
        ensures
            *final(self) == (TxRecord { dispute_finished: true, ..*old(self) }),
    {
        self.dispute_finished = true;
    }
}

} // verus!
