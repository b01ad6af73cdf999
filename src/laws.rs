//! Properties of the state machine that relate several events or hold of
//! every state.

use crate::amount::{decimal_sum, Amount};
use crate::model::{ClientId, ProcessError, TxEvent, TxId};
use crate::processor::{
    chargeback_step, deposit_step, dispute_step, resolve_step, step, withdrawal_step, State,
};
use vstd::prelude::*;

verus! {

/// A dispute on a record that is already disputed (or finished) changes
/// nothing.
pub proof fn lemma_dispute_on_disputed_is_noop(s: State, tx: TxId)
    requires
        s.1.contains_key(tx),
        s.1[tx].disputed,
    ensures
        dispute_step(s, tx) == Ok::<State, ProcessError>(s),
{
}

/// A resolve or a chargeback on a record whose dispute is finished changes
/// nothing.
pub proof fn lemma_finished_dispute_is_final(s: State, tx: TxId)
    requires
        s.1.contains_key(tx),
        s.1[tx].dispute_finished,
    ensures
        resolve_step(s, tx) == Ok::<State, ProcessError>(s),
        chargeback_step(s, tx) == Ok::<State, ProcessError>(s),
{
}

/// Repeating a dispute, resolve or chargeback that succeeded changes
/// nothing more.
pub proof fn lemma_repeat_is_noop(s: State, ev: TxEvent)
    requires
        ev.kind is Dispute || ev.kind is Resolve || ev.kind is Chargeback,
        step(s, ev) is Ok,
    ensures
        step(step(s, ev)->Ok_0, ev) == Ok::<State, ProcessError>(step(s, ev)->Ok_0),
{
    let n = step(s, ev)->Ok_0;
    if s.1.contains_key(ev.tx) {
        let rec = s.1[ev.tx];
        assert(n.1.contains_key(ev.tx));
        if ev.kind is Dispute {
            assert(n.1[ev.tx].disputed || n == s);
        } else {
            assert(!n.1[ev.tx].under_dispute() || n == s);
        }
    }
}

/// A deposit into a locked account still adds to its available funds.
pub proof fn lemma_locked_deposit_credits(s: State, client: ClientId, tx: TxId, amount: Amount)
    requires
        s.0.contains_key(client),
        s.0[client].locked,
    ensures
        match decimal_sum(s.0[client].available, amount) {
            Some(v) => deposit_step(s, client, tx, amount) matches Ok(n) && n.0[client].available
                == v && n.0[client].held == s.0[client].held && n.0[client].locked,
            None => deposit_step(s, client, tx, amount) is Err,
        },
{
}

/// A withdrawal from a locked account never changes it.
pub proof fn lemma_locked_withdrawal_ignored(s: State, client: ClientId, tx: TxId, amount: Amount)
    requires
        s.0.contains_key(client),
        s.0[client].locked,
    ensures
        withdrawal_step(s, client, tx, amount) matches Ok(n) && n.0 == s.0,
{
    assert(s.0.insert(client, s.0[client]) =~= s.0);
}

/// On a locked account a dispute, resolve or chargeback moves no funds,
/// yet the record's dispute advances.
pub proof fn lemma_locked_dispute_lifecycle(s: State, tx: TxId)
    requires
        s.1.contains_key(tx),
        s.0.contains_key(s.1[tx].client),
        s.0[s.1[tx].client].locked,
    ensures
        dispute_step(s, tx) matches Ok(n) && n.0 == s.0 && n.1[tx].disputed,
        resolve_step(s, tx) matches Ok(n) && n.0 == s.0 && (s.1[tx].under_dispute()
            ==> n.1[tx].dispute_finished),
        chargeback_step(s, tx) matches Ok(n) && n.0 == s.0 && (s.1[tx].under_dispute()
            ==> n.1[tx].dispute_finished),
{
}

} // verus!
