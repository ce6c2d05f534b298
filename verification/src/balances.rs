//! The balances module: an account-to-balance ledger with balance lookup,
//! direct balance assignment for bootstrapping, and a checked, atomic
//! transfer.

use crate::support::{DispatchError, DispatchResult};
use vstd::hash_map::StringHashMap;
use vstd::prelude::*;

verus! {

/// Balance of `account` under ledger `m`: its stored entry, or zero if the
/// account has never been written.
pub open spec fn spec_balance_of(m: Map<Seq<char>, u128>, account: Seq<char>) -> u128 {
    if m.contains_key(account) {
        m[account]
    } else {
        0
    }
}

/// The ledger and dispatch result after transferring `amount` from `caller`
/// to `to` under ledger `m`. Both balances are read and both checks pass
/// before either write: on failure the ledger is unchanged. A self-transfer
/// debits first and credits the debited balance, so it can never overflow
/// and leaves the balance as it was.
pub open spec fn spec_transfer(
    m: Map<Seq<char>, u128>,
    caller: Seq<char>,
    to: Seq<char>,
    amount: u128,
) -> (Map<Seq<char>, u128>, DispatchResult) {
    let caller_balance = spec_balance_of(m, caller);
    if caller_balance < amount {
        (m, Err(DispatchError::InsufficientBalance))
    } else if caller == to {
        (m.insert(caller, caller_balance), Ok(()))
    } else {
        let to_balance = spec_balance_of(m, to);
        if to_balance + amount > u128::MAX {
            (m, Err(DispatchError::Overflow))
        } else {
            (
                m.insert(caller, (caller_balance - amount) as u128).insert(
                    to,
                    (to_balance + amount) as u128,
                ),
                Ok(()),
            )
        }
    }
}

/// Conservation: a successful transfer between two distinct accounts moves
/// value zero-sum — the sum of the two balances after equals the sum
/// before — and touches no other account.
pub proof fn lemma_transfer_conserves(
    m: Map<Seq<char>, u128>,
    caller: Seq<char>,
    to: Seq<char>,
    amount: u128,
)
    requires
        caller != to,
        spec_transfer(m, caller, to, amount).1 is Ok,
    ensures
        spec_balance_of(spec_transfer(m, caller, to, amount).0, caller) + spec_balance_of(
            spec_transfer(m, caller, to, amount).0,
            to,
        ) == spec_balance_of(m, caller) + spec_balance_of(m, to),
        forall|a: Seq<char>|
            a != caller && a != to ==> spec_balance_of(
                spec_transfer(m, caller, to, amount).0,
                a,
            ) == spec_balance_of(m, a),
{
}

/// Self-transfer: transferring any amount up to the balance from an
/// account to itself succeeds and leaves every balance — its own included —
/// unchanged.
pub proof fn lemma_self_transfer_identity(m: Map<Seq<char>, u128>, caller: Seq<char>, amount: u128)
    requires
        amount <= spec_balance_of(m, caller),
    ensures
        spec_transfer(m, caller, caller, amount).1 is Ok,
        forall|a: Seq<char>|
            spec_balance_of(spec_transfer(m, caller, caller, amount).0, a) == spec_balance_of(
                m,
                a,
            ),
{
}

/// An account-to-balance ledger. Absent accounts read as zero; they spring
/// into existence on first write.
pub struct Pallet {
    /// The stored ledger entries; absent entries read as zero.
    balances: StringHashMap<u128>,
}

/// Operations of the balances module that extrinsics may dispatch.
/// `set_balance` is deliberately absent: it is an administrative call made
/// directly by runtime construction code, never by an extrinsic.
pub enum Call {
    /// Move `amount` from the dispatching caller to `to`.
    Transfer { to: String, amount: u128 },
}

impl Clone for Call {
    /// An exact copy: the clone dispatches as the original would.
    fn clone(&self) -> (c: Self)
        ensures
            c == *self,
    {
        match self {
            Call::Transfer { to, amount } => Call::Transfer { to: to.clone(), amount: *amount },
        }
    }
}

impl Pallet {
    /// The ledger as it is stored: only accounts that have been written are
    /// present.
    pub closed spec fn ledger(&self) -> Map<Seq<char>, u128> {
        self.balances@
    }

    /// Balance of `account`: its ledger entry, or zero if absent.
    pub open spec fn balance_of(&self, account: Seq<char>) -> u128 {
        spec_balance_of(self.ledger(), account)
    }

    /// Creates the module with an empty ledger: every account reads as zero.
    pub fn new() -> (p: Pallet)
        ensures
            p.ledger() == Map::<Seq<char>, u128>::empty(),
            forall|a: Seq<char>| p.balance_of(a) == 0,
    {
        Pallet { balances: StringHashMap::new() }
    }

    /// Unconditionally overwrites (or inserts) the balance of `account`.
    /// Administrative: used for genesis-style bootstrapping, and not
    /// conservation-checked.
    pub fn set_balance(&mut self, account: String, amount: u128)
        ensures
            final(self).ledger() == old(self).ledger().insert(account@, amount),
            final(self).balance_of(account@) == amount,
            forall|a: Seq<char>|
                a != account@ ==> final(self).balance_of(a) == old(self).balance_of(a),
    {
        self.balances.insert(account, amount);
    }

    /// Reads the balance of `account`; an account never written reads as
    /// zero.
    pub fn get_balance(&self, account: String) -> (b: u128)
        ensures
            b == self.balance_of(account@),
    {
        match self.balances.get(account.as_str()) {
            Some(b) => *b,
            None => 0,
        }
    }

    /// Transfers `amount` from `caller` to `to` atomically: it fails with
    /// `InsufficientBalance` when the debit would underflow and with
    /// `Overflow` when the credit would overflow, and on either failure
    /// neither balance changes. A self-transfer of at most the balance
    /// succeeds and leaves the balance unchanged. On success with distinct
    /// accounts the two balances move zero-sum and every other account is
    /// untouched.
    pub fn transfer(&mut self, caller: String, to: String, amount: u128) -> (r: DispatchResult)
        ensures
            (final(self).ledger(), r) == spec_transfer(old(self).ledger(), caller@, to@, amount),
            r is Ok <==> (old(self).balance_of(caller@) >= amount && (caller@ == to@
                || old(self).balance_of(to@) + amount <= u128::MAX)),
            r == Err::<(), DispatchError>(DispatchError::InsufficientBalance) <==> old(
                self,
            ).balance_of(caller@) < amount,
            r == Err::<(), DispatchError>(DispatchError::Overflow) <==> (old(self).balance_of(
                caller@,
            ) >= amount && caller@ != to@ && old(self).balance_of(to@) + amount > u128::MAX),
            r is Err ==> forall|a: Seq<char>| final(self).balance_of(a) == old(self).balance_of(a),
            r is Ok && caller@ != to@ ==> final(self).balance_of(caller@) == old(self).balance_of(
                caller@,
            ) - amount && final(self).balance_of(to@) == old(self).balance_of(to@) + amount,
            r is Ok && caller@ != to@ ==> final(self).balance_of(caller@) + final(self).balance_of(
                to@,
            ) == old(self).balance_of(caller@) + old(self).balance_of(to@),
            r is Ok && caller@ == to@ ==> final(self).balance_of(caller@) == old(self).balance_of(
                caller@,
            ),
            forall|a: Seq<char>|
                a != caller@ && a != to@ ==> final(self).balance_of(a) == old(self).balance_of(a),
    {
        let caller_balance = self.get_balance(caller.clone());

        let new_caller_balance = match caller_balance.checked_sub(amount) {
            Some(b) => b,
            None => {
                return Err(DispatchError::InsufficientBalance);
            },
        };

        // A self-transfer credits the balance left after the debit, so the
        // sum never exceeds the original balance and cannot overflow.
        let to_balance = if caller == to {
            new_caller_balance
        } else {
            self.get_balance(to.clone())
        };

        let new_to_balance = match to_balance.checked_add(amount) {
            Some(b) => b,
            None => {
                return Err(DispatchError::Overflow);
            },
        };

        self.balances.insert(caller, new_caller_balance);
        self.balances.insert(to, new_to_balance);

        proof {
            if caller@ == to@ {
                assert(self.ledger() =~= old(self).ledger().insert(
                    caller@,
                    spec_balance_of(old(self).ledger(), caller@),
                ));
            }
        }

        Ok(())
    }

    /// Routes one dispatched call of this module to its method.
    pub fn dispatch(&mut self, caller: String, call: Call) -> (r: DispatchResult)
        ensures
            call matches Call::Transfer { to, amount } ==> (final(self).ledger(), r)
                == spec_transfer(old(self).ledger(), caller@, to@, amount),
    {
        match call {
            Call::Transfer { to, amount } => self.transfer(caller, to, amount),
        }
    }
}

} // verus!
