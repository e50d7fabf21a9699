//! A host that runs registry operations as units of work: the registry's
//! change is buffered, its fee instruction is executed against the token
//! ledger, and the change is committed only if the fee was paid. A failed
//! invocation leaves both ledgers exactly as they were.

use vstd::prelude::*;
use crate::bond::{BondChange, BondError, BondRegistry, ExecuteMsg};
use crate::token::{TokenError, TokenLedger};

verus! {

#[derive(Debug, PartialEq, Eq, Clone, Copy, Structural)]
pub enum InvocationError {
    /// The registry rejected the operation.
    Bond(BondError),
    /// The fee instruction failed at the token ledger.
    Fee(TokenError),
    /// The fee instruction is addressed to a contract this host does not run.
    UnknownContract,
}

/// One registry and one token ledger, run together.
pub struct Host {
    pub registry: BondRegistry,
    pub ledger: TokenLedger,
    /// The address under which `ledger` is reachable.
    pub ledger_address: String,
    /// The registry's own identity at the ledger; fees are paid from it.
    pub registry_account: String,
}

impl Host {
    pub open spec fn wf(&self) -> bool {
        self.registry.wf() && self.ledger.wf()
    }

    pub open spec fn spec_execute_bond(&self, sender: String, now: u64, msg: ExecuteMsg) -> Result<u64, InvocationError> {
        match self.registry.spec_prepare(sender, now, msg) {
            Err(e) => Err(InvocationError::Bond(e)),
            Ok(c) => if c.fee.contract@ != self.ledger_address@ {
                Err(InvocationError::UnknownContract)
            } else {
                match self.ledger.transfer_result(self.registry_account@, c.fee.amount) {
                    Err(e) => Err(InvocationError::Fee(e)),
                    Ok(_) => Ok(c.bond_id),
                }
            },
        }
    }

    /// `self` is `old` after the change `c` was committed and its fee paid.
    pub open spec fn settled_from(&self, old: Host, c: BondChange) -> bool {
        &&& self.ledger_address == old.ledger_address
        &&& self.registry_account == old.registry_account
        &&& self.registry.committed_from(old.registry, c)
        &&& self.ledger.transferred_from(old.ledger, old.registry_account@, c.fee.recipient@, c.fee.amount)
    }

    /// Runs one registry message from `sender` at `now` together with its fee
    /// instruction, and returns the bond id concerned. Either both the
    /// registry's change and the fee transfer take effect, or neither does.
    pub fn execute_bond(&mut self, sender: &String, now: u64, msg: ExecuteMsg) -> (r: Result<u64, InvocationError>)
        requires
            old(self).wf(),
        ensures
            final(self).wf(),
            r == old(self).spec_execute_bond(*sender, now, msg),
            r is Err ==> *final(self) == *old(self),
            old(self).registry.spec_prepare(*sender, now, msg) matches Ok(c) ==> (
                c.fee.contract@ == old(self).ledger_address@
                && old(self).ledger.balance_of(old(self).registry_account@) < c.fee.amount
                ==> r == Err::<u64, InvocationError>(InvocationError::Fee(TokenError::InsufficientFunds))
                    && *final(self) == *old(self)),
            r is Ok ==> (old(self).registry.spec_prepare(*sender, now, msg) matches Ok(c)
                && final(self).settled_from(*old(self), c)),
    {
        let change = match self.registry.prepare(sender, now, msg) {
            Ok(c) => c,
            Err(e) => return Err(InvocationError::Bond(e)),
        };
        if !change.fee.contract.eq(&self.ledger_address) {
            return Err(InvocationError::UnknownContract);
        }
        let recipient = change.fee.recipient.clone();
        match self.ledger.execute_transfer(&self.registry_account, recipient, change.fee.amount) {
            Ok(()) => {},
            Err(e) => return Err(InvocationError::Fee(e)),
        }
        let id = change.bond_id;
        self.registry.commit(change);
        Ok(id)
    }
}

} // verus!
