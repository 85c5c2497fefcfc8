//! Liquidity vaults: one per market maker and token.

use vstd::prelude::*;
use crate::errors::{carried_out, ErrorCode};
use crate::state::pubkey::Pubkey;

verus! {

/// A market maker's custody record for one token.
///
/// `available_liquidity` can be withdrawn or locked; `locked_liquidity` backs
/// open positions; `total_deposited` counts everything ever deposited.
#[derive(Clone, Copy, Debug, PartialEq, Eq)]
pub struct MarketMakerVault {
    /// Key of the market maker that owns this vault.
    pub market_maker: Pubkey,
    /// Mint of the token held.
    pub asset_mint: Pubkey,
    /// Key of the token account that holds the funds.
    pub vault_token_account: Pubkey,
    pub total_deposited: u64,
    pub available_liquidity: u64,
    pub locked_liquidity: u64,
    pub bump: u8,
    pub vault_bump: u8,
}

/// One change to a vault's balances.
#[derive(Clone, Copy, Debug, PartialEq, Eq, Structural)]
pub enum VaultOp {
    /// Funds arrive from the owner.
    Deposit(u64),
    /// Available funds leave the vault.
    Withdraw(u64),
    /// Available funds are set aside for a position.
    Lock(u64),
    /// Funds set aside for a position are released from the books.
    Unlock(u64),
}

impl MarketMakerVault {
    /// The accounting invariant: what is available and what is locked never
    /// exceed together what was deposited.
    pub open spec fn wf(self) -> bool {
        self.available_liquidity + self.locked_liquidity <= self.total_deposited
    }

    /// What `op` does to this vault: the vault afterwards, or the error with
    /// which the operation is refused.
    pub open spec fn outcome(self, op: VaultOp) -> Result<MarketMakerVault, ErrorCode> {
        match op {
            VaultOp::Deposit(amount) => {
                if self.total_deposited + amount > u64::MAX || self.available_liquidity + amount
                    > u64::MAX {
                    Err(ErrorCode::MathOverflow)
                } else {
                    Ok(
                        MarketMakerVault {
                            total_deposited: (self.total_deposited + amount) as u64,
                            available_liquidity: (self.available_liquidity + amount) as u64,
                            ..self
                        },
                    )
                }
            },
            VaultOp::Withdraw(amount) => {
                if amount > self.available_liquidity {
                    Err(ErrorCode::InsufficientLiquidity)
                } else {
                    Ok(
                        MarketMakerVault {
                            available_liquidity: (self.available_liquidity - amount) as u64,
                            ..self
                        },
                    )
                }
            },
            VaultOp::Lock(amount) => {
                if amount > self.available_liquidity {
                    Err(ErrorCode::InsufficientLiquidity)
                } else if self.locked_liquidity + amount > u64::MAX {
                    Err(ErrorCode::MathOverflow)
                } else {
                    Ok(
                        MarketMakerVault {
                            available_liquidity: (self.available_liquidity - amount) as u64,
                            locked_liquidity: (self.locked_liquidity + amount) as u64,
                            ..self
                        },
                    )
                }
            },
            VaultOp::Unlock(amount) => {
                if amount > self.locked_liquidity {
                    Err(ErrorCode::MathOverflow)
                } else {
                    Ok(
                        MarketMakerVault {
                            locked_liquidity: (self.locked_liquidity - amount) as u64,
                            ..self
                        },
                    )
                }
            },
        }
    }

    /// The vault once `op` has been tried: changed if accepted, as before if
    /// refused.
    pub open spec fn after(self, op: VaultOp) -> MarketMakerVault {
        match self.outcome(op) {
            Ok(vault) => vault,
            Err(_) => self,
        }
    }

    /// The vault once every operation of `ops` has been tried in order.
    pub open spec fn after_all(self, ops: Seq<VaultOp>) -> MarketMakerVault
        decreases ops.len(),
    {
        if ops.len() == 0 {
            self
        } else {
            self.after_all(ops.drop_last()).after(ops.last())
        }
    }

    /// The accounting of a deposit: adds `amount` to the deposited and the
    /// available balance. Refused with `MathOverflow` if either would leave
    /// the range of `u64`.
    pub fn deposit(&mut self, amount: u64) -> (r: Result<(), ErrorCode>)
        ensures
            carried_out(old(self).outcome(VaultOp::Deposit(amount)), *old(self), *final(self), r),
            old(self).wf() ==> final(self).wf(),
    {
        let total = match self.total_deposited.checked_add(amount) {
            Some(total) => total,
            None => { return Err(ErrorCode::MathOverflow); },
        };
        let available = match self.available_liquidity.checked_add(amount) {
            Some(available) => available,
            None => { return Err(ErrorCode::MathOverflow); },
        };
        self.total_deposited = total;
        self.available_liquidity = available;
        Ok(())
    }

    /// The accounting of a withdrawal: takes `amount` out of the available
    /// balance. Refused with `InsufficientLiquidity` if `amount` exceeds it.
    pub fn withdraw(&mut self, amount: u64) -> (r: Result<(), ErrorCode>)
        ensures
            carried_out(old(self).outcome(VaultOp::Withdraw(amount)), *old(self), *final(self), r),
            old(self).wf() ==> final(self).wf(),
    {
        if amount > self.available_liquidity {
            return Err(ErrorCode::InsufficientLiquidity);
        }
        self.available_liquidity = self.available_liquidity - amount;
        Ok(())
    }

    /// Moves `amount` from the available to the locked balance, when a
    /// position is opened. Refused with `InsufficientLiquidity` if `amount`
    /// exceeds the available balance, and with `MathOverflow` if the locked
    /// balance would leave the range of `u64`.
    pub(crate) fn lock(&mut self, amount: u64) -> (r: Result<(), ErrorCode>)
        ensures
            carried_out(old(self).outcome(VaultOp::Lock(amount)), *old(self), *final(self), r),
            old(self).wf() ==> final(self).wf(),
    {
        if amount > self.available_liquidity {
            return Err(ErrorCode::InsufficientLiquidity);
        }
        let locked = match self.locked_liquidity.checked_add(amount) {
            Some(locked) => locked,
            None => { return Err(ErrorCode::MathOverflow); },
        };
        self.available_liquidity = self.available_liquidity - amount;
        self.locked_liquidity = locked;
        Ok(())
    }

    /// Takes `amount` out of the locked balance, when a position is settled;
    /// the funds have left for the position's escrow and do not come back as
    /// available. An `amount` above the locked balance means the books are
    /// broken: it is refused with `MathOverflow`.
    pub(crate) fn unlock(&mut self, amount: u64) -> (r: Result<(), ErrorCode>)
        ensures
            carried_out(old(self).outcome(VaultOp::Unlock(amount)), *old(self), *final(self), r),
            old(self).wf() ==> final(self).wf(),
    {
        if amount > self.locked_liquidity {
            return Err(ErrorCode::MathOverflow);
        }
        self.locked_liquidity = self.locked_liquidity - amount;
        Ok(())
    }
}

/// No deposit, withdrawal, lock or unlock, accepted or refused, breaks the
/// accounting invariant of a vault.
pub proof fn lemma_vault_op_keeps_invariant(vault: MarketMakerVault, op: VaultOp)
    requires
        vault.wf(),
    ensures
        vault.after(op).wf(),
{
}

/// Across any sequence of deposits, withdrawals, locks and unlocks, what is
/// available and what is locked never exceed together what was deposited.
pub proof fn lemma_vault_invariant_holds_always(vault: MarketMakerVault, ops: Seq<VaultOp>)
    requires
        vault.wf(),
    ensures
        vault.after_all(ops).wf(),
    decreases ops.len(),
{
    if ops.len() > 0 {
        lemma_vault_invariant_holds_always(vault, ops.drop_last());
        lemma_vault_op_keeps_invariant(vault.after_all(ops.drop_last()), ops.last());
    }
}

} // verus!
