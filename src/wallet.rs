//! The wallet's state machine: who owns it, until when its funds are locked,
//! and what each operation decides on a given state and call.
use vstd::prelude::*;
use crate::values::{zero_bytes, Address, U256};

verus! {

/// Why an operation was refused. Each kind carries no payload.
#[derive(Clone, Copy, Debug, PartialEq, Eq, Structural)]
pub enum WalletError {
    NotOwner,
    FundsLocked,
    ZeroBalance,
    AlreadyInitialized,
    NotInitialized,
}

/// Notification of a deposit: who sent it and how much was attached.
#[derive(Clone, Copy, Debug, PartialEq, Eq)]
pub struct Deposit {
    pub from: Address,
    pub amount: U256,
}

/// A payout: the whole pool goes to `to`, and the same pair is announced.
#[derive(Clone, Copy, Debug, PartialEq, Eq)]
pub struct Withdrawal {
    pub to: Address,
    pub amount: U256,
}

/// The stored state of a wallet as mathematical values.
pub struct WalletState {
    pub owner: Seq<u8>,
    pub unlock_time: nat,
}

/// The state of a freshly deployed wallet: no owner, unlock time zero.
pub open spec fn deployed_state() -> WalletState {
    WalletState { owner: zero_bytes(), unlock_time: 0 }
}

/// A wallet is initialized once its owner is not the zero identity.
pub open spec fn is_initialized(s: WalletState) -> bool {
    s.owner != zero_bytes()
}

/// `init`: the first call sets the owner to the caller and the unlock time.
pub open spec fn init_outcome(s: WalletState, caller: Seq<u8>, unlock_time: nat) -> (
    Result<(), WalletError>,
    WalletState,
) {
    if is_initialized(s) {
        (Err(WalletError::AlreadyInitialized), s)
    } else {
        (Ok(()), WalletState { owner: caller, unlock_time })
    }
}

/// `deposit`: anyone may deposit into an initialized wallet, any amount.
pub open spec fn deposit_outcome(s: WalletState, caller: Address, amount: U256) -> Result<
    Deposit,
    WalletError,
> {
    if !is_initialized(s) {
        Err(WalletError::NotInitialized)
    } else {
        Ok(Deposit { from: caller, amount })
    }
}

/// The guards of `withdraw` that come before the pool balance is read,
/// in the order in which they are checked.
pub open spec fn withdraw_check_outcome(s: WalletState, caller: Seq<u8>, now: nat) -> Result<
    (),
    WalletError,
> {
    if !is_initialized(s) {
        Err(WalletError::NotInitialized)
    } else if caller != s.owner {
        Err(WalletError::NotOwner)
    } else if now < s.unlock_time {
        Err(WalletError::FundsLocked)
    } else {
        Ok(())
    }
}

/// The last step of `withdraw`: an empty pool is refused, else all of it goes.
pub open spec fn payout_outcome(to: Address, balance: U256) -> Result<Withdrawal, WalletError> {
    if balance@ == 0 {
        Err(WalletError::ZeroBalance)
    } else {
        Ok(Withdrawal { to, amount: balance })
    }
}

/// `withdraw`: the guards, then the payout of the pool balance.
pub open spec fn withdraw_outcome(
    s: WalletState,
    caller: Seq<u8>,
    now: nat,
    to: Address,
    balance: U256,
) -> Result<Withdrawal, WalletError> {
    match withdraw_check_outcome(s, caller, now) {
        Err(e) => Err(e),
        Ok(_) => payout_outcome(to, balance),
    }
}

/// `extend_lock`: the owner may move the unlock time strictly later.
pub open spec fn extend_lock_outcome(s: WalletState, caller: Seq<u8>, new_unlock: nat) -> (
    Result<(), WalletError>,
    WalletState,
) {
    if !is_initialized(s) {
        (Err(WalletError::NotInitialized), s)
    } else if caller != s.owner {
        (Err(WalletError::NotOwner), s)
    } else if new_unlock <= s.unlock_time {
        (Err(WalletError::FundsLocked), s)
    } else {
        (Ok(()), WalletState { owner: s.owner, unlock_time: new_unlock })
    }
}

/// A time-locked wallet with a single owner.
pub struct TimelockWallet {
    owner: Address,
    unlock_timestamp: U256,
}

impl View for TimelockWallet {
    type V = WalletState;

    closed spec fn view(&self) -> WalletState {
        WalletState { owner: self.owner@, unlock_time: self.unlock_timestamp@ }
    }
}

impl TimelockWallet {
    /// A wallet as deployed: no owner yet and unlock time zero.
    pub fn new() -> (r: TimelockWallet)
        ensures
            r@ == deployed_state(),
    {
        TimelockWallet { owner: Address::zero(), unlock_timestamp: U256::zero() }
    }

    /// The wallet whose stored owner and unlock time are the given values.
    pub fn from_stored(owner: Address, unlock_timestamp: U256) -> (r: TimelockWallet)
        ensures
            r@ == (WalletState { owner: owner@, unlock_time: unlock_timestamp@ }),
    {
        TimelockWallet { owner, unlock_timestamp }
    }

    /// Makes `caller` the owner and sets the unlock time, once.
    pub fn init(&mut self, caller: Address, unlock_timestamp: U256) -> (r: Result<(), WalletError>)
        ensures
            (r, final(self)@) == init_outcome(old(self)@, caller@, unlock_timestamp@),
    {
        if !self.owner.is_zero() {
            return Err(WalletError::AlreadyInitialized);
        }
        self.owner = caller;
        self.unlock_timestamp = unlock_timestamp;
        Ok(())
    }

    /// Accepts a deposit of `amount` from `caller` and returns its notification.
    pub fn deposit(&self, caller: Address, amount: U256) -> (r: Result<Deposit, WalletError>)
        ensures
            r == deposit_outcome(self@, caller, amount),
    {
        if self.owner.is_zero() {
            return Err(WalletError::NotInitialized);
        }
        Ok(Deposit { from: caller, amount })
    }

    /// The guards of a withdrawal by `caller` at time `now`, checked before
    /// the pool balance is read.
    pub fn withdraw_check(&self, caller: Address, now: u64) -> (r: Result<(), WalletError>)
        ensures
            r == withdraw_check_outcome(self@, caller@, now as nat),
    {
        if self.owner.is_zero() {
            return Err(WalletError::NotInitialized);
        }
        if !caller.same_as(&self.owner) {
            return Err(WalletError::NotOwner);
        }
        let now = U256::from_u64(now);
        if now.lt(&self.unlock_timestamp) {
            return Err(WalletError::FundsLocked);
        }
        Ok(())
    }

    /// The payout of a pool holding `balance` to `to`, once the guards passed.
    pub fn payout(to: Address, balance: U256) -> (r: Result<Withdrawal, WalletError>)
        ensures
            r == payout_outcome(to, balance),
    {
        if balance.is_zero() {
            return Err(WalletError::ZeroBalance);
        }
        Ok(Withdrawal { to, amount: balance })
    }

    /// Decides a withdrawal of the whole pool `balance` to `to` by `caller`
    /// at time `now`: the transfer to make, or why there is none.
    pub fn withdraw(&self, caller: Address, now: u64, to: Address, balance: U256) -> (r: Result<
        Withdrawal,
        WalletError,
    >)
        ensures
            r == withdraw_outcome(self@, caller@, now as nat, to, balance),
    {
        match self.withdraw_check(caller, now) {
            Err(e) => Err(e),
            Ok(()) => TimelockWallet::payout(to, balance),
        }
    }

    /// Moves the unlock time to the strictly later `new_unlock`, for the owner.
    pub fn extend_lock(&mut self, caller: Address, new_unlock: U256) -> (r: Result<
        (),
        WalletError,
    >)
        ensures
            (r, final(self)@) == extend_lock_outcome(old(self)@, caller@, new_unlock@),
    {
        if self.owner.is_zero() {
            return Err(WalletError::NotInitialized);
        }
        if !caller.same_as(&self.owner) {
            return Err(WalletError::NotOwner);
        }
        if new_unlock.le(&self.unlock_timestamp) {
            return Err(WalletError::FundsLocked);
        }
        self.unlock_timestamp = new_unlock;
        Ok(())
    }

    /// The owner, or the zero identity before initialization.
    pub fn owner(&self) -> (r: Address)
        ensures
            r@ == self@.owner,
    {
        self.owner
    }

    /// The unlock time.
    pub fn unlock_time(&self) -> (r: U256)
        ensures
            r@ == self@.unlock_time,
    {
        self.unlock_timestamp
    }
}

} // verus!
