//! Properties of the wallet's state machine that hold across operations.
use vstd::prelude::*;
use crate::values::{zero_bytes, Address, U256};
use crate::wallet::{
    deployed_state, deposit_outcome, extend_lock_outcome, init_outcome, is_initialized,
    withdraw_outcome, Deposit, WalletError, WalletState,
    Withdrawal,
};

verus! {

/// A wallet without an owner still has unlock time zero. Every state that
/// real callers (never the zero identity) can reach satisfies this.
pub open spec fn unset_owner_has_zero_unlock(s: WalletState) -> bool {
    !is_initialized(s) ==> s.unlock_time == 0
}

/// Before initialization, `deposit`, `withdraw` and `extend_lock` all fail
/// with `NotInitialized` and change nothing, and the owner reads as the zero
/// identity.
pub proof fn lemma_uninitialized_refuses(
    s: WalletState,
    caller: Address,
    amount: U256,
    now: nat,
    to: Address,
    balance: U256,
    new_unlock: nat,
)
    requires
        !is_initialized(s),
    ensures
        deposit_outcome(s, caller, amount) == Err::<Deposit, WalletError>(
            WalletError::NotInitialized,
        ),
        withdraw_outcome(s, caller@, now, to, balance) == Err::<Withdrawal, WalletError>(
            WalletError::NotInitialized,
        ),
        extend_lock_outcome(s, caller@, new_unlock) == (
            Err::<(), WalletError>(WalletError::NotInitialized),
            s,
        ),
        s.owner == zero_bytes(),
{
}

/// A deployed wallet has unlock time zero, and `init` by a non-zero caller
/// and `extend_lock` keep "no owner means unlock time zero" true: so the
/// unlock time reads zero for as long as the wallet has no owner.
pub proof fn lemma_zero_unlock_until_initialized(
    s: WalletState,
    caller: Seq<u8>,
    unlock_time: nat,
    new_unlock: nat,
)
    requires
        unset_owner_has_zero_unlock(s),
        caller != zero_bytes(),
    ensures
        unset_owner_has_zero_unlock(deployed_state()),
        deployed_state().unlock_time == 0,
        unset_owner_has_zero_unlock(init_outcome(s, caller, unlock_time).1),
        unset_owner_has_zero_unlock(extend_lock_outcome(s, caller, new_unlock).1),
{
}

/// `init` by a non-zero caller succeeds on an uninitialized wallet; any later
/// `init`, by anyone, fails with `AlreadyInitialized` and changes nothing.
pub proof fn lemma_init_succeeds_once(
    s: WalletState,
    first: Seq<u8>,
    first_time: nat,
    later: Seq<u8>,
    later_time: nat,
)
    requires
        !is_initialized(s),
        first != zero_bytes(),
    ensures
        init_outcome(s, first, first_time).0 == Ok::<(), WalletError>(()),
        is_initialized(init_outcome(s, first, first_time).1),
        init_outcome(init_outcome(s, first, first_time).1, later, later_time) == (
            Err::<(), WalletError>(WalletError::AlreadyInitialized),
            init_outcome(s, first, first_time).1,
        ),
{
}

/// Once set, the owner never changes: every operation on an initialized
/// wallet keeps its owner, so it stays initialized and `init` keeps failing.
pub proof fn lemma_owner_is_permanent(
    s: WalletState,
    caller: Seq<u8>,
    unlock_time: nat,
    new_unlock: nat,
)
    requires
        is_initialized(s),
    ensures
        init_outcome(s, caller, unlock_time) == (
            Err::<(), WalletError>(WalletError::AlreadyInitialized),
            s,
        ),
        extend_lock_outcome(s, caller, new_unlock).1.owner == s.owner,
{
}

/// After a successful `init(t)` by `caller`, the owner is `caller` and the
/// unlock time is `t`.
pub proof fn lemma_init_sets_owner_and_time(s: WalletState, caller: Seq<u8>, t: nat)
    requires
        !is_initialized(s),
    ensures
        init_outcome(s, caller, t).1.owner == caller,
        init_outcome(s, caller, t).1.unlock_time == t,
{
}

/// `withdraw` by anyone but the owner of an initialized wallet fails with
/// `NotOwner`, whatever the time and the balance: nothing is transferred.
pub proof fn lemma_withdraw_by_stranger(
    s: WalletState,
    caller: Seq<u8>,
    now: nat,
    to: Address,
    balance: U256,
)
    requires
        is_initialized(s),
        caller != s.owner,
    ensures
        withdraw_outcome(s, caller, now, to, balance) == Err::<Withdrawal, WalletError>(
            WalletError::NotOwner,
        ),
{
}

/// `withdraw` by the owner before the unlock time fails with `FundsLocked`:
/// nothing is transferred.
pub proof fn lemma_withdraw_while_locked(s: WalletState, now: nat, to: Address, balance: U256)
    requires
        is_initialized(s),
        now < s.unlock_time,
    ensures
        withdraw_outcome(s, s.owner, now, to, balance) == Err::<Withdrawal, WalletError>(
            WalletError::FundsLocked,
        ),
{
}

/// `withdraw` by the owner at or after the unlock time, from an empty pool,
/// fails with `ZeroBalance`.
pub proof fn lemma_withdraw_empty_pool(s: WalletState, now: nat, to: Address, balance: U256)
    requires
        is_initialized(s),
        s.unlock_time <= now,
        balance@ == 0,
    ensures
        withdraw_outcome(s, s.owner, now, to, balance) == Err::<Withdrawal, WalletError>(
            WalletError::ZeroBalance,
        ),
{
}

/// `withdraw` by the owner at or after the unlock time, from a pool holding
/// `balance > 0`, pays exactly `balance` to `to`, which leaves the pool empty.
pub proof fn lemma_withdraw_drains_pool(s: WalletState, now: nat, to: Address, balance: U256)
    requires
        is_initialized(s),
        s.unlock_time <= now,
        balance@ > 0,
    ensures
        withdraw_outcome(s, s.owner, now, to, balance) == Ok::<Withdrawal, WalletError>(
            Withdrawal { to, amount: balance },
        ),
        balance@ - withdraw_outcome(s, s.owner, now, to, balance)->Ok_0.amount@ == 0,
{
}

/// `extend_lock(new_unlock)` by a non-zero caller succeeds exactly when the
/// caller is the owner and `new_unlock` is later than the unlock time; then
/// the unlock time becomes `new_unlock`, and otherwise nothing changes.
pub proof fn lemma_extend_lock_iff(s: WalletState, caller: Seq<u8>, new_unlock: nat)
    requires
        caller != zero_bytes(),
    ensures
        (extend_lock_outcome(s, caller, new_unlock).0 is Ok) <==> (caller == s.owner
            && new_unlock > s.unlock_time),
        extend_lock_outcome(s, caller, new_unlock).0 is Ok ==> extend_lock_outcome(
            s,
            caller,
            new_unlock,
        ).1 == (WalletState { owner: s.owner, unlock_time: new_unlock }),
        extend_lock_outcome(s, caller, new_unlock).0 is Err ==> extend_lock_outcome(
            s,
            caller,
            new_unlock,
        ).1 == s,
{
}

/// No operation moves the unlock time earlier, in any state reachable by
/// real callers: `extend_lock` only moves it later, and `init` sets it only
/// while it is still zero. (`deposit` and `withdraw` do not touch the state.)
pub proof fn lemma_unlock_never_decreases(
    s: WalletState,
    caller: Seq<u8>,
    unlock_time: nat,
    new_unlock: nat,
)
    requires
        unset_owner_has_zero_unlock(s),
    ensures
        init_outcome(s, caller, unlock_time).1.unlock_time >= s.unlock_time,
        extend_lock_outcome(s, caller, new_unlock).1.unlock_time >= s.unlock_time,
{
}

/// `deposit` of any amount by any caller into an initialized wallet succeeds
/// and announces exactly that caller and amount.
pub proof fn lemma_deposit_always_accepted(s: WalletState, caller: Address, amount: U256)
    requires
        is_initialized(s),
    ensures
        deposit_outcome(s, caller, amount) == Ok::<Deposit, WalletError>(
            Deposit { from: caller, amount },
        ),
{
}

} // verus!
