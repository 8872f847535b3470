use vstd::prelude::*;

use crate::bridge::{
    burn_for_bridge_error, complete_transfer_error, emergency_withdraw_error, BurnForBridge,
    CompleteTransfer, EmergencyWithdraw, FlappyBridge,
};
use crate::error::ErrorCode;
use crate::ledger::{supply_of, Ledger, TokenAccount};

verus! {

/// In every ledger the operations produce, each mint's total supply is the
/// sum of the balances of the accounts that refer to that mint.
pub proof fn lemma_supply_is_sum_of_balances(ledger: &Ledger, m: int)
    requires
        ledger.wf(),
        0 <= m < ledger.mints().len(),
    ensures
        ledger.mints()[m].total_supply as int == supply_of(ledger.accounts(), m),
{
}

/// An authorized mint that would push the account balance or the total
/// supply past the largest 64-bit value is refused as an overflow; `mint`
/// then leaves the ledger as it was.
pub proof fn lemma_mint_overflow_refused(ledger: &Ledger, m: int, a: int, amount: u64, caller: Seq<u8>)
    requires
        ledger.wf(),
        0 <= m < ledger.mints().len(),
        0 <= a < ledger.accounts().len(),
        caller == ledger.mints()[m].authority@,
        ledger.accounts()[a].mint == m,
        ledger.accounts()[a].amount + amount > u64::MAX || ledger.mints()[m].total_supply + amount
            > u64::MAX,
    ensures
        ledger.mint_error(m, a, amount, caller) == Some(ErrorCode::Overflow),
{
}

/// A transfer that would overflow the destination is refused as an overflow,
/// and `transfer` then leaves both balances as they were: no partial debit.
pub proof fn lemma_transfer_overflow_refused(
    ledger: &Ledger,
    from: int,
    to: int,
    amount: u64,
    caller: Seq<u8>,
)
    requires
        0 <= from < ledger.accounts().len(),
        0 <= to < ledger.accounts().len(),
        from != to,
        caller == ledger.accounts()[from].owner@,
        ledger.accounts()[from].mint == ledger.accounts()[to].mint,
        ledger.accounts()[from].amount >= amount,
        ledger.accounts()[to].amount + amount > u64::MAX,
    ensures
        ledger.transfer_error(from, to, amount, caller) == Some(ErrorCode::Overflow),
{
}

proof fn lemma_supply_nonnegative(s: Seq<TokenAccount>, m: int)
    ensures
        supply_of(s, m) >= 0,
    decreases s.len(),
{
    if s.len() > 0 {
        lemma_supply_nonnegative(s.drop_last(), m);
    }
}

proof fn lemma_balance_within_supply(s: Seq<TokenAccount>, i: int, m: int)
    requires
        0 <= i < s.len(),
        s[i].mint == m,
    ensures
        s[i].amount <= supply_of(s, m),
    decreases s.len(),
{
    if i == s.len() - 1 {
        lemma_supply_nonnegative(s.drop_last(), m);
    } else {
        lemma_balance_within_supply(s.drop_last(), i, m);
    }
}

proof fn lemma_two_balances_within_supply(s: Seq<TokenAccount>, i: int, j: int, m: int)
    requires
        0 <= i < s.len(),
        0 <= j < s.len(),
        i != j,
        s[i].mint == m,
        s[j].mint == m,
    ensures
        s[i].amount + s[j].amount <= supply_of(s, m),
    decreases s.len(),
{
    let n = s.len() - 1;
    if i == n {
        lemma_balance_within_supply(s.drop_last(), j, m);
    } else if j == n {
        lemma_balance_within_supply(s.drop_last(), i, m);
    } else {
        lemma_two_balances_within_supply(s.drop_last(), i, j, m);
    }
}

/// In a ledger whose supplies match its balances, a transfer between two
/// accounts of one mint can never overflow the destination: both balances
/// together are bounded by the supply, itself a 64-bit value.
pub proof fn lemma_transfer_never_overflows(ledger: &Ledger, from: int, to: int, amount: u64)
    requires
        ledger.wf(),
        0 <= from < ledger.accounts().len(),
        0 <= to < ledger.accounts().len(),
        from != to,
        ledger.accounts()[from].mint == ledger.accounts()[to].mint,
        ledger.accounts()[from].amount >= amount,
    ensures
        ledger.accounts()[to].amount + amount <= u64::MAX,
{
    let s = ledger.accounts();
    let m = s[from].mint as int;
    lemma_two_balances_within_supply(s, from, to, m);
    assert(ledger.mints()[m].total_supply as int == supply_of(s, m));
}

/// Minting by anyone but the mint authority, and burning by anyone but the
/// account owner, is refused as unauthorized.
pub proof fn lemma_ledger_authorization(ledger: &Ledger, m: int, a: int, amount: u64, caller: Seq<u8>)
    requires
        ledger.wf(),
        0 <= m < ledger.mints().len(),
        0 <= a < ledger.accounts().len(),
    ensures
        caller != ledger.mints()[m].authority@ ==> ledger.mint_error(m, a, amount, caller) == Some(
            ErrorCode::Unauthorized,
        ),
        caller != ledger.accounts()[a].owner@ ==> ledger.burn_error(m, a, amount, caller) == Some(
            ErrorCode::Unauthorized,
        ),
{
}

/// Once the bridge exists, burning for the bridge, completing a transfer and
/// withdrawing in an emergency are refused unless the bridge authority signs.
pub proof fn lemma_bridge_authorization(
    ledger: &Ledger,
    bridge: FlappyBridge,
    burn: BurnForBridge,
    complete: CompleteTransfer,
    withdraw: EmergencyWithdraw,
    amount: u64,
)
    ensures
        burn.authority@ != bridge.authority@ ==> burn_for_bridge_error(
            ledger,
            Some(bridge),
            burn,
            amount,
        ) == Some(ErrorCode::UnauthorizedBridgeAuthority),
        complete.authority@ != bridge.authority@ ==> complete_transfer_error(
            ledger,
            Some(bridge),
            complete,
            amount,
        ) == Some(ErrorCode::UnauthorizedBridgeAuthority),
        withdraw.authority@ != bridge.authority@ ==> emergency_withdraw_error(
            ledger,
            Some(bridge),
            withdraw,
            amount,
        ) == Some(ErrorCode::UnauthorizedBridgeAuthority),
{
}

/// An authorized transfer between existing accounts of different mints is
/// refused as a mint mismatch.
pub proof fn lemma_cross_mint_refused(ledger: &Ledger, from: int, to: int, amount: u64, caller: Seq<u8>)
    requires
        ledger.wf(),
        0 <= from < ledger.accounts().len(),
        0 <= to < ledger.accounts().len(),
        caller == ledger.accounts()[from].owner@,
        ledger.accounts()[from].mint != ledger.accounts()[to].mint,
    ensures
        ledger.transfer_error(from, to, amount, caller) == Some(ErrorCode::MintMismatch),
{
}

} // verus!
