use vstd::prelude::*;

use crate::error::ErrorCode;
use crate::identity::Identity;

verus! {

/// A fungible asset: its metadata, the identity allowed to mint it, and the
/// number of units in circulation.
#[derive(Clone, Debug)]
pub struct TokenMint {
    pub name: String,
    pub symbol: String,
    pub decimals: u8,
    pub authority: Identity,
    pub total_supply: u64,
}

/// A balance of one mint held by one owner. `mint` is the index of the mint
/// in the ledger and never changes after the account is created.
#[derive(Clone, Copy, Debug, PartialEq, Eq)]
pub struct TokenAccount {
    pub owner: Identity,
    pub mint: usize,
    pub amount: u64,
}

/// Sum of the balances of the accounts in `accounts` that belong to mint `m`.
pub open spec fn supply_of(accounts: Seq<TokenAccount>, m: int) -> int
    decreases accounts.len(),
{
    if accounts.len() == 0 {
        0
    } else {
        supply_of(accounts.drop_last(), m) + if accounts.last().mint == m {
            accounts.last().amount as int
        } else {
            0
        }
    }
}

/// `acc` with its balance replaced by `amount`.
pub open spec fn with_amount(acc: TokenAccount, amount: int) -> TokenAccount {
    TokenAccount { owner: acc.owner, mint: acc.mint, amount: amount as u64 }
}

/// `mint` with its supply replaced by `supply`.
pub open spec fn with_supply(mint: TokenMint, supply: int) -> TokenMint {
    TokenMint {
        name: mint.name,
        symbol: mint.symbol,
        decimals: mint.decimals,
        authority: mint.authority,
        total_supply: supply as u64,
    }
}

/// Replacing one account changes the supply of mint `m` by the difference that
/// the replaced and the new account contribute to it.
proof fn lemma_supply_update(s: Seq<TokenAccount>, i: int, x: TokenAccount, m: int)
    requires
        0 <= i < s.len(),
    ensures
        supply_of(s.update(i, x), m) == supply_of(s, m) - (if s[i].mint == m {
            s[i].amount as int
        } else {
            0
        }) + (if x.mint == m {
            x.amount as int
        } else {
            0
        }),
    decreases s.len(),
{
    if i == s.len() - 1 {
        assert(s.update(i, x).drop_last() =~= s.drop_last());
    } else {
        lemma_supply_update(s.drop_last(), i, x, m);
        assert(s.update(i, x).drop_last() =~= s.drop_last().update(i, x));
    }
}

/// Appending an account adds its balance to the supply of its own mint only.
proof fn lemma_supply_push(s: Seq<TokenAccount>, x: TokenAccount, m: int)
    ensures
        supply_of(s.push(x), m) == supply_of(s, m) + if x.mint == m {
            x.amount as int
        } else {
            0
        },
{
    assert(s.push(x).drop_last() =~= s);
}

/// A mint that no account refers to has no supply.
proof fn lemma_supply_unreferenced(s: Seq<TokenAccount>, m: int)
    requires
        forall|a: int| 0 <= a < s.len() ==> #[trigger] s[a].mint != m,
    ensures
        supply_of(s, m) == 0,
    decreases s.len(),
{
    if s.len() > 0 {
        lemma_supply_unreferenced(s.drop_last(), m);
    }
}

/// All mints and accounts of the ledger. Records are referred to by their
/// index, which stays valid for the lifetime of the ledger.
pub struct Ledger {
    mints: Vec<TokenMint>,
    accounts: Vec<TokenAccount>,
}

impl Ledger {
    pub closed spec fn mints(&self) -> Seq<TokenMint> {
        self.mints@
    }

    pub closed spec fn accounts(&self) -> Seq<TokenAccount> {
        self.accounts@
    }

    /// Every account refers to an existing mint, and every mint's supply is
    /// the sum of the balances of its accounts.
    pub open spec fn wf(&self) -> bool {
        &&& forall|a: int| 0 <= a < self.accounts().len() ==> #[trigger] self.accounts()[a].mint
            < self.mints().len()
        &&& forall|m: int|
            0 <= m < self.mints().len() ==> #[trigger] self.mints()[m].total_supply as int
                == supply_of(self.accounts(), m)
    }

    /// The first rule that `mint(m, a, amount, caller)` breaks, if any.
    pub open spec fn mint_error(&self, m: int, a: int, amount: u64, caller: Seq<u8>) -> Option<
        ErrorCode,
    > {
        if !(0 <= m < self.mints().len() && 0 <= a < self.accounts().len()) {
            Some(ErrorCode::RecordNotFound)
        } else if caller != self.mints()[m].authority@ {
            Some(ErrorCode::Unauthorized)
        } else if self.accounts()[a].mint != m {
            Some(ErrorCode::MintMismatch)
        } else if self.accounts()[a].amount + amount > u64::MAX || self.mints()[m].total_supply
            + amount > u64::MAX {
            Some(ErrorCode::Overflow)
        } else {
            None
        }
    }

    /// The first rule that `burn(m, a, amount, caller)` breaks, if any.
    pub open spec fn burn_error(&self, m: int, a: int, amount: u64, caller: Seq<u8>) -> Option<
        ErrorCode,
    > {
        if !(0 <= m < self.mints().len() && 0 <= a < self.accounts().len()) {
            Some(ErrorCode::RecordNotFound)
        } else if caller != self.accounts()[a].owner@ {
            Some(ErrorCode::Unauthorized)
        } else if self.accounts()[a].mint != m {
            Some(ErrorCode::MintMismatch)
        } else if self.accounts()[a].amount < amount {
            Some(ErrorCode::InsufficientFunds)
        } else if self.mints()[m].total_supply < amount {
            Some(ErrorCode::Overflow)
        } else {
            None
        }
    }

    /// The first rule that `transfer(from, to, amount, caller)` breaks, if any.
    pub open spec fn transfer_error(
        &self,
        from: int,
        to: int,
        amount: u64,
        caller: Seq<u8>,
    ) -> Option<ErrorCode> {
        if !(0 <= from < self.accounts().len() && 0 <= to < self.accounts().len()) {
            Some(ErrorCode::RecordNotFound)
        } else if caller != self.accounts()[from].owner@ {
            Some(ErrorCode::Unauthorized)
        } else if self.accounts()[from].mint != self.accounts()[to].mint {
            Some(ErrorCode::MintMismatch)
        } else if self.accounts()[from].amount < amount {
            Some(ErrorCode::InsufficientFunds)
        } else if from != to && self.accounts()[to].amount + amount > u64::MAX {
            Some(ErrorCode::Overflow)
        } else {
            None
        }
    }

    /// The accounts after `amount` has moved from `from` to `to`.
    pub open spec fn transferred(&self, from: int, to: int, amount: u64) -> Seq<TokenAccount> {
        let s = self.accounts();
        if from == to {
            s
        } else {
            s.update(from, with_amount(s[from], s[from].amount - amount)).update(
                to,
                with_amount(s[to], s[to].amount + amount),
            )
        }
    }

    pub fn new() -> (r: Ledger)
        ensures
            r.wf(),
            r.mints().len() == 0,
            r.accounts().len() == 0,
    {
        Ledger { mints: Vec::new(), accounts: Vec::new() }
    }

    /// Creates a mint with no supply and returns its index.
    pub fn initialize_mint(
        &mut self,
        name: String,
        symbol: String,
        decimals: u8,
        authority: Identity,
    ) -> (r: usize)
        requires
            old(self).wf(),
        ensures
            final(self).wf(),
            r == old(self).mints().len(),
            final(self).mints() == old(self).mints().push(
                TokenMint { name, symbol, decimals, authority, total_supply: 0 },
            ),
            final(self).accounts() == old(self).accounts(),
    {
        let r = self.mints.len();
        self.mints.push(TokenMint { name, symbol, decimals, authority, total_supply: 0 });
        proof {
            let s = self.accounts@;
            assert forall|m: int| 0 <= m < self.mints@.len() implies #[trigger] self.mints@[m].total_supply
                as int == supply_of(s, m) by {
                if m == r {
                    assert forall|a: int| 0 <= a < s.len() implies #[trigger] s[a].mint != m by {
                        assert(old(self).accounts()[a].mint < old(self).mints().len());
                    }
                    lemma_supply_unreferenced(s, m);
                } else {
                    assert(old(self).mints()[m].total_supply == supply_of(old(self).accounts(), m));
                }
            }
        }
        r
    }

    /// Opens an empty account of mint `m` for `owner` and returns its index.
    /// Anyone may open an account for any mint.
    pub fn create_account(&mut self, owner: Identity, m: usize) -> (r: Result<usize, ErrorCode>)
        requires
            old(self).wf(),
        ensures
            final(self).wf(),
            final(self).mints() == old(self).mints(),
            m < old(self).mints().len() ==> r == Ok::<usize, ErrorCode>(
                old(self).accounts().len() as usize,
            ) && final(self).accounts() == old(self).accounts().push(
                TokenAccount { owner, mint: m, amount: 0 },
            ),
            m >= old(self).mints().len() ==> r == Err::<usize, ErrorCode>(
                ErrorCode::RecordNotFound,
            ) && final(self).accounts() == old(self).accounts(),
    {
        if m >= self.mints.len() {
            return Err(ErrorCode::RecordNotFound);
        }
        let r = self.accounts.len();
        let acc = TokenAccount { owner, mint: m, amount: 0 };
        proof {
            assert forall|k: int| 0 <= k < self.mints@.len() implies #[trigger] self.mints@[k].total_supply
                as int == supply_of(self.accounts@.push(acc), k) by {
                lemma_supply_push(self.accounts@, acc, k);
                assert(old(self).mints()[k].total_supply == supply_of(old(self).accounts(), k));
            }
        }
        self.accounts.push(acc);
        proof {
            assert forall|a: int| 0 <= a < self.accounts@.len() implies #[trigger] self.accounts@[a].mint
                < self.mints@.len() by {
                if a < old(self).accounts().len() {
                    assert(old(self).accounts()[a].mint < old(self).mints().len());
                }
            }
        }
        Ok(r)
    }

    /// Creates `amount` new units of mint `m` in account `a`. Only the mint
    /// authority may do so; the supply and the balance grow together or not
    /// at all.
    pub fn mint(&mut self, m: usize, a: usize, amount: u64, caller: &Identity) -> (r: Result<
        (),
        ErrorCode,
    >)
        requires
            old(self).wf(),
        ensures
            final(self).wf(),
            r == match old(self).mint_error(m as int, a as int, amount, caller@) {
                Some(e) => Err(e),
                None => Ok(()),
            },
            r is Ok ==> final(self).mints() == old(self).mints().update(
                m as int,
                with_supply(old(self).mints()[m as int], old(self).mints()[m as int].total_supply + amount),
            ) && final(self).accounts() == old(self).accounts().update(
                a as int,
                with_amount(old(self).accounts()[a as int], old(self).accounts()[a as int].amount + amount),
            ),
            r is Err ==> final(self).mints() == old(self).mints() && final(self).accounts()
                == old(self).accounts(),
    {
        if m >= self.mints.len() || a >= self.accounts.len() {
            return Err(ErrorCode::RecordNotFound);
        }
        if !caller.same(&self.mints[m].authority) {
            return Err(ErrorCode::Unauthorized);
        }
        let acc = self.accounts[a];
        if acc.mint != m {
            return Err(ErrorCode::MintMismatch);
        }
        let new_amount = match acc.amount.checked_add(amount) {
            Some(v) => v,
            None => return Err(ErrorCode::Overflow),
        };
        let new_supply = match self.mints[m].total_supply.checked_add(amount) {
            Some(v) => v,
            None => return Err(ErrorCode::Overflow),
        };
        let new_acc = TokenAccount { owner: acc.owner, mint: acc.mint, amount: new_amount };
        proof {
            assert forall|k: int| 0 <= k < self.mints@.len() implies supply_of(
                self.accounts@.update(a as int, new_acc),
                k,
            ) == #[trigger] self.mints@[k].total_supply + if k == m {
                amount as int
            } else {
                0
            } by {
                lemma_supply_update(self.accounts@, a as int, new_acc, k);
                assert(old(self).mints()[k].total_supply == supply_of(old(self).accounts(), k));
            }
        }
        self.accounts.set(a, new_acc);
        self.mints[m].total_supply = new_supply;
        proof {
            assert(new_acc == with_amount(old(self).accounts()[a as int], old(self).accounts()[a as int].amount + amount));
            assert(self.mints@ =~= old(self).mints().update(
                m as int,
                with_supply(old(self).mints()[m as int], old(self).mints()[m as int].total_supply + amount),
            ));
        }
        Ok(())
    }

    /// Destroys `amount` units held in account `a` of mint `m`. Only the
    /// account owner may do so; the supply and the balance shrink together or
    /// not at all.
    pub fn burn(&mut self, m: usize, a: usize, amount: u64, caller: &Identity) -> (r: Result<
        (),
        ErrorCode,
    >)
        requires
            old(self).wf(),
        ensures
            final(self).wf(),
            r == match old(self).burn_error(m as int, a as int, amount, caller@) {
                Some(e) => Err(e),
                None => Ok(()),
            },
            r is Ok ==> final(self).mints() == old(self).mints().update(
                m as int,
                with_supply(old(self).mints()[m as int], old(self).mints()[m as int].total_supply - amount),
            ) && final(self).accounts() == old(self).accounts().update(
                a as int,
                with_amount(old(self).accounts()[a as int], old(self).accounts()[a as int].amount - amount),
            ),
            r is Err ==> final(self).mints() == old(self).mints() && final(self).accounts()
                == old(self).accounts(),
    {
        if m >= self.mints.len() || a >= self.accounts.len() {
            return Err(ErrorCode::RecordNotFound);
        }
        let acc = self.accounts[a];
        if !caller.same(&acc.owner) {
            return Err(ErrorCode::Unauthorized);
        }
        if acc.mint != m {
            return Err(ErrorCode::MintMismatch);
        }
        let new_amount = match acc.amount.checked_sub(amount) {
            Some(v) => v,
            None => return Err(ErrorCode::InsufficientFunds),
        };
        let new_supply = match self.mints[m].total_supply.checked_sub(amount) {
            Some(v) => v,
            None => return Err(ErrorCode::Overflow),
        };
        let new_acc = TokenAccount { owner: acc.owner, mint: acc.mint, amount: new_amount };
        proof {
            assert forall|k: int| 0 <= k < self.mints@.len() implies supply_of(
                self.accounts@.update(a as int, new_acc),
                k,
            ) == #[trigger] self.mints@[k].total_supply - if k == m {
                amount as int
            } else {
                0
            } by {
                lemma_supply_update(self.accounts@, a as int, new_acc, k);
                assert(old(self).mints()[k].total_supply == supply_of(old(self).accounts(), k));
            }
        }
        self.accounts.set(a, new_acc);
        self.mints[m].total_supply = new_supply;
        proof {
            assert(self.mints@ =~= old(self).mints().update(
                m as int,
                with_supply(old(self).mints()[m as int], old(self).mints()[m as int].total_supply - amount),
            ));
        }
        Ok(())
    }

    /// Moves `amount` units from account `from` to account `to` of the same
    /// mint, signed by the owner of `from`. Every check, overflow of the
    /// destination included, happens before either balance changes, so a
    /// refused transfer leaves both untouched. A transfer of an account to
    /// itself changes nothing once the checks pass.
    pub fn transfer(&mut self, from: usize, to: usize, amount: u64, caller: &Identity) -> (r:
        Result<(), ErrorCode>)
        requires
            old(self).wf(),
        ensures
            final(self).wf(),
            r == match old(self).transfer_error(from as int, to as int, amount, caller@) {
                Some(e) => Err(e),
                None => Ok(()),
            },
            final(self).mints() == old(self).mints(),
            r is Ok ==> final(self).accounts() == old(self).transferred(
                from as int,
                to as int,
                amount,
            ),
            r is Err ==> final(self).accounts() == old(self).accounts(),
    {
        if from >= self.accounts.len() || to >= self.accounts.len() {
            return Err(ErrorCode::RecordNotFound);
        }
        let src = self.accounts[from];
        let dst = self.accounts[to];
        if !caller.same(&src.owner) {
            return Err(ErrorCode::Unauthorized);
        }
        if src.mint != dst.mint {
            return Err(ErrorCode::MintMismatch);
        }
        let new_src = match src.amount.checked_sub(amount) {
            Some(v) => v,
            None => return Err(ErrorCode::InsufficientFunds),
        };
        if from == to {
            return Ok(());
        }
        let new_dst = match dst.amount.checked_add(amount) {
            Some(v) => v,
            None => return Err(ErrorCode::Overflow),
        };
        let src_acc = TokenAccount { owner: src.owner, mint: src.mint, amount: new_src };
        let dst_acc = TokenAccount { owner: dst.owner, mint: dst.mint, amount: new_dst };
        proof {
            let s0 = self.accounts@;
            let s1 = s0.update(from as int, src_acc);
            assert forall|k: int| 0 <= k < self.mints@.len() implies supply_of(
                s1.update(to as int, dst_acc),
                k,
            ) == #[trigger] self.mints@[k].total_supply by {
                lemma_supply_update(s0, from as int, src_acc, k);
                lemma_supply_update(s1, to as int, dst_acc, k);
                assert(old(self).mints()[k].total_supply == supply_of(old(self).accounts(), k));
            }
        }
        self.accounts.set(from, src_acc);
        self.accounts.set(to, dst_acc);
        proof {
            assert forall|a: int| 0 <= a < self.accounts@.len() implies #[trigger] self.accounts@[a].mint
                < self.mints@.len() by {
                assert(old(self).accounts()[a].mint < old(self).mints().len());
            }
        }
        Ok(())
    }

    /// The mint at index `m`, if there is one.
    pub fn get_mint(&self, m: usize) -> (r: Option<&TokenMint>)
        ensures
            m < self.mints().len() ==> r == Some(&self.mints()[m as int]),
            m >= self.mints().len() ==> r is None,
    {
        if m < self.mints.len() {
            Some(&self.mints[m])
        } else {
            None
        }
    }

    /// The account at index `a`, if there is one.
    pub fn get_account(&self, a: usize) -> (r: Option<&TokenAccount>)
        ensures
            a < self.accounts().len() ==> r == Some(&self.accounts()[a as int]),
            a >= self.accounts().len() ==> r is None,
    {
        if a < self.accounts.len() {
            Some(&self.accounts[a])
        } else {
            None
        }
    }
}

} // verus!
