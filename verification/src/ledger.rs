//! The token ledger and its mint/withdraw state machine.
//!
//! The ledger owns the balance table, the total supply, the collected-payment
//! accumulator, and the owner identity. It follows the accumulator withdrawal
//! model: every payment received by `mint` is added to `collected_funds`, and
//! a successful `withdraw` hands the whole accumulator to the owner and resets
//! it to zero, independent of the contract's live native balance.
//!
//! Balance, supply, and accumulator updates use checked arithmetic: an update
//! that would exceed `u128::MAX` is refused with `Error::ArithmeticOverflow`
//! and leaves the ledger unchanged, rather than saturating or wrapping.

use vstd::prelude::*;
use crate::account::AccountId;
use crate::errors::Error;
use crate::events::{Mint, Withdraw};

verus! {

/// One row of the balance table: an account and its token balance.
///
/// Rows are created lazily by the first successful `mint` for an account and
/// are never removed; each account appears in at most one row.
#[derive(Debug)]
pub struct Entry {
    pub account: AccountId,
    pub amount: u128,
}

/// The balance table holds each account at most once.
pub open spec fn keys_unique(s: Seq<Entry>) -> bool {
    forall|i: int, j: int| 0 <= i < j < s.len() ==> s[i].account@ != s[j].account@
}

/// The sum of all balances in the table.
pub open spec fn spec_sum(s: Seq<Entry>) -> int
    decreases s.len(),
{
    if s.len() == 0 {
        0
    } else {
        s[0].amount + spec_sum(s.drop_first())
    }
}

/// The balance the table records for `key`: the amount of the first row for
/// `key`, or zero when no row carries it.
pub open spec fn spec_balance_of(s: Seq<Entry>, key: Seq<u8>) -> u128
    decreases s.len(),
{
    if s.len() == 0 {
        0u128
    } else if s[0].account@ == key {
        s[0].amount
    } else {
        spec_balance_of(s.drop_first(), key)
    }
}

/// The token ledger.
pub struct Ledger {
    /// The account allowed to withdraw collected funds and to change the
    /// ledger's parameters.
    pub owner: AccountId,
    /// The balance table. Absent accounts hold balance zero.
    pub entries: Vec<Entry>,
    /// The total number of tokens in existence; `wf` ties it to the sum of
    /// all balances.
    pub total_supply: u128,
    /// Native currency received through `mint` and not yet withdrawn.
    pub collected_funds: u128,
    /// The minimum native-currency payment a `mint` call must attach.
    pub min_payment: u128,
    /// The number of tokens each successful `mint` credits.
    pub mint_amount: u128,
}

impl Ledger {
    /// The balance the ledger records for the account named `key`.
    pub open spec fn spec_balance(self, key: Seq<u8>) -> u128 {
        spec_balance_of(self.entries@, key)
    }

    /// The ledger's invariant: no account has two rows, and the total supply
    /// equals the sum of all balances. `new` establishes it and every
    /// operation preserves it.
    pub open spec fn wf(self) -> bool {
        &&& keys_unique(self.entries@)
        &&& spec_sum(self.entries@) == self.total_supply
    }

    /// Creates a ledger at deployment: the owner is recorded, supply and
    /// collected funds are zeroed, the balance table is empty, and the two
    /// mint parameters are fixed to the given values.
    pub fn new(owner: AccountId, min_payment: u128, mint_amount: u128) -> (l: Ledger)
        ensures
            l.wf(),
            l.owner == owner,
            l.entries@.len() == 0,
            l.total_supply == 0,
            l.collected_funds == 0,
            l.min_payment == min_payment,
            l.mint_amount == mint_amount,
            forall|k: Seq<u8>| l.spec_balance(k) == 0,
    {
        let l = Ledger {
            owner,
            entries: Vec::new(),
            total_supply: 0,
            collected_funds: 0,
            min_payment,
            mint_amount,
        };
        l
    }

    /// The balance of `account`; zero for accounts never credited.
    pub fn balance_of(&self, account: &AccountId) -> (r: u128)
        ensures
            r == self.spec_balance(account@),
    {
        match self.find_index(account) {
            Some(i) => {
                proof {
                    lemma_balance_at_first_match(self.entries@, account@, i as int);
                }
                self.entries[i].amount
            },
            None => {
                proof {
                    lemma_balance_absent(self.entries@, account@);
                }
                0
            },
        }
    }

    /// The current total supply.
    pub fn total_supply(&self) -> (r: u128)
        ensures
            r == self.total_supply,
    {
        self.total_supply
    }

    /// The native currency collected through `mint` and not yet withdrawn.
    pub fn collected_funds(&self) -> (r: u128)
        ensures
            r == self.collected_funds,
    {
        self.collected_funds
    }

    /// The current owner.
    pub fn owner(&self) -> (r: AccountId)
        ensures
            r@ == self.owner@,
    {
        self.owner.clone()
    }

    /// The minimum payment `mint` requires.
    pub fn min_payment(&self) -> (r: u128)
        ensures
            r == self.min_payment,
    {
        self.min_payment
    }

    /// The number of tokens each successful `mint` credits.
    pub fn mint_amount(&self) -> (r: u128)
        ensures
            r == self.mint_amount,
    {
        self.mint_amount
    }

    /// Mints tokens for `caller` against the attached native payment.
    ///
    /// Refuses a payment below `min_payment` with `InsufficientPayment` and an
    /// update that would overflow with `ArithmeticOverflow`, leaving the
    /// ledger untouched in both cases. On success it credits `caller` with
    /// exactly `mint_amount` tokens, grows the total supply by the same
    /// amount and the collected funds by the payment, and returns the `Mint`
    /// notification for the host's event subsystem.
    pub fn mint(&mut self, caller: &AccountId, payment: u128) -> (r: Result<Mint, Error>)
        requires
            old(self).wf(),
        ensures
            final(self).wf(),
            mint_rel(*old(self), *final(self), *caller, payment, r),
    {
        if payment < self.min_payment {
            return Err(Error::InsufficientPayment);
        }
        if self.mint_amount > u128::MAX - self.total_supply {
            return Err(Error::ArithmeticOverflow);
        }
        if payment > u128::MAX - self.collected_funds {
            return Err(Error::ArithmeticOverflow);
        }
        let amount: u128 = self.mint_amount;
        match self.find_index(caller) {
            Some(i) => {
                let cur: u128 = self.entries[i].amount;
                proof {
                    lemma_balance_at_first_match(self.entries@, caller@, i as int);
                    lemma_sum_bounds_entry(self.entries@, i as int);
                }
                let e = Entry { account: caller.clone(), amount: cur + amount };
                proof {
                    lemma_sum_update(self.entries@, i as int, e);
                    lemma_balance_update(self.entries@, i as int, e);
                }
                self.entries[i] = e;
                self.total_supply = self.total_supply + amount;
                self.collected_funds = self.collected_funds + payment;
                Ok(Mint { to: caller.clone(), amount, payment })
            },
            None => {
                proof {
                    lemma_balance_absent(self.entries@, caller@);
                }
                let e = Entry { account: caller.clone(), amount };
                proof {
                    lemma_sum_push(self.entries@, e);
                    lemma_balance_push(self.entries@, e);
                }
                self.entries.push(e);
                self.total_supply = self.total_supply + amount;
                self.collected_funds = self.collected_funds + payment;
                Ok(Mint { to: caller.clone(), amount, payment })
            },
        }
    }

    /// Transfers the collected funds to the owner.
    ///
    /// Refuses a caller other than the owner with `Unauthorized` and an empty
    /// accumulator with `NoFundsToWithdraw`, leaving the ledger untouched in
    /// both cases. On success the whole accumulator is reset to zero and the
    /// returned `Withdraw` notification instructs the host to send that
    /// amount of native currency to the owner.
    pub fn withdraw(&mut self, caller: &AccountId) -> (r: Result<Withdraw, Error>)
        requires
            old(self).wf(),
        ensures
            final(self).wf(),
            withdraw_rel(*old(self), *final(self), *caller, r),
    {
        if !(*caller == self.owner) {
            return Err(Error::Unauthorized);
        }
        let amount: u128 = self.collected_funds;
        if amount == 0 {
            return Err(Error::NoFundsToWithdraw);
        }
        self.collected_funds = 0;
        Ok(Withdraw { owner: self.owner.clone(), amount })
    }

    /// Sets the minimum payment `mint` requires. Only the owner may call it;
    /// anyone else is refused with `Unauthorized` and the ledger is left
    /// untouched. The new value is taken as given, with no further validation.
    pub fn set_min_payment(&mut self, caller: &AccountId, new_min_payment: u128) -> (r: Result<
        (),
        Error,
    >)
        requires
            old(self).wf(),
        ensures
            final(self).wf(),
            caller@ != old(self).owner@ ==> r == Result::<(), Error>::Err(Error::Unauthorized)
                && *final(self) == *old(self),
            caller@ == old(self).owner@ ==> r == Result::<(), Error>::Ok(()) && *final(self) == (
            Ledger { min_payment: new_min_payment, ..*old(self) }),
    {
        if !(*caller == self.owner) {
            return Err(Error::Unauthorized);
        }
        self.min_payment = new_min_payment;
        Ok(())
    }

    /// Sets the number of tokens each successful `mint` credits. Only the
    /// owner may call it; anyone else is refused with `Unauthorized` and the
    /// ledger is left untouched. The new value is taken as given, with no
    /// further validation.
    pub fn set_mint_amount(&mut self, caller: &AccountId, new_mint_amount: u128) -> (r: Result<
        (),
        Error,
    >)
        requires
            old(self).wf(),
        ensures
            final(self).wf(),
            caller@ != old(self).owner@ ==> r == Result::<(), Error>::Err(Error::Unauthorized)
                && *final(self) == *old(self),
            caller@ == old(self).owner@ ==> r == Result::<(), Error>::Ok(()) && *final(self) == (
            Ledger { mint_amount: new_mint_amount, ..*old(self) }),
    {
        if !(*caller == self.owner) {
            return Err(Error::Unauthorized);
        }
        self.mint_amount = new_mint_amount;
        Ok(())
    }

    /// Hands ownership to `new_owner`. Only the current owner may call it;
    /// anyone else is refused with `Unauthorized` and the ledger is left
    /// untouched.
    pub fn transfer_ownership(&mut self, caller: &AccountId, new_owner: AccountId) -> (r: Result<
        (),
        Error,
    >)
        requires
            old(self).wf(),
        ensures
            final(self).wf(),
            caller@ != old(self).owner@ ==> r == Result::<(), Error>::Err(Error::Unauthorized)
                && *final(self) == *old(self),
            caller@ == old(self).owner@ ==> r == Result::<(), Error>::Ok(()) && *final(self) == (
            Ledger { owner: new_owner, ..*old(self) }),
    {
        if !(*caller == self.owner) {
            return Err(Error::Unauthorized);
        }
        self.owner = new_owner;
        Ok(())
    }

    /// The index of the row for `account`, if the table has one; rows are
    /// unique under `wf`, and the result is always the first match.
    fn find_index(&self, account: &AccountId) -> (r: Option<usize>)
        ensures
            match r {
                Some(i) => {
                    &&& 0 <= i < self.entries@.len()
                    &&& self.entries@[i as int].account@ == account@
                    &&& forall|j: int| 0 <= j < i ==> self.entries@[j].account@ != account@
                },
                None => forall|j: int|
                    0 <= j < self.entries@.len() ==> self.entries@[j].account@ != account@,
            },
    {
        let n: usize = self.entries.len();
        let mut i: usize = 0;
        while i < n
            invariant
                n == self.entries@.len(),
                0 <= i <= n,
                forall|j: int| 0 <= j < i ==> self.entries@[j].account@ != account@,
            decreases n - i,
        {
            if self.entries[i].account == *account {
                return Some(i);
            }
            i = i + 1;
        }
        None
    }
}

/// Whether the ledger-side additions of a mint would exceed `u128::MAX`:
/// either the total supply (and with it the caller's balance, which the
/// invariant bounds by the supply) or the collected funds would overflow.
pub open spec fn mint_overflows(pre: Ledger, payment: u128) -> bool {
    ||| pre.total_supply + pre.mint_amount > u128::MAX
    ||| pre.collected_funds + payment > u128::MAX
}

/// How one `mint(caller, payment)` call relates the ledger before (`pre`) and
/// after (`post`) it, and its result `r`.
///
/// A payment below the minimum is refused with `InsufficientPayment`, an
/// update that would overflow with `ArithmeticOverflow`; both leave the
/// ledger untouched. Otherwise the caller's balance and the total supply grow
/// by exactly `pre.mint_amount`, the collected funds by exactly `payment`,
/// every other balance and every other field stays, and the returned `Mint`
/// notification names the caller, the credited amount, and the payment.
pub open spec fn mint_rel(
    pre: Ledger,
    post: Ledger,
    caller: AccountId,
    payment: u128,
    r: Result<Mint, Error>,
) -> bool {
    if payment < pre.min_payment {
        &&& post == pre
        &&& r == Result::<Mint, Error>::Err(Error::InsufficientPayment)
    } else if mint_overflows(pre, payment) {
        &&& post == pre
        &&& r == Result::<Mint, Error>::Err(Error::ArithmeticOverflow)
    } else {
        &&& post.owner@ == pre.owner@
        &&& post.min_payment == pre.min_payment
        &&& post.mint_amount == pre.mint_amount
        &&& post.total_supply == pre.total_supply + pre.mint_amount
        &&& post.collected_funds == pre.collected_funds + payment
        &&& post.spec_balance(caller@) == pre.spec_balance(caller@) + pre.mint_amount
        &&& forall|k: Seq<u8>| k != caller@ ==> post.spec_balance(k) == pre.spec_balance(k)
        &&& match r {
            Ok(ev) => ev.to@ == caller@ && ev.amount == pre.mint_amount && ev.payment == payment,
            Err(_) => false,
        }
    }
}

/// How one `withdraw(caller)` call relates the ledger before (`pre`) and
/// after (`post`) it, and its result `r`.
///
/// A non-owner is refused with `Unauthorized`, an owner with nothing
/// collected with `NoFundsToWithdraw`; both leave the ledger untouched.
/// Otherwise the whole accumulator is handed to the owner — the returned
/// `Withdraw` notification is the transfer instruction — and reset to zero,
/// with the balance table and every other field unchanged.
pub open spec fn withdraw_rel(
    pre: Ledger,
    post: Ledger,
    caller: AccountId,
    r: Result<Withdraw, Error>,
) -> bool {
    if caller@ != pre.owner@ {
        &&& post == pre
        &&& r == Result::<Withdraw, Error>::Err(Error::Unauthorized)
    } else if pre.collected_funds == 0 {
        &&& post == pre
        &&& r == Result::<Withdraw, Error>::Err(Error::NoFundsToWithdraw)
    } else {
        &&& post.owner@ == pre.owner@
        &&& post.min_payment == pre.min_payment
        &&& post.mint_amount == pre.mint_amount
        &&& post.entries == pre.entries
        &&& post.total_supply == pre.total_supply
        &&& post.collected_funds == 0
        &&& match r {
            Ok(ev) => ev.owner@ == pre.owner@ && ev.amount == pre.collected_funds,
            Err(_) => false,
        }
    }
}

/// A mint whose payment falls below the minimum changes nothing and reports
/// `InsufficientPayment`.
pub proof fn lemma_mint_below_price_changes_nothing(
    pre: Ledger,
    post: Ledger,
    caller: AccountId,
    payment: u128,
    r: Result<Mint, Error>,
)
    requires
        mint_rel(pre, post, caller, payment, r),
        payment < pre.min_payment,
    ensures
        post == pre,
        r == Result::<Mint, Error>::Err(Error::InsufficientPayment),
{
}

/// A successful mint credits the caller and grows the total supply by exactly
/// the mint amount, and the collected funds by exactly the payment; every
/// other balance stays.
pub proof fn lemma_successful_mint_effects(
    pre: Ledger,
    post: Ledger,
    caller: AccountId,
    payment: u128,
    r: Result<Mint, Error>,
)
    requires
        mint_rel(pre, post, caller, payment, r),
        r is Ok,
    ensures
        payment >= pre.min_payment,
        post.spec_balance(caller@) == pre.spec_balance(caller@) + pre.mint_amount,
        post.total_supply == pre.total_supply + pre.mint_amount,
        post.collected_funds == pre.collected_funds + payment,
        forall|k: Seq<u8>| k != caller@ ==> post.spec_balance(k) == pre.spec_balance(k),
{
}

/// A withdraw by anyone but the owner changes nothing and reports
/// `Unauthorized`.
pub proof fn lemma_non_owner_withdraw_changes_nothing(
    pre: Ledger,
    post: Ledger,
    caller: AccountId,
    r: Result<Withdraw, Error>,
)
    requires
        withdraw_rel(pre, post, caller, r),
        caller@ != pre.owner@,
    ensures
        post == pre,
        r == Result::<Withdraw, Error>::Err(Error::Unauthorized),
{
}

/// A successful withdraw hands the owner exactly the collected amount, resets
/// the accumulator to zero, and touches neither the balance table nor the
/// total supply.
pub proof fn lemma_successful_withdraw_empties_accumulator(
    pre: Ledger,
    post: Ledger,
    caller: AccountId,
    r: Result<Withdraw, Error>,
)
    requires
        withdraw_rel(pre, post, caller, r),
        r is Ok,
    ensures
        caller@ == pre.owner@,
        pre.collected_funds > 0,
        post.collected_funds == 0,
        post.entries == pre.entries,
        post.total_supply == pre.total_supply,
        r matches Ok(ev) && ev.owner@ == pre.owner@ && ev.amount == pre.collected_funds,
{
}

/// Through `mint` the collected funds never shrink: a failed mint leaves the
/// ledger exactly as it was, and a successful one grows the accumulator by
/// exactly the attached payment.
pub proof fn lemma_mint_collected_funds_monotone(
    pre: Ledger,
    post: Ledger,
    caller: AccountId,
    payment: u128,
    r: Result<Mint, Error>,
)
    requires
        mint_rel(pre, post, caller, payment, r),
    ensures
        post.collected_funds >= pre.collected_funds,
        r is Ok ==> post.collected_funds == pre.collected_funds + payment,
        r is Err ==> post == pre,
{
}

/// Through `withdraw` the collected funds never grow: a failed withdraw
/// leaves the ledger exactly as it was, and a successful one empties a
/// previously non-empty accumulator.
pub proof fn lemma_withdraw_collected_funds_monotone(
    pre: Ledger,
    post: Ledger,
    caller: AccountId,
    r: Result<Withdraw, Error>,
)
    requires
        withdraw_rel(pre, post, caller, r),
    ensures
        post.collected_funds <= pre.collected_funds,
        r is Ok ==> pre.collected_funds > 0 && post.collected_funds == 0,
        r is Err ==> post == pre,
{
}

/// A successful withdraw leaves nothing to withdraw: an immediately repeated
/// withdraw by the same caller reports `NoFundsToWithdraw` and changes
/// nothing.
pub proof fn lemma_second_withdraw_fails(
    pre: Ledger,
    mid: Ledger,
    post: Ledger,
    caller: AccountId,
    r1: Result<Withdraw, Error>,
    r2: Result<Withdraw, Error>,
)
    requires
        withdraw_rel(pre, mid, caller, r1),
        r1 is Ok,
        withdraw_rel(mid, post, caller, r2),
    ensures
        r2 == Result::<Withdraw, Error>::Err(Error::NoFundsToWithdraw),
        post == mid,
{
}

/// When the rows before `i` miss `key` and row `i` carries it, the lookup
/// returns row `i`'s amount.
proof fn lemma_balance_at_first_match(s: Seq<Entry>, key: Seq<u8>, i: int)
    requires
        0 <= i < s.len(),
        s[i].account@ == key,
        forall|j: int| 0 <= j < i ==> s[j].account@ != key,
    ensures
        spec_balance_of(s, key) == s[i].amount,
    decreases i,
{
    if i > 0 {
        lemma_balance_at_first_match(s.drop_first(), key, i - 1);
    }
}

/// When no row carries `key`, the lookup returns zero.
proof fn lemma_balance_absent(s: Seq<Entry>, key: Seq<u8>)
    requires
        forall|j: int| 0 <= j < s.len() ==> s[j].account@ != key,
    ensures
        spec_balance_of(s, key) == 0,
    decreases s.len(),
{
    if s.len() > 0 {
        lemma_balance_absent(s.drop_first(), key);
    }
}

/// Every row's amount lies between zero and the sum of all amounts.
proof fn lemma_sum_bounds_entry(s: Seq<Entry>, i: int)
    requires
        0 <= i < s.len(),
    ensures
        0 <= s[i].amount <= spec_sum(s),
    decreases s.len(),
{
    lemma_sum_nonneg(s.drop_first());
    if i > 0 {
        lemma_sum_bounds_entry(s.drop_first(), i - 1);
    }
}

/// The sum of a table of unsigned amounts is not negative.
proof fn lemma_sum_nonneg(s: Seq<Entry>)
    ensures
        spec_sum(s) >= 0,
    decreases s.len(),
{
    if s.len() > 0 {
        lemma_sum_nonneg(s.drop_first());
    }
}

/// Replacing row `i` changes the sum by the difference of the amounts.
proof fn lemma_sum_update(s: Seq<Entry>, i: int, e: Entry)
    requires
        0 <= i < s.len(),
    ensures
        spec_sum(s.update(i, e)) == spec_sum(s) - s[i].amount + e.amount,
    decreases s.len(),
{
    if i == 0 {
        assert(s.update(0, e).drop_first() =~= s.drop_first());
    } else {
        assert(s.update(i, e).drop_first() =~= s.drop_first().update(i - 1, e));
        lemma_sum_update(s.drop_first(), i - 1, e);
    }
}

/// Appending a row adds its amount to the sum.
proof fn lemma_sum_push(s: Seq<Entry>, e: Entry)
    ensures
        spec_sum(s.push(e)) == spec_sum(s) + e.amount,
    decreases s.len(),
{
    if s.len() == 0 {
        assert(s.push(e)[0] == e);
        assert(s.push(e).drop_first() =~= Seq::<Entry>::empty());
        assert(spec_sum(Seq::<Entry>::empty()) == 0);
    } else {
        assert(s.push(e)[0] == s[0]);
        assert(s.push(e).drop_first() =~= s.drop_first().push(e));
        lemma_sum_push(s.drop_first(), e);
    }
}

/// Replacing row `i` with a row for the same account keeps the rows unique,
/// moves that account's lookup to the new amount, and leaves every other
/// lookup as it was.
proof fn lemma_balance_update(s: Seq<Entry>, i: int, e: Entry)
    requires
        0 <= i < s.len(),
        e.account@ == s[i].account@,
        keys_unique(s),
    ensures
        keys_unique(s.update(i, e)),
        spec_balance_of(s.update(i, e), e.account@) == e.amount,
        forall|k: Seq<u8>|
            k != e.account@ ==> spec_balance_of(s.update(i, e), k) == spec_balance_of(s, k),
    decreases s.len(),
{
    assert forall|p: int, q: int| 0 <= p < q < s.update(i, e).len() implies s.update(i, e)[p].account@
        != s.update(i, e)[q].account@ by {
        assert(s[p].account@ != s[q].account@);
    }
    if i == 0 {
        assert(s.update(0, e)[0] == e);
        assert(s.update(0, e).drop_first() =~= s.drop_first());
    } else {
        assert(s.update(i, e)[0] == s[0]);
        assert(s.update(i, e).drop_first() =~= s.drop_first().update(i - 1, e));
        assert(keys_unique(s.drop_first())) by {
            assert forall|p: int, q: int| 0 <= p < q < s.drop_first().len() implies s.drop_first()[p].account@
                != s.drop_first()[q].account@ by {
                assert(s[p + 1].account@ != s[q + 1].account@);
            }
        }
        assert(s[0].account@ != s[i].account@);
        lemma_balance_update(s.drop_first(), i - 1, e);
    }
    assert forall|k: Seq<u8>| k != e.account@ implies spec_balance_of(s.update(i, e), k)
        == spec_balance_of(s, k) by {
        lemma_balance_update_other(s, i, e, k);
    }
}

/// Replacing row `i` with a row for the same account leaves the lookup of
/// every other account as it was.
proof fn lemma_balance_update_other(s: Seq<Entry>, i: int, e: Entry, k: Seq<u8>)
    requires
        0 <= i < s.len(),
        e.account@ == s[i].account@,
        k != e.account@,
    ensures
        spec_balance_of(s.update(i, e), k) == spec_balance_of(s, k),
    decreases s.len(),
{
    if i == 0 {
        assert(s.update(0, e)[0] == e);
        assert(s.update(0, e).drop_first() =~= s.drop_first());
    } else {
        assert(s.update(i, e)[0] == s[0]);
        assert(s.update(i, e).drop_first() =~= s.drop_first().update(i - 1, e));
        if s[0].account@ != k {
            lemma_balance_update_other(s.drop_first(), i - 1, e, k);
        }
    }
}

/// Appending a row for an account the table misses keeps the rows unique,
/// makes that account's lookup the new amount, and leaves every other lookup
/// as it was.
proof fn lemma_balance_push(s: Seq<Entry>, e: Entry)
    requires
        forall|j: int| 0 <= j < s.len() ==> s[j].account@ != e.account@,
        keys_unique(s),
    ensures
        keys_unique(s.push(e)),
        spec_balance_of(s.push(e), e.account@) == e.amount,
        forall|k: Seq<u8>|
            k != e.account@ ==> spec_balance_of(s.push(e), k) == spec_balance_of(s, k),
    decreases s.len(),
{
    assert forall|p: int, q: int| 0 <= p < q < s.push(e).len() implies s.push(e)[p].account@
        != s.push(e)[q].account@ by {
        if q < s.len() {
            assert(s[p].account@ != s[q].account@);
        }
    }
    if s.len() == 0 {
        assert(s.push(e)[0] == e);
        assert(s.push(e).drop_first() =~= Seq::<Entry>::empty());
        assert(forall|k: Seq<u8>| spec_balance_of(Seq::<Entry>::empty(), k) == 0);
    } else {
        assert(s.push(e)[0] == s[0]);
        assert(s.push(e).drop_first() =~= s.drop_first().push(e));
        assert(keys_unique(s.drop_first())) by {
            assert forall|p: int, q: int| 0 <= p < q < s.drop_first().len() implies s.drop_first()[p].account@
                != s.drop_first()[q].account@ by {
                assert(s[p + 1].account@ != s[q + 1].account@);
            }
        }
        lemma_balance_push(s.drop_first(), e);
    }
    assert forall|k: Seq<u8>| k != e.account@ implies spec_balance_of(s.push(e), k)
        == spec_balance_of(s, k) by {
        lemma_balance_push_other(s, e, k);
    }
}

/// Appending a row leaves the lookup of every other account as it was.
proof fn lemma_balance_push_other(s: Seq<Entry>, e: Entry, k: Seq<u8>)
    requires
        k != e.account@,
    ensures
        spec_balance_of(s.push(e), k) == spec_balance_of(s, k),
    decreases s.len(),
{
    if s.len() == 0 {
        assert(s.push(e)[0] == e);
        assert(s.push(e).drop_first() =~= Seq::<Entry>::empty());
        assert(spec_balance_of(Seq::<Entry>::empty(), k) == 0);
    } else {
        assert(s.push(e)[0] == s[0]);
        assert(s.push(e).drop_first() =~= s.drop_first().push(e));
        if s[0].account@ != k {
            lemma_balance_push_other(s.drop_first(), e, k);
        }
    }
}

} // verus!
