//! A token ledger mapping accounts to balances. `mint` sets the caller's
//! balance outright; `transfer` moves an amount from the caller to a recipient
//! with saturating arithmetic on both sides, so neither call ever fails.
use vstd::prelude::*;

use crate::{AccountId, Balance};

verus! {

broadcast use vstd::std_specs::hash::group_hash_axioms;

/// Records deposited by the ledger.
#[derive(Clone, Copy, Debug, PartialEq, Eq, Structural)]
pub enum Event {
    /// The account's balance was set by `mint`.
    MintedNewSupply(AccountId),
    /// Sender, recipient, amount.
    Transferred(AccountId, AccountId, Balance),
}

/// Balance of `who` in `m`: an account with no entry holds 0.
pub open spec fn balance_in(m: Map<AccountId, Balance>, who: AccountId) -> Balance {
    if m.contains_key(who) {
        m[who]
    } else {
        0
    }
}

/// `a - b`, or 0 where `b` is larger.
pub open spec fn sat_sub(a: Balance, b: Balance) -> Balance {
    if a >= b {
        (a - b) as Balance
    } else {
        0
    }
}

/// `a + b`, or the largest balance where the sum does not fit.
pub open spec fn sat_add(a: Balance, b: Balance) -> Balance {
    if a + b > Balance::MAX {
        Balance::MAX
    } else {
        (a + b) as Balance
    }
}

/// The balances after `from` sends `amount` to `to`: the sender's entry is
/// written first, then the recipient's.
pub open spec fn transferred(
    m: Map<AccountId, Balance>,
    from: AccountId,
    to: AccountId,
    amount: Balance,
) -> Map<AccountId, Balance> {
    m.insert(from, sat_sub(balance_in(m, from), amount)).insert(
        to,
        sat_add(balance_in(m, to), amount),
    )
}

/// The ledger's balances and the events it has deposited, oldest first.
pub struct Pallet {
    balances: std::collections::HashMap<AccountId, Balance>,
    events: Vec<Event>,
}

impl Pallet {
    /// The stored entries; accounts without an entry hold 0.
    pub closed spec fn spec_balances(&self) -> Map<AccountId, Balance> {
        self.balances@
    }

    /// The deposited events, oldest first.
    pub closed spec fn spec_events(&self) -> Seq<Event> {
        self.events@
    }

    /// An empty ledger with no deposited events.
    pub fn new() -> (p: Pallet)
        ensures
            p.spec_balances() == Map::<AccountId, Balance>::empty(),
            p.spec_events() == Seq::<Event>::empty(),
    {
        Pallet { balances: std::collections::HashMap::new(), events: Vec::new() }
    }

    fn deposit_event(&mut self, e: Event)
        ensures
            final(self).balances@ == old(self).balances@,
            final(self).events@ == old(self).events@.push(e),
    {
        self.events.push(e);
    }

    /// Sets the balance of `caller` to `amount`, whatever it held before.
    pub fn mint(&mut self, caller: AccountId, amount: Balance)
        ensures
            final(self).spec_balances() == old(self).spec_balances().insert(caller, amount),
            final(self).spec_events() == old(self).spec_events().push(
                Event::MintedNewSupply(caller),
            ),
    {
        self.balances.insert(caller, amount);
        self.deposit_event(Event::MintedNewSupply(caller));
    }

    /// Moves `amount` from `caller` to `to`. The sender's balance floors at 0
    /// and the recipient's caps at the largest balance. Both new balances are
    /// computed from the old ones and the recipient's is written last, so a
    /// transfer to oneself leaves the credited balance.
    pub fn transfer(&mut self, caller: AccountId, to: AccountId, amount: Balance)
        ensures
            final(self).spec_balances() == transferred(
                old(self).spec_balances(),
                caller,
                to,
                amount,
            ),
            final(self).spec_events() == old(self).spec_events().push(
                Event::Transferred(caller, to, amount),
            ),
    {
        let sender_balance = self.get_balance(caller);
        let receiver_balance = self.get_balance(to);
        let update_sender = sender_balance.saturating_sub(amount);
        let update_to = receiver_balance.saturating_add(amount);
        self.balances.insert(caller, update_sender);
        self.balances.insert(to, update_to);
        self.deposit_event(Event::Transferred(caller, to, amount));
    }

    /// Balance of `who`; 0 for an account with no entry.
    pub fn get_balance(&self, who: AccountId) -> (r: Balance)
        ensures
            r == balance_in(self.spec_balances(), who),
    {
        match self.balances.get(&who) {
            Some(b) => *b,
            None => 0,
        }
    }

    /// The deposited events, oldest first.
    pub fn events(&self) -> (r: &Vec<Event>)
        ensures
            r@ == self.spec_events(),
    {
        &self.events
    }
}

/// Minting twice for one account leaves the second amount: mints do not add up.
pub proof fn lemma_mint_overwrites(
    m: Map<AccountId, Balance>,
    who: AccountId,
    first: Balance,
    second: Balance,
)
    ensures
        balance_in(m.insert(who, first).insert(who, second), who) == second,
        m.insert(who, first).insert(who, second) == m.insert(who, second),
{
    assert(m.insert(who, first).insert(who, second) =~= m.insert(who, second));
}

/// A transfer between two distinct accounts takes `min(amount, old balance)`
/// from the sender, gives `amount` to the recipient up to the largest balance,
/// and leaves every other account alone. The two balances together change only
/// by what saturation absorbed: the sum before plus the sender's shortfall
/// equals the sum after plus the recipient's overflow, so with no saturation
/// on either side the sum is kept.
pub proof fn lemma_transfer_moves_funds(
    m: Map<AccountId, Balance>,
    from: AccountId,
    to: AccountId,
    amount: Balance,
)
    requires
        from != to,
    ensures
        ({
            let after = transferred(m, from, to, amount);
            let old_from = balance_in(m, from) as int;
            let old_to = balance_in(m, to) as int;
            let taken = if amount <= old_from { amount as int } else { old_from };
            let given = if amount <= Balance::MAX - old_to {
                amount as int
            } else {
                Balance::MAX - old_to
            };
            &&& balance_in(after, from) == old_from - taken
            &&& balance_in(after, to) == old_to + given
            &&& forall|c: AccountId|
                c != from && c != to ==> #[trigger] balance_in(after, c) == balance_in(m, c)
            &&& old_from + old_to + (amount - taken) == balance_in(after, from) + balance_in(
                after,
                to,
            ) + (amount - given)
            &&& (amount <= old_from && old_to + amount <= Balance::MAX) ==> balance_in(after, from)
                + balance_in(after, to) == old_from + old_to
        }),
{
}

} // verus!
