//! Laws of the token ledger: what every entry point keeps, and how requests
//! made one after another relate.
use vstd::prelude::*;

use crate::account::Account;
use crate::error::TokenError;
use crate::assoc::OperatorPair;
use crate::state::{balance_in, TokenState};
use crate::uint::U256;

verus! {

/// The tokens that `owners` records as owned by `account`.
pub open spec fn tokens_in(owners: Map<U256, Account>, account: Account) -> Set<U256> {
    owners.dom().filter(|id: U256| owners[id] == account)
}

/// The sum of the balances recorded for the accounts in `keys`.
pub open spec fn sum_balances(balances: Map<Account, nat>, keys: Set<Account>) -> nat
    decreases keys.len(),
    when keys.finite()
{
    if keys.len() == 0 {
        0
    } else {
        let a = keys.choose();
        balance_in(balances, a) + sum_balances(balances, keys.remove(a))
    }
}

impl TokenState {
    /// The sum of all recorded balances.
    pub open spec fn total_balance(self) -> nat {
        sum_balances(self.balances, self.balances.dom())
    }

    /// Finitely many accounts have balance records, and the balances add up to
    /// the total supply.
    pub open spec fn supply_balanced(self) -> bool {
        &&& self.balances.dom().finite()
        &&& self.total_balance() == self.total_supply
    }

    /// The balance of every account other than the zero account is the number
    /// of tokens recorded as its own, and finitely many tokens have owners.
    pub open spec fn ledger_consistent(self) -> bool {
        &&& self.owners.dom().finite()
        &&& forall|a: Account|
            a != Account::zero_spec() ==> #[trigger] self.balance(a) == tokens_in(self.owners, a).len()
    }
}

proof fn lemma_sum_remove(m: Map<Account, nat>, keys: Set<Account>, x: Account)
    requires
        keys.finite(),
        keys.contains(x),
    ensures
        sum_balances(m, keys) == balance_in(m, x) + sum_balances(m, keys.remove(x)),
    decreases keys.len(),
{
    let a = keys.choose();
    if a != x {
        lemma_sum_remove(m, keys.remove(a), x);
        lemma_sum_remove(m, keys.remove(x), a);
        assert(keys.remove(a).remove(x) =~= keys.remove(x).remove(a));
    }
}

proof fn lemma_sum_congruent(m1: Map<Account, nat>, m2: Map<Account, nat>, keys: Set<Account>)
    requires
        keys.finite(),
        forall|k: Account| keys.contains(k) ==> balance_in(m1, k) == balance_in(m2, k),
    ensures
        sum_balances(m1, keys) == sum_balances(m2, keys),
    decreases keys.len(),
{
    if keys.len() > 0 {
        let a = keys.choose();
        lemma_sum_congruent(m1, m2, keys.remove(a));
    }
}

/// Recording `v` for `k` changes the sum of the balances by `v` less the
/// balance `k` had.
proof fn lemma_sum_insert(m: Map<Account, nat>, k: Account, v: nat)
    requires
        m.dom().finite(),
    ensures
        sum_balances(m.insert(k, v), m.insert(k, v).dom()) == sum_balances(m, m.dom()) - balance_in(m, k) + v,
{
    let d = m.dom();
    let m2 = m.insert(k, v);
    let d2 = m2.dom();
    assert(d2 =~= d.insert(k));
    lemma_sum_remove(m2, d2, k);
    assert(d2.remove(k) =~= d.remove(k));
    lemma_sum_congruent(m2, m, d.remove(k));
    if d.contains(k) {
        lemma_sum_remove(m, d, k);
    } else {
        assert(d.remove(k) =~= d);
    }
}

proof fn lemma_tokens_finite(owners: Map<U256, Account>, account: Account)
    requires
        owners.dom().finite(),
    ensures
        tokens_in(owners, account).finite(),
{
    owners.dom().lemma_len_filter(|id: U256| owners[id] == account);
}

proof fn lemma_tokens_after_update(owners: Map<U256, Account>, id: U256, recipient: Account, a: Account)
    ensures
        tokens_in(owners.insert(id, recipient), a) == (if a == recipient {
            tokens_in(owners, a).insert(id)
        } else {
            tokens_in(owners, a).remove(id)
        }),
{
    let after = tokens_in(owners.insert(id, recipient), a);
    if a == recipient {
        assert(after =~= tokens_in(owners, a).insert(id));
    } else {
        assert(after =~= tokens_in(owners, a).remove(id));
    }
}

/// The installed contract is consistent.
pub proof fn lemma_initial_consistent(
    name: Seq<char>,
    symbol: Seq<char>,
    base_uri: Seq<char>,
    owner: Account,
    caller: Account,
)
    ensures
        TokenState::initial(name, symbol, base_uri, owner, caller).ledger_consistent(),
{
    let s = TokenState::initial(name, symbol, base_uri, owner, caller);
    assert(s.owners.dom() =~= Set::<U256>::empty());
    assert forall|a: Account| a != Account::zero_spec() implies #[trigger] s.balance(a) == tokens_in(
        s.owners,
        a,
    ).len() by {
        assert(tokens_in(s.owners, a) =~= Set::<U256>::empty());
    }
}

/// The installed contract's balances add up to its (zero) supply.
pub proof fn lemma_initial_supply_balanced(
    name: Seq<char>,
    symbol: Seq<char>,
    base_uri: Seq<char>,
    owner: Account,
    caller: Account,
)
    ensures
        TokenState::initial(name, symbol, base_uri, owner, caller).supply_balanced(),
{
    let s = TokenState::initial(name, symbol, base_uri, owner, caller);
    let empty = Map::<Account, nat>::empty();
    assert(empty.dom() =~= Set::<Account>::empty());
    lemma_sum_insert(empty, caller, 0);
}

/// A mint adds one to a balance and one to the supply, so the balances keep
/// adding up to the supply.
pub proof fn lemma_mint_keeps_supply_balanced(s: TokenState, caller: Account, recipient: Account, id: U256)
    requires
        s.supply_balanced(),
        s.mint(caller, recipient, id) is Ok,
    ensures
        s.mint(caller, recipient, id)->Ok_0.supply_balanced(),
{
    lemma_sum_insert(s.balances, recipient, s.balance(recipient) + 1);
}

/// A transfer within 256-bit balances moves one unit between two balances,
/// so the balances keep adding up to the supply.
pub proof fn lemma_transfer_keeps_supply_balanced(s: TokenState, sender: Account, recipient: Account, id: U256)
    requires
        s.supply_balanced(),
        s.transfer_fits(sender, recipient, id),
        s.transfer(sender, recipient, id) is Ok,
    ensures
        s.transfer(sender, recipient, id)->Ok_0.supply_balanced(),
{
    let debited = s.balances.insert(sender, (s.balance(sender) - 1) as nat);
    lemma_sum_insert(s.balances, sender, (s.balance(sender) - 1) as nat);
    lemma_sum_insert(debited, recipient, balance_in(debited, recipient) + 1);
}

/// `transfer_from` within 256-bit balances keeps the balances adding up to
/// the supply.
pub proof fn lemma_transfer_from_keeps_supply_balanced(
    s: TokenState,
    caller: Account,
    owner: Account,
    recipient: Account,
    id: U256,
)
    requires
        s.supply_balanced(),
        s.transfer_fits(owner, recipient, id),
        s.transfer_from(caller, owner, recipient, id) is Ok,
    ensures
        s.transfer_from(caller, owner, recipient, id)->Ok_0.supply_balanced(),
{
    lemma_transfer_keeps_supply_balanced(s, owner, recipient, id);
}

/// Only a mint changes the supply, and a mint adds exactly one: every other
/// entry point, refused or not, leaves it as it was.
pub proof fn lemma_supply_changes_only_by_mint(s: TokenState, caller: Account, x: Account, y: Account, id: U256)
    ensures
        s.mint(caller, x, id) is Ok ==> s.mint(caller, x, id)->Ok_0.total_supply == s.total_supply + 1,
        s.approve(caller, x, id) is Ok ==> s.approve(caller, x, id)->Ok_0.total_supply == s.total_supply,
        s.approve_all(caller, x).total_supply == s.total_supply,
        s.add_minter(caller, x) is Ok ==> s.add_minter(caller, x)->Ok_0.total_supply == s.total_supply,
        s.transfer(x, y, id) is Ok ==> s.transfer(x, y, id)->Ok_0.total_supply == s.total_supply,
        s.transfer_from(caller, x, y, id) is Ok ==> s.transfer_from(caller, x, y, id)->Ok_0.total_supply
            == s.total_supply,
        s.transfer_ownership(x, y).total_supply == s.total_supply,
        s.remove_minter(x).total_supply == s.total_supply,
{
}

/// The approval of a token stays what it was until the token itself is
/// approved again or moved: no other entry point touches it.
pub proof fn lemma_approval_kept(s: TokenState, id: U256, other: U256, caller: Account, x: Account, y: Account)
    requires
        other != id,
    ensures
        s.approve(caller, x, other) is Ok ==> s.approve(caller, x, other)->Ok_0.approved(id) == s.approved(id),
        s.approve_all(caller, x).approved(id) == s.approved(id),
        s.add_minter(caller, x) is Ok ==> s.add_minter(caller, x)->Ok_0.approved(id) == s.approved(id),
        s.mint(caller, x, id) is Ok ==> s.mint(caller, x, id)->Ok_0.approved(id) == s.approved(id),
        s.mint(caller, x, other) is Ok ==> s.mint(caller, x, other)->Ok_0.approved(id) == s.approved(id),
        s.transfer(x, y, other) is Ok ==> s.transfer(x, y, other)->Ok_0.approved(id) == s.approved(id),
        s.transfer_from(caller, x, y, other) is Ok ==> s.transfer_from(caller, x, y, other)->Ok_0.approved(id)
            == s.approved(id),
        s.transfer_ownership(x, y).approved(id) == s.approved(id),
        s.remove_minter(x).approved(id) == s.approved(id),
{
}

/// Who may approve: `approve` goes ahead exactly when the caller is the
/// account recorded as the token's owner (the zero account when no owner is
/// recorded). It then writes the spender into the token's approval record and
/// nothing else; any other caller is refused with `NotTokenOwner`.
pub proof fn lemma_approve_rule(s: TokenState, caller: Account, spender: Account, id: U256)
    ensures
        s.approve(caller, spender, id) is Ok <==> (if s.owners.contains_key(id) {
            s.owners[id] == caller
        } else {
            caller == Account::zero_spec()
        }),
        s.approve(caller, spender, id) is Err ==> s.approve(caller, spender, id) == Err::<
            TokenState,
            TokenError,
        >(TokenError::NotTokenOwner),
        s.approve(caller, spender, id) is Ok ==> s.approve(caller, spender, id)->Ok_0 == (TokenState {
            approvals: s.approvals.insert(id, spender),
            ..s
        }),
{
}

/// Who may add a minter: `add_minter` goes ahead exactly when the caller's
/// minter record is set. It then sets the new minter's record and nothing
/// else; any other caller is refused with `NotMinter`.
pub proof fn lemma_add_minter_rule(s: TokenState, caller: Account, minter: Account)
    ensures
        s.add_minter(caller, minter) is Ok <==> (s.minter_flags.contains_key(caller)
            && s.minter_flags[caller]),
        s.add_minter(caller, minter) is Err ==> s.add_minter(caller, minter) == Err::<
            TokenState,
            TokenError,
        >(TokenError::NotMinter),
        s.add_minter(caller, minter) is Ok ==> s.add_minter(caller, minter)->Ok_0 == (TokenState {
            minter_flags: s.minter_flags.insert(minter, true),
            ..s
        }),
{
}

/// Who may mint: `mint` goes ahead exactly when no account other than the
/// zero account is recorded as the token's owner and the caller's minter
/// record is set (the "contract_owner" record grants nothing). It then adds
/// one to the recipient's balance and to the supply and records the recipient
/// as the owner; otherwise it is refused with `MintRefused`.
pub proof fn lemma_mint_rule(s: TokenState, caller: Account, recipient: Account, id: U256)
    ensures
        s.mint(caller, recipient, id) is Ok <==> ((!s.owners.contains_key(id) || s.owners[id]
            == Account::zero_spec()) && s.minter_flags.contains_key(caller) && s.minter_flags[caller]),
        s.mint(caller, recipient, id) is Err ==> s.mint(caller, recipient, id) == Err::<
            TokenState,
            TokenError,
        >(TokenError::MintRefused),
        s.mint(caller, recipient, id) is Ok ==> s.mint(caller, recipient, id)->Ok_0 == (TokenState {
            balances: s.balances.insert(recipient, balance_in(s.balances, recipient) + 1),
            owners: s.owners.insert(id, recipient),
            total_supply: s.total_supply + 1,
            ..s
        }),
{
}

/// Who may move a token of `owner` to `recipient`: `transfer_from` is
/// allowed exactly when the operator record of `owner` for `recipient` is set,
/// or the token's approval record names the caller (the zero account when
/// none is recorded), or the caller is `owner`; a caller that is none of these
/// is refused with `NotApproved`, whoever the recipient is. An allowed request
/// goes ahead exactly when `owner` is the token's recorded owner, and is
/// otherwise refused with `NotOwnerOfToken`. Going ahead, it records the
/// recipient as owner, resets the approval to the zero account, and moves one
/// unit of balance from `owner` to `recipient`.
pub proof fn lemma_transfer_from_rule(s: TokenState, caller: Account, owner: Account, recipient: Account, id: U256)
    ensures
        ({
            let pair = OperatorPair { owner, spender: recipient };
            let approved = if s.approvals.contains_key(id) {
                s.approvals[id]
            } else {
                Account::zero_spec()
            };
            let recorded_owner = if s.owners.contains_key(id) {
                s.owners[id]
            } else {
                Account::zero_spec()
            };
            let allowed = (s.operators.contains_key(pair) && s.operators[pair]) || approved == caller
                || caller == owner;
            let r = s.transfer_from(caller, owner, recipient, id);
            &&& !allowed ==> r == Err::<TokenState, TokenError>(TokenError::NotApproved)
            &&& allowed && recorded_owner != owner ==> r == Err::<TokenState, TokenError>(
                TokenError::NotOwnerOfToken,
            )
            &&& r is Ok <==> (allowed && recorded_owner == owner)
            &&& r is Ok ==> {
                let debited = s.balances.insert(owner, (balance_in(s.balances, owner) - 1) as nat);
                r->Ok_0 == TokenState {
                    balances: debited.insert(recipient, balance_in(debited, recipient) + 1),
                    owners: s.owners.insert(id, recipient),
                    approvals: s.approvals.insert(id, Account::zero_spec()),
                    ..s
                }
            }
        }),
{
}

/// A consistent ledger records a balance of at least one for every account
/// other than the zero account that owns a token, so a transfer by such an
/// owner never takes its balance below zero.
pub proof fn lemma_owner_has_balance(s: TokenState, a: Account, id: U256)
    requires
        s.ledger_consistent(),
        a != Account::zero_spec(),
        s.owner_of(id) == a,
    ensures
        s.balance(a) >= 1,
{
    lemma_tokens_finite(s.owners, a);
    assert(tokens_in(s.owners, a).contains(id));
}

/// A transfer keeps the ledger consistent.
pub proof fn lemma_transfer_keeps_consistent(s: TokenState, sender: Account, recipient: Account, id: U256)
    requires
        s.ledger_consistent(),
        s.transfer(sender, recipient, id) is Ok,
    ensures
        s.transfer(sender, recipient, id)->Ok_0.ledger_consistent(),
{
    let t = s.transfer(sender, recipient, id)->Ok_0;
    let zero = Account::zero_spec();
    assert(t.owners.dom() =~= s.owners.dom().insert(id));
    if sender != zero {
        lemma_owner_has_balance(s, sender, id);
    }
    assert forall|a: Account| a != zero implies #[trigger] t.balance(a) == tokens_in(t.owners, a).len() by {
        lemma_tokens_finite(s.owners, a);
        lemma_tokens_after_update(s.owners, id, recipient, a);
        let before = tokens_in(s.owners, a);
        assert(before.contains(id) <==> a == sender);
        assert(s.balance(a) == before.len());
        if a == recipient {
            assert(before.insert(id).len() == before.len() + (if before.contains(id) { 0int } else { 1int }));
        } else {
            assert(before.remove(id).len() == before.len() - (if before.contains(id) { 1int } else { 0int }));
        }
    }
}

/// A mint keeps the ledger consistent.
pub proof fn lemma_mint_keeps_consistent(s: TokenState, caller: Account, recipient: Account, id: U256)
    requires
        s.ledger_consistent(),
        s.mint(caller, recipient, id) is Ok,
    ensures
        s.mint(caller, recipient, id)->Ok_0.ledger_consistent(),
{
    let t = s.mint(caller, recipient, id)->Ok_0;
    let zero = Account::zero_spec();
    assert(t.owners.dom() =~= s.owners.dom().insert(id));
    assert forall|a: Account| a != zero implies #[trigger] t.balance(a) == tokens_in(t.owners, a).len() by {
        lemma_tokens_finite(s.owners, a);
        lemma_tokens_after_update(s.owners, id, recipient, a);
        let before = tokens_in(s.owners, a);
        assert(!before.contains(id));
        assert(s.balance(a) == before.len());
        if a == recipient {
            assert(before.insert(id).len() == before.len() + 1);
        } else {
            assert(before.remove(id) =~= before);
        }
    }
}

/// `transfer_from` keeps the ledger consistent.
pub proof fn lemma_transfer_from_keeps_consistent(
    s: TokenState,
    caller: Account,
    owner: Account,
    recipient: Account,
    id: U256,
)
    requires
        s.ledger_consistent(),
        s.transfer_from(caller, owner, recipient, id) is Ok,
    ensures
        s.transfer_from(caller, owner, recipient, id)->Ok_0.ledger_consistent(),
{
    lemma_transfer_keeps_consistent(s, owner, recipient, id);
}

/// Approvals, operator records and minter flags leave the ledger consistent
/// and the balances adding up to the supply.
pub proof fn lemma_permissions_keep_consistent(
    s: TokenState,
    caller: Account,
    other: Account,
    id: U256,
)
    requires
        s.ledger_consistent(),
    ensures
        s.approve(caller, other, id) is Ok ==> s.approve(caller, other, id)->Ok_0.ledger_consistent(),
        s.approve_all(caller, other).ledger_consistent(),
        s.add_minter(caller, other) is Ok ==> s.add_minter(caller, other)->Ok_0.ledger_consistent(),
        s.transfer_ownership(caller, other).ledger_consistent(),
        s.remove_minter(other).ledger_consistent(),
        s.supply_balanced() ==> {
            &&& s.approve(caller, other, id) is Ok ==> s.approve(caller, other, id)->Ok_0.supply_balanced()
            &&& s.approve_all(caller, other).supply_balanced()
            &&& s.add_minter(caller, other) is Ok ==> s.add_minter(caller, other)->Ok_0.supply_balanced()
            &&& s.transfer_ownership(caller, other).supply_balanced()
            &&& s.remove_minter(other).supply_balanced()
        },
{
    if s.approve(caller, other, id) is Ok {
        let t = s.approve(caller, other, id)->Ok_0;
        assert(forall|a: Account| #[trigger] t.balance(a) == s.balance(a));
    }
    if s.add_minter(caller, other) is Ok {
        let t = s.add_minter(caller, other)->Ok_0;
        assert(forall|a: Account| #[trigger] t.balance(a) == s.balance(a));
    }
    let t1 = s.approve_all(caller, other);
    assert(forall|a: Account| #[trigger] t1.balance(a) == s.balance(a));
    let t2 = s.transfer_ownership(caller, other);
    assert(forall|a: Account| #[trigger] t2.balance(a) == s.balance(a));
    let t3 = s.remove_minter(other);
    assert(forall|a: Account| #[trigger] t3.balance(a) == s.balance(a));
}

/// A transfer that stays within 256-bit balances moves one unit of balance
/// from the sender to the recipient, leaves every other balance and the supply
/// unchanged, hands the token to the recipient and resets its approval.
pub proof fn lemma_transfer_moves_one_token(s: TokenState, sender: Account, recipient: Account, id: U256)
    requires
        s.transfer_fits(sender, recipient, id),
        s.transfer(sender, recipient, id) is Ok,
    ensures
        ({
            let t = s.transfer(sender, recipient, id)->Ok_0;
            &&& t.total_supply == s.total_supply
            &&& t.owner_of(id) == recipient
            &&& t.approved(id) == Account::zero_spec()
            &&& sender != recipient ==> t.balance(sender) + 1 == s.balance(sender)
            &&& sender != recipient ==> t.balance(recipient) == s.balance(recipient) + 1
            &&& t.balance(sender) + t.balance(recipient) == s.balance(sender) + s.balance(recipient)
            &&& forall|a: Account| a != sender && a != recipient ==> #[trigger] t.balance(a) == s.balance(a)
            &&& forall|other: U256| other != id ==> #[trigger] t.owner_of(other) == s.owner_of(other)
        }),
{
}

/// Sending a token and sending it back restores every balance and owner.
pub proof fn lemma_transfer_round_trip(s: TokenState, a: Account, b: Account, id: U256)
    requires
        s.transfer_fits(a, b, id),
        s.transfer(a, b, id) is Ok,
        s.transfer(a, b, id)->Ok_0.transfer_fits(b, a, id),
    ensures
        s.transfer(a, b, id)->Ok_0.transfer(b, a, id) is Ok,
        ({
            let u = s.transfer(a, b, id)->Ok_0.transfer(b, a, id)->Ok_0;
            &&& forall|x: Account| #[trigger] u.balance(x) == s.balance(x)
            &&& forall|t: U256| #[trigger] u.owner_of(t) == s.owner_of(t)
            &&& u.total_supply == s.total_supply
        }),
{
    let t = s.transfer(a, b, id)->Ok_0;
    let u = t.transfer(b, a, id)->Ok_0;
    assert forall|x: Account| #[trigger] u.balance(x) == s.balance(x) by {
        assert(x == a || x == b || u.balance(x) == t.balance(x));
    }
}

/// Once minted to an account other than the zero account, a token cannot be
/// minted again; the mint gives it to the recipient and adds one to the
/// recipient's balance and to the supply.
pub proof fn lemma_mint_once(s: TokenState, caller: Account, recipient: Account, id: U256, caller2: Account, recipient2: Account)
    requires
        s.mint(caller, recipient, id) is Ok,
        recipient != Account::zero_spec(),
    ensures
        ({
            let t = s.mint(caller, recipient, id)->Ok_0;
            &&& t.owner_of(id) == recipient
            &&& t.balance(recipient) == s.balance(recipient) + 1
            &&& t.total_supply == s.total_supply + 1
            &&& t.mint(caller2, recipient2, id) == Err::<TokenState, TokenError>(TokenError::MintRefused)
        }),
{
}

/// After the owner approves `spender` for a token, `spender` reads as its
/// approved account and may move it to any recipient.
pub proof fn lemma_approve_then_transfer_from(s: TokenState, caller: Account, spender: Account, id: U256, owner: Account, recipient: Account)
    requires
        s.approve(caller, spender, id) is Ok,
    ensures
        s.approve(caller, spender, id)->Ok_0.approved(id) == spender,
        s.approve(caller, spender, id)->Ok_0.transfer_from_allowed(spender, owner, recipient, id),
{
}

/// After an owner lets `spender` move all of its tokens, the operator record
/// reads as set and any caller may move any token of that owner to `spender`.
pub proof fn lemma_approve_all_then_transfer_from(s: TokenState, owner: Account, spender: Account, caller: Account, id: U256)
    ensures
        s.approve_all(owner, spender).operator_flag(owner, spender),
        s.approve_all(owner, spender).transfer_from_allowed(caller, owner, spender, id),
{
}

/// A minter can make another account a minter, who may then mint any token
/// that reads as unowned.
pub proof fn lemma_add_minter_then_mint(s: TokenState, caller: Account, minter: Account, recipient: Account, id: U256)
    requires
        s.add_minter(caller, minter) is Ok,
        s.owner_of(id) == Account::zero_spec(),
    ensures
        s.add_minter(caller, minter)->Ok_0.is_minter(minter),
        s.add_minter(caller, minter)->Ok_0.mint_allowed(minter, id),
{
}

/// Handing over contract ownership moves the minter flag, since the
/// contract-owner flags are the minter flags.
pub proof fn lemma_transfer_ownership_moves_minter_flag(s: TokenState, current: Account, new_owner: Account)
    ensures
        s.transfer_ownership(current, new_owner).is_minter(new_owner),
        current != new_owner ==> !s.transfer_ownership(current, new_owner).is_minter(current),
{
}

} // verus!
