//! The decisions of the contract's entry points, from the records they read to
//! the records they write. A host adapter reads the named records, asks one of
//! these functions, and writes exactly the records it answers with, in order;
//! `Token` applies the same answers to the records it holds in memory.
use vstd::prelude::*;

use crate::account::Account;
use crate::error::TokenError;
use crate::keys::{
    approval_all_key, approval_all_key_text, approval_key, approval_key_text, balance_key,
    balance_key_text, minter_key, minter_key_text, owner_key, owner_key_text,
};
use crate::state::{operator_pair, TokenState};
use crate::uint::{u256_max, U256};

verus! {

/// One record that an entry point writes, with its new value.
#[derive(Clone, Copy, Debug)]
pub enum RecordWrite {
    /// The balance record of an account.
    Balance(Account, U256),
    /// The owner record of a token.
    Owner(U256, Account),
    /// The approval record of a token.
    Approval(U256, Account),
    /// The operator record of an owner (first) and a spender (second).
    OperatorFlag(Account, Account, bool),
    /// The minter record of an account.
    MinterFlag(Account, bool),
    /// The "total_supply" record.
    TotalSupply(U256),
}

/// The name of the record that a write sets.
pub open spec fn record_name_text(w: RecordWrite) -> Seq<char> {
    match w {
        RecordWrite::Balance(a, _) => balance_key_text(a),
        RecordWrite::Owner(id, _) => owner_key_text(id),
        RecordWrite::Approval(id, _) => approval_key_text(id),
        RecordWrite::OperatorFlag(o, s, _) => approval_all_key_text(o, s),
        RecordWrite::MinterFlag(a, _) => minter_key_text(a),
        RecordWrite::TotalSupply(_) => "total_supply"@,
    }
}

/// The state after one write.
pub open spec fn apply_write(s: TokenState, w: RecordWrite) -> TokenState {
    match w {
        RecordWrite::Balance(a, n) => TokenState { balances: s.balances.insert(a, n.value()), ..s },
        RecordWrite::Owner(id, a) => TokenState { owners: s.owners.insert(id, a), ..s },
        RecordWrite::Approval(id, a) => TokenState { approvals: s.approvals.insert(id, a), ..s },
        RecordWrite::OperatorFlag(o, sp, f) => TokenState {
            operators: s.operators.insert(operator_pair(o, sp), f),
            ..s
        },
        RecordWrite::MinterFlag(a, f) => TokenState { minter_flags: s.minter_flags.insert(a, f), ..s },
        RecordWrite::TotalSupply(n) => TokenState { total_supply: n.value(), ..s },
    }
}

/// The state after a list of writes, first to last.
pub open spec fn apply_writes(s: TokenState, ws: Seq<RecordWrite>) -> TokenState
    decreases ws.len(),
{
    if ws.len() == 0 {
        s
    } else {
        apply_writes(apply_write(s, ws[0]), ws.drop_first())
    }
}

/// Writing a list and then one more record is writing the longer list.
pub proof fn lemma_apply_writes_push(s: TokenState, ws: Seq<RecordWrite>, w: RecordWrite)
    ensures
        apply_writes(s, ws.push(w)) == apply_write(apply_writes(s, ws), w),
    decreases ws.len(),
{
    let longer = ws.push(w);
    assert(longer[0] == if ws.len() == 0 { w } else { ws[0] });
    if ws.len() == 0 {
        assert(longer.drop_first() =~= Seq::<RecordWrite>::empty());
        assert(apply_writes(apply_write(s, w), Seq::<RecordWrite>::empty()) == apply_write(s, w));
    } else {
        assert(longer.drop_first() =~= ws.drop_first().push(w));
        lemma_apply_writes_push(apply_write(s, ws[0]), ws.drop_first(), w);
    }
}

/// The name of the record that `w` sets.
pub fn record_name(w: &RecordWrite) -> (name: String)
    ensures
        name@ == record_name_text(*w),
{
    match w {
        RecordWrite::Balance(a, _) => balance_key(a),
        RecordWrite::Owner(id, _) => owner_key(*id),
        RecordWrite::Approval(id, _) => approval_key(id),
        RecordWrite::OperatorFlag(o, s, _) => approval_all_key(o, s),
        RecordWrite::MinterFlag(a, _) => minter_key(a),
        RecordWrite::TotalSupply(_) => String::from_str("total_supply"),
    }
}

/// `approve` goes ahead only for the owner of the token, and then writes
/// `spender` into the token's approval record.
pub fn decide_approve(caller: &Account, token_owner: &Account, spender: Account, id: U256) -> (r: Result<Vec<RecordWrite>, TokenError>)
    ensures
        *token_owner == *caller ==> (r matches Ok(ws) && ws@ == seq![RecordWrite::Approval(id, spender)]),
        *token_owner != *caller ==> r == Err::<Vec<RecordWrite>, TokenError>(TokenError::NotTokenOwner),
{
    if token_owner.same_as(caller) {
        let mut ws = Vec::new();
        ws.push(RecordWrite::Approval(id, spender));
        assert(ws@ =~= seq![RecordWrite::Approval(id, spender)]);
        Ok(ws)
    } else {
        Err(TokenError::NotTokenOwner)
    }
}

/// `approve_all` sets the operator record of the caller for `spender`.
pub fn decide_approve_all(caller: Account, spender: Account) -> (ws: Vec<RecordWrite>)
    ensures
        ws@ == seq![RecordWrite::OperatorFlag(caller, spender, true)],
{
    let mut ws = Vec::new();
    ws.push(RecordWrite::OperatorFlag(caller, spender, true));
    assert(ws@ =~= seq![RecordWrite::OperatorFlag(caller, spender, true)]);
    ws
}

/// `add_minter` goes ahead only for a minter, and then sets the minter record
/// of `minter`.
pub fn decide_add_minter(caller_is_minter: bool, minter: Account) -> (r: Result<Vec<RecordWrite>, TokenError>)
    ensures
        caller_is_minter ==> (r matches Ok(ws) && ws@ == seq![RecordWrite::MinterFlag(minter, true)]),
        !caller_is_minter ==> r == Err::<Vec<RecordWrite>, TokenError>(TokenError::NotMinter),
{
    if caller_is_minter {
        let mut ws = Vec::new();
        ws.push(RecordWrite::MinterFlag(minter, true));
        assert(ws@ =~= seq![RecordWrite::MinterFlag(minter, true)]);
        Ok(ws)
    } else {
        Err(TokenError::NotMinter)
    }
}

/// `transfer_from` goes ahead when the owner has approved the recipient for
/// all tokens, when the caller is the account approved for the token, or when
/// the caller is the owner; what it writes is then what a transfer from the
/// owner writes.
pub fn decide_transfer_from(
    caller: &Account,
    owner: &Account,
    approved: &Account,
    recipient_is_operator: bool,
) -> (r: Result<(), TokenError>)
    ensures
        r is Ok <==> (recipient_is_operator || *approved == *caller || *caller == *owner),
        r is Err ==> r == Err::<(), TokenError>(TokenError::NotApproved),
{
    if recipient_is_operator || approved.same_as(caller) || caller.same_as(owner) {
        Ok(())
    } else {
        Err(TokenError::NotApproved)
    }
}

/// A transfer goes ahead only when `sender` owns the token. It then writes,
/// in order: the sender's balance less one; the recipient's balance, as read
/// after that write, plus one (so a transfer to oneself leaves the balance as
/// it was); the recipient as the token's owner; the zero account as the
/// token's approval.
pub fn decide_transfer(
    sender: &Account,
    recipient: &Account,
    id: U256,
    token_owner: &Account,
    sender_balance: &U256,
    recipient_balance: &U256,
) -> (r: Result<Vec<RecordWrite>, TokenError>)
    requires
        *token_owner == *sender ==> {
            &&& sender_balance.value() >= 1
            &&& *recipient != *sender ==> recipient_balance.value() < u256_max()
        },
    ensures
        r is Ok <==> *token_owner == *sender,
        match r {
            Ok(ws) => {
                &&& ws@.len() == 4
                &&& ws@[0] matches RecordWrite::Balance(a, n) && a == *sender && n.value() + 1
                    == sender_balance.value()
                &&& ws@[1] matches RecordWrite::Balance(a, n) && a == *recipient && n.value() == (
                if *recipient == *sender {
                    sender_balance.value()
                } else {
                    recipient_balance.value() + 1
                })
                &&& ws@[2] == RecordWrite::Owner(id, *recipient)
                &&& ws@[3] == RecordWrite::Approval(id, Account::zero_spec())
            },
            Err(e) => e == TokenError::NotOwnerOfToken,
        },
{
    if !token_owner.same_as(sender) {
        return Err(TokenError::NotOwnerOfToken);
    }
    let new_sender_balance = sender_balance.decrement();
    let read_back = if recipient.same_as(sender) {
        new_sender_balance
    } else {
        *recipient_balance
    };
    proof {
        read_back.lemma_value_bounds();
    }
    let new_recipient_balance = read_back.increment();
    let mut ws = Vec::new();
    ws.push(RecordWrite::Balance(*sender, new_sender_balance));
    ws.push(RecordWrite::Balance(*recipient, new_recipient_balance));
    ws.push(RecordWrite::Owner(id, *recipient));
    ws.push(RecordWrite::Approval(id, Account::zero()));
    Ok(ws)
}

/// `mint` goes ahead only for a token that reads as owned by the zero account
/// and a caller that is a minter. It then writes, in order: the receiver's
/// balance plus one, the receiver as the token's owner, and the supply plus one.
pub fn decide_mint(
    caller_is_minter: bool,
    token_owner: &Account,
    receiver: Account,
    id: U256,
    receiver_balance: &U256,
    total_supply: &U256,
) -> (r: Result<Vec<RecordWrite>, TokenError>)
    requires
        (*token_owner == Account::zero_spec() && caller_is_minter) ==> {
            &&& receiver_balance.value() < u256_max()
            &&& total_supply.value() < u256_max()
        },
    ensures
        r is Ok <==> (*token_owner == Account::zero_spec() && caller_is_minter),
        match r {
            Ok(ws) => {
                &&& ws@.len() == 3
                &&& ws@[0] matches RecordWrite::Balance(a, n) && a == receiver && n.value()
                    == receiver_balance.value() + 1
                &&& ws@[1] == RecordWrite::Owner(id, receiver)
                &&& ws@[2] matches RecordWrite::TotalSupply(n) && n.value() == total_supply.value() + 1
            },
            Err(e) => e == TokenError::MintRefused,
        },
{
    let zero = Account::zero();
    if token_owner.same_as(&zero) && caller_is_minter {
        let mut ws = Vec::new();
        ws.push(RecordWrite::Balance(receiver, receiver_balance.increment()));
        ws.push(RecordWrite::Owner(id, receiver));
        ws.push(RecordWrite::TotalSupply(total_supply.increment()));
        Ok(ws)
    } else {
        Err(TokenError::MintRefused)
    }
}

} // verus!
