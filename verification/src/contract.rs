//! The entry points of the token contract, acting on its records in memory.
//! `caller` is the account that makes the request.
use vstd::prelude::*;

use crate::account::Account;
use crate::error::TokenError;
use crate::keys::{token_uri_text, uri_formatter};
use crate::state::TokenState;
use crate::token::Token;
use crate::uint::U256;

verus! {

/// Installs the contract: the records that a deployment by `caller` creates.
pub fn call(token_name: String, token_symbol: String, base_uri: String, owner: Account, caller: Account) -> (token: Token)
    ensures
        token.wf(),
        token@ == TokenState::initial(token_name@, token_symbol@, base_uri@, owner, caller),
{
    Token::install(token_name, token_symbol, base_uri, owner, caller)
}

pub fn name(token: &Token) -> (text: String)
    ensures
        text@ == token@.name,
{
    token.read_name()
}

pub fn symbol(token: &Token) -> (text: String)
    ensures
        text@ == token@.symbol,
{
    token.read_symbol()
}

pub fn total_supply(token: &Token) -> (n: U256)
    ensures
        n.value() == token@.total_supply,
{
    token.read_total_supply()
}

/// Reads the "owner" record (not the "contract_owner" record that
/// installation writes), so it gives the zero account.
pub fn contract_owner(token: &Token) -> (account: Account)
    ensures
        account == token@.recorded_owner(),
{
    token.read_recorded_owner()
}

/// Whether the caller is the account the "owner" record reads as.
pub fn is_owner(token: &Token, caller: Account) -> (result: bool)
    ensures
        result == (token@.recorded_owner() == caller),
{
    let recorded = token.read_recorded_owner();
    recorded.same_as(&caller)
}

pub fn balance_of(token: &Token, account: Account) -> (n: U256)
    requires
        token.wf(),
    ensures
        n.value() == token@.balance(account),
{
    token.read_balance(&account)
}

pub fn owner_of(token: &Token, id: U256) -> (account: Account)
    requires
        token.wf(),
    ensures
        account == token@.owner_of(id),
{
    token.read_owner(&id)
}

/// The base URI followed by the decimal token id.
pub fn tokenURI(token: &Token, id: U256) -> (uri: String)
    ensures
        uri@ == token_uri_text(token@.base_uri, id),
{
    let base = token.read_base_uri();
    uri_formatter(base, id)
}

pub fn approval(token: &Token, id: U256) -> (account: Account)
    requires
        token.wf(),
    ensures
        account == token@.approved(id),
{
    token.read_approval(&id)
}

/// Whether `owner` has let `spender` move all of its tokens (false when the
/// operator record was never written).
pub fn approval_for_all(token: &Token, owner: Account, spender: Account) -> (flag: bool)
    requires
        token.wf(),
    ensures
        flag == token@.operator_flag(owner, spender),
{
    token.read_operator_flag(&owner, &spender)
}

/// The owner of token `id` approves `spender` for it.
pub fn approve(token: &mut Token, caller: Account, spender: Account, id: U256) -> (r: Result<(), TokenError>)
    requires
        old(token).wf(),
    ensures
        final(token).wf(),
        match old(token)@.approve(caller, spender, id) {
            Ok(s) => r is Ok && final(token)@ == s,
            Err(e) => r == Err::<(), TokenError>(e) && final(token)@ == old(token)@,
        },
{
    token.approve_as(caller, spender, id)
}

/// The caller lets `spender` move all of its tokens.
pub fn approve_all(token: &mut Token, caller: Account, spender: Account)
    requires
        old(token).wf(),
    ensures
        final(token).wf(),
        final(token)@ == old(token)@.approve_all(caller, spender),
{
    token.approve_all_as(caller, spender)
}

/// A minter makes `minter` a minter.
pub fn add_minter(token: &mut Token, caller: Account, minter: Account) -> (r: Result<(), TokenError>)
    requires
        old(token).wf(),
    ensures
        final(token).wf(),
        match old(token)@.add_minter(caller, minter) {
            Ok(s) => r is Ok && final(token)@ == s,
            Err(e) => r == Err::<(), TokenError>(e) && final(token)@ == old(token)@,
        },
{
    token.add_minter_as(caller, minter)
}

/// The caller sends its token `id` to `recipient`.
pub fn transfer(token: &mut Token, caller: Account, recipient: Account, id: U256) -> (r: Result<(), TokenError>)
    requires
        old(token).wf(),
        old(token)@.transfer_fits(caller, recipient, id),
    ensures
        final(token).wf(),
        match old(token)@.transfer(caller, recipient, id) {
            Ok(s) => r is Ok && final(token)@ == s,
            Err(e) => r == Err::<(), TokenError>(e) && final(token)@ == old(token)@,
        },
{
    token._transfer(caller, recipient, id)
}

/// The caller, a minter, creates token `id` for `recipient`.
pub fn mint(token: &mut Token, caller: Account, recipient: Account, id: U256) -> (r: Result<(), TokenError>)
    requires
        old(token).wf(),
        old(token)@.mint_fits(caller, recipient, id),
    ensures
        final(token).wf(),
        match old(token)@.mint(caller, recipient, id) {
            Ok(s) => r is Ok && final(token)@ == s,
            Err(e) => r == Err::<(), TokenError>(e) && final(token)@ == old(token)@,
        },
{
    token._mint(id, recipient, caller)
}

/// The caller moves token `id` from `owner` to `recipient`.
pub fn transfer_from(token: &mut Token, caller: Account, owner: Account, recipient: Account, id: U256) -> (r: Result<(), TokenError>)
    requires
        old(token).wf(),
        old(token)@.transfer_from_allowed(caller, owner, recipient, id) ==> old(token)@.transfer_fits(owner, recipient, id),
    ensures
        final(token).wf(),
        match old(token)@.transfer_from(caller, owner, recipient, id) {
            Ok(s) => r is Ok && final(token)@ == s,
            Err(e) => r == Err::<(), TokenError>(e) && final(token)@ == old(token)@,
        },
{
    token._transfer_from(caller, owner, recipient, id)
}

} // verus!
