//! The abstract state of the token contract (its named records) and what
//! each entry point does to it.
use vstd::prelude::*;

use crate::account::Account;
use crate::assoc::OperatorPair;
use crate::error::TokenError;
use crate::uint::{u256_max, U256};

verus! {

/// The records of a deployed token contract. A record that was never written
/// reads as the default of its type: zero, the zero account or `false`.
#[verifier::ext_equal]
pub struct TokenState {
    /// The "name" record.
    pub name: Seq<char>,
    /// The "symbol" record.
    pub symbol: Seq<char>,
    /// The "base_uri" record.
    pub base_uri: Seq<char>,
    /// The "contract_owner" record, written once at installation.
    pub contract_owner: Account,
    /// The "owner" record, which the contract reads but never writes.
    pub owner_record: Option<Account>,
    /// The "total_supply" record.
    pub total_supply: nat,
    /// The balance records, per account.
    pub balances: Map<Account, nat>,
    /// The owner records, per token.
    pub owners: Map<U256, Account>,
    /// The approval records, per token.
    pub approvals: Map<U256, Account>,
    /// The operator records, per owner and spender.
    pub operators: Map<OperatorPair, bool>,
    /// The minter records (which are also the contract-owner flags), per account.
    pub minter_flags: Map<Account, bool>,
}

pub open spec fn balance_in(balances: Map<Account, nat>, account: Account) -> nat {
    if balances.contains_key(account) {
        balances[account]
    } else {
        0
    }
}

pub open spec fn operator_pair(owner: Account, spender: Account) -> OperatorPair {
    OperatorPair { owner, spender }
}

impl TokenState {
    /// The state right after installation by `caller`: the three texts, the
    /// contract owner, a zero supply, a zero balance record for the caller and
    /// a set minter flag for the caller.
    pub open spec fn initial(
        name: Seq<char>,
        symbol: Seq<char>,
        base_uri: Seq<char>,
        owner: Account,
        caller: Account,
    ) -> TokenState {
        TokenState {
            name,
            symbol,
            base_uri,
            contract_owner: owner,
            owner_record: None,
            total_supply: 0,
            balances: Map::empty().insert(caller, 0),
            owners: Map::empty(),
            approvals: Map::empty(),
            operators: Map::empty(),
            minter_flags: Map::empty().insert(caller, true),
        }
    }

    pub open spec fn balance(self, account: Account) -> nat {
        balance_in(self.balances, account)
    }

    pub open spec fn owner_of(self, id: U256) -> Account {
        if self.owners.contains_key(id) {
            self.owners[id]
        } else {
            Account::zero_spec()
        }
    }

    pub open spec fn approved(self, id: U256) -> Account {
        if self.approvals.contains_key(id) {
            self.approvals[id]
        } else {
            Account::zero_spec()
        }
    }

    pub open spec fn operator_flag(self, owner: Account, spender: Account) -> bool {
        self.operators.contains_key(operator_pair(owner, spender)) && self.operators[operator_pair(
            owner,
            spender,
        )]
    }

    pub open spec fn is_minter(self, account: Account) -> bool {
        self.minter_flags.contains_key(account) && self.minter_flags[account]
    }

    /// What the "owner" record reads as.
    pub open spec fn recorded_owner(self) -> Account {
        match self.owner_record {
            Some(a) => a,
            None => Account::zero_spec(),
        }
    }

    /// `approve`: the owner of a token names the one account approved for it.
    pub open spec fn approve(self, caller: Account, spender: Account, id: U256) -> Result<
        TokenState,
        TokenError,
    > {
        if self.owner_of(id) == caller {
            Ok(TokenState { approvals: self.approvals.insert(id, spender), ..self })
        } else {
            Err(TokenError::NotTokenOwner)
        }
    }

    /// `approve_all`: the caller lets `spender` move all of its tokens.
    pub open spec fn approve_all(self, caller: Account, spender: Account) -> TokenState {
        TokenState { operators: self.operators.insert(operator_pair(caller, spender), true), ..self }
    }

    /// `add_minter`: a minter makes another account a minter.
    pub open spec fn add_minter(self, caller: Account, minter: Account) -> Result<
        TokenState,
        TokenError,
    > {
        if self.is_minter(caller) {
            Ok(TokenState { minter_flags: self.minter_flags.insert(minter, true), ..self })
        } else {
            Err(TokenError::NotMinter)
        }
    }

    /// Clears the contract-owner flag of `current` and sets that of `new_owner`;
    /// these flags are the minter flags.
    pub open spec fn transfer_ownership(self, current: Account, new_owner: Account) -> TokenState {
        TokenState {
            minter_flags: self.minter_flags.insert(current, false).insert(new_owner, true),
            ..self
        }
    }

    /// Clears the minter flag of `minter`.
    pub open spec fn remove_minter(self, minter: Account) -> TokenState {
        TokenState { minter_flags: self.minter_flags.insert(minter, false), ..self }
    }

    /// Whether a transfer of `id` from `sender` to `recipient` stays within
    /// 256-bit balances: the sender's balance is not zero, and the recipient's
    /// is not the largest value.
    pub open spec fn transfer_fits(self, sender: Account, recipient: Account, id: U256) -> bool {
        self.owner_of(id) == sender ==> {
            &&& self.balance(sender) >= 1
            &&& recipient != sender ==> self.balance(recipient) < u256_max()
        }
    }

    /// A transfer of `id` from `sender` to `recipient`: refused unless `sender`
    /// owns the token; otherwise the sender's balance drops by one, then the
    /// recipient's rises by one, the recipient owns the token and its approval
    /// is reset to the zero account.
    pub open spec fn transfer(self, sender: Account, recipient: Account, id: U256) -> Result<
        TokenState,
        TokenError,
    > {
        if self.owner_of(id) != sender {
            Err(TokenError::NotOwnerOfToken)
        } else {
            let debited = self.balances.insert(sender, (self.balance(sender) - 1) as nat);
            let credited = debited.insert(recipient, balance_in(debited, recipient) + 1);
            Ok(
                TokenState {
                    balances: credited,
                    owners: self.owners.insert(id, recipient),
                    approvals: self.approvals.insert(id, Account::zero_spec()),
                    ..self
                },
            )
        }
    }

    /// Whether `caller` may move token `id` from `owner` to `recipient`: the
    /// owner has approved the recipient for all tokens, or the caller is the
    /// account approved for the token, or the caller is the owner.
    pub open spec fn transfer_from_allowed(
        self,
        caller: Account,
        owner: Account,
        recipient: Account,
        id: U256,
    ) -> bool {
        self.operator_flag(owner, recipient) || self.approved(id) == caller || caller == owner
    }

    /// `transfer_from`: a transfer from `owner`, refused unless the caller is allowed.
    pub open spec fn transfer_from(
        self,
        caller: Account,
        owner: Account,
        recipient: Account,
        id: U256,
    ) -> Result<TokenState, TokenError> {
        if self.transfer_from_allowed(caller, owner, recipient, id) {
            self.transfer(owner, recipient, id)
        } else {
            Err(TokenError::NotApproved)
        }
    }

    /// Whether `mint` may go ahead: the token reads as owned by the zero
    /// account and the caller is a minter.
    pub open spec fn mint_allowed(self, caller: Account, id: U256) -> bool {
        self.owner_of(id) == Account::zero_spec() && self.is_minter(caller)
    }

    /// Whether a mint stays within 256-bit numbers.
    pub open spec fn mint_fits(self, caller: Account, recipient: Account, id: U256) -> bool {
        self.mint_allowed(caller, id) ==> {
            &&& self.balance(recipient) < u256_max()
            &&& self.total_supply < u256_max()
        }
    }

    /// `mint`: a minter creates token `id` for `recipient`.
    pub open spec fn mint(self, caller: Account, recipient: Account, id: U256) -> Result<
        TokenState,
        TokenError,
    > {
        if self.mint_allowed(caller, id) {
            Ok(
                TokenState {
                    balances: self.balances.insert(recipient, self.balance(recipient) + 1),
                    owners: self.owners.insert(id, recipient),
                    total_supply: self.total_supply + 1,
                    ..self
                },
            )
        } else {
            Err(TokenError::MintRefused)
        }
    }
}

} // verus!
