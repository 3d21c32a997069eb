//! The named records of a token contract, held in memory.
use vstd::prelude::*;

use crate::account::Account;
use crate::assoc::{OperatorPair, RecordMap};
use crate::decide::{
    apply_write, apply_writes, decide_add_minter, decide_approve, decide_approve_all, decide_mint,
    decide_transfer, decide_transfer_from, lemma_apply_writes_push, RecordWrite,
};
use crate::error::TokenError;
use crate::laws::{
    lemma_initial_consistent, lemma_initial_supply_balanced, lemma_mint_keeps_consistent,
    lemma_mint_keeps_supply_balanced, lemma_permissions_keep_consistent,
    lemma_transfer_keeps_consistent, lemma_transfer_keeps_supply_balanced,
};
use crate::state::TokenState;
use crate::uint::U256;

verus! {

/// The records of one deployed token contract.
pub struct Token {
    name: String,
    symbol: String,
    base_uri: String,
    contract_owner: Account,
    owner_record: Option<Account>,
    total_supply: U256,
    balances: RecordMap<Account, U256>,
    owners: RecordMap<U256, Account>,
    approvals: RecordMap<U256, Account>,
    operators: RecordMap<OperatorPair, bool>,
    minter_flags: RecordMap<Account, bool>,
}

pub open spec fn balance_values(m: Map<Account, U256>) -> Map<Account, nat> {
    m.map_values(|v: U256| v.value())
}

impl View for Token {
    type V = TokenState;

    closed spec fn view(&self) -> TokenState {
        TokenState {
            name: self.name@,
            symbol: self.symbol@,
            base_uri: self.base_uri@,
            contract_owner: self.contract_owner,
            owner_record: self.owner_record,
            total_supply: self.total_supply.value(),
            balances: balance_values(self.balances.view()),
            owners: self.owners.view(),
            approvals: self.approvals.view(),
            operators: self.operators.view(),
            minter_flags: self.minter_flags.view(),
        }
    }
}

impl Token {
    /// The record lists are well formed and the records are consistent: every
    /// balance other than the zero account's counts the tokens owned, and the
    /// balances add up to the supply.
    pub closed spec fn wf(&self) -> bool {
        &&& self.records_wf()
        &&& self@.ledger_consistent()
        &&& self@.supply_balanced()
    }

    /// Every well-formed token keeps the two ledger laws.
    pub proof fn lemma_wf_ledger(&self)
        requires
            self.wf(),
        ensures
            self@.ledger_consistent(),
            self@.supply_balanced(),
    {
    }

    spec fn records_wf(&self) -> bool {
        &&& self.balances.wf()
        &&& self.owners.wf()
        &&& self.approvals.wf()
        &&& self.operators.wf()
        &&& self.minter_flags.wf()
    }

    /// The records that installation by `caller` creates.
    pub fn install(name: String, symbol: String, base_uri: String, owner: Account, caller: Account) -> (token: Token)
        ensures
            token.wf(),
            token@ == TokenState::initial(name@, symbol@, base_uri@, owner, caller),
    {
        let mut balances = RecordMap::new();
        balances.insert(caller, U256::zero());
        let mut minter_flags = RecordMap::new();
        minter_flags.insert(caller, true);
        let token = Token {
            name,
            symbol,
            base_uri,
            contract_owner: owner,
            owner_record: None,
            total_supply: U256::zero(),
            balances,
            owners: RecordMap::new(),
            approvals: RecordMap::new(),
            operators: RecordMap::new(),
            minter_flags,
        };
        assert(token@ =~= TokenState::initial(name@, symbol@, base_uri@, owner, caller));
        proof {
            lemma_initial_consistent(name@, symbol@, base_uri@, owner, caller);
            lemma_initial_supply_balanced(name@, symbol@, base_uri@, owner, caller);
        }
        token
    }

    pub fn read_name(&self) -> (text: String)
        ensures
            text@ == self@.name,
    {
        self.name.clone()
    }

    pub fn read_symbol(&self) -> (text: String)
        ensures
            text@ == self@.symbol,
    {
        self.symbol.clone()
    }

    pub fn read_base_uri(&self) -> (text: String)
        ensures
            text@ == self@.base_uri,
    {
        self.base_uri.clone()
    }

    pub fn read_total_supply(&self) -> (n: U256)
        ensures
            n.value() == self@.total_supply,
    {
        self.total_supply
    }

    /// What the "owner" record reads as.
    pub fn read_recorded_owner(&self) -> (account: Account)
        ensures
            account == self@.recorded_owner(),
    {
        match self.owner_record {
            Some(a) => a,
            None => Account::zero(),
        }
    }

    pub fn read_balance(&self, account: &Account) -> (n: U256)
        requires
            self.wf(),
        ensures
            n.value() == self@.balance(*account),
    {
        match self.balances.get(account) {
            Some(n) => n,
            None => U256::zero(),
        }
    }

    pub fn read_owner(&self, id: &U256) -> (account: Account)
        requires
            self.wf(),
        ensures
            account == self@.owner_of(*id),
    {
        match self.owners.get(id) {
            Some(a) => a,
            None => Account::zero(),
        }
    }

    pub fn read_approval(&self, id: &U256) -> (account: Account)
        requires
            self.wf(),
        ensures
            account == self@.approved(*id),
    {
        match self.approvals.get(id) {
            Some(a) => a,
            None => Account::zero(),
        }
    }

    pub fn read_operator_flag(&self, owner: &Account, spender: &Account) -> (flag: bool)
        requires
            self.wf(),
        ensures
            flag == self@.operator_flag(*owner, *spender),
    {
        match self.operators.get(&OperatorPair { owner: *owner, spender: *spender }) {
            Some(f) => f,
            None => false,
        }
    }

    pub fn read_minter_flag(&self, account: &Account) -> (flag: bool)
        requires
            self.wf(),
        ensures
            flag == self@.is_minter(*account),
    {
        match self.minter_flags.get(account) {
            Some(f) => f,
            None => false,
        }
    }

    /// Sets one record.
    fn apply_record(&mut self, w: RecordWrite)
        requires
            old(self).records_wf(),
        ensures
            final(self).records_wf(),
            final(self)@ == apply_write(old(self)@, w),
    {
        match w {
            RecordWrite::Balance(a, n) => {
                self.balances.insert(a, n);
                assert(balance_values(self.balances.view()) =~= balance_values(
                    old(self).balances.view(),
                ).insert(a, n.value()));
            },
            RecordWrite::Owner(id, a) => {
                self.owners.insert(id, a);
            },
            RecordWrite::Approval(id, a) => {
                self.approvals.insert(id, a);
            },
            RecordWrite::OperatorFlag(o, sp, f) => {
                self.operators.insert(OperatorPair { owner: o, spender: sp }, f);
            },
            RecordWrite::MinterFlag(a, f) => {
                self.minter_flags.insert(a, f);
            },
            RecordWrite::TotalSupply(n) => {
                self.total_supply = n;
            },
        }
        assert(self@ =~= apply_write(old(self)@, w));
    }

    /// Sets the records of a list, first to last.
    fn apply_records(&mut self, ws: &Vec<RecordWrite>)
        requires
            old(self).records_wf(),
        ensures
            final(self).records_wf(),
            final(self)@ == apply_writes(old(self)@, ws@),
    {
        let mut i: usize = 0;
        assert(ws@.take(0) =~= Seq::<RecordWrite>::empty());
        while i < ws.len()
            invariant
                i <= ws@.len(),
                self.records_wf(),
                self@ == apply_writes(old(self)@, ws@.take(i as int)),
            decreases ws@.len() - i,
        {
            proof {
                lemma_apply_writes_push(old(self)@, ws@.take(i as int), ws@[i as int]);
                assert(ws@.take(i + 1) =~= ws@.take(i as int).push(ws@[i as int]));
            }
            self.apply_record(ws[i]);
            i = i + 1;
        }
        assert(ws@.take(ws@.len() as int) =~= ws@);
    }

    /// Records `spender` as the account approved for token `id`.
    pub fn _approve(&mut self, spender: Account, id: U256)
        requires
            old(self).wf(),
        ensures
            final(self).wf(),
            final(self)@ == (TokenState { approvals: old(self)@.approvals.insert(id, spender), ..old(self)@ }),
    {
        self.approvals.insert(id, spender);
        assert(self@ =~= TokenState { approvals: old(self)@.approvals.insert(id, spender), ..old(self)@ });
        assert(forall|a: Account| #[trigger] self@.balance(a) == old(self)@.balance(a));
    }

    /// Sets the operator record of `owner` for `spender`.
    pub fn _approve_all(&mut self, owner: Account, spender: Account)
        requires
            old(self).wf(),
        ensures
            final(self).wf(),
            final(self)@ == old(self)@.approve_all(owner, spender),
    {
        self.operators.insert(OperatorPair { owner, spender }, true);
        assert(self@ =~= old(self)@.approve_all(owner, spender));
        proof {
            lemma_permissions_keep_consistent(old(self)@, owner, spender, U256::zero_spec());
        }
    }

    /// Sets the minter flag of `minter`.
    pub fn _add_minter(&mut self, minter: Account)
        requires
            old(self).wf(),
        ensures
            final(self).wf(),
            final(self)@ == (TokenState { minter_flags: old(self)@.minter_flags.insert(minter, true), ..old(self)@ }),
    {
        self.minter_flags.insert(minter, true);
        assert(self@ =~= TokenState { minter_flags: old(self)@.minter_flags.insert(minter, true), ..old(self)@ });
        assert(forall|a: Account| #[trigger] self@.balance(a) == old(self)@.balance(a));
    }

    /// Clears the contract-owner flag of `current` and sets that of `new_owner`.
    pub fn _transfer_ownership(&mut self, current: Account, new_owner: Account)
        requires
            old(self).wf(),
        ensures
            final(self).wf(),
            final(self)@ == old(self)@.transfer_ownership(current, new_owner),
    {
        self.minter_flags.insert(current, false);
        self.minter_flags.insert(new_owner, true);
        assert(self@ =~= old(self)@.transfer_ownership(current, new_owner));
        proof {
            lemma_permissions_keep_consistent(old(self)@, current, new_owner, U256::zero_spec());
        }
    }

    /// Clears the minter flag of `minter`.
    pub fn _remove_minter(&mut self, minter: Account)
        requires
            old(self).wf(),
        ensures
            final(self).wf(),
            final(self)@ == old(self)@.remove_minter(minter),
    {
        self.minter_flags.insert(minter, false);
        assert(self@ =~= old(self)@.remove_minter(minter));
        proof {
            lemma_permissions_keep_consistent(old(self)@, minter, minter, U256::zero_spec());
        }
    }

    /// `approve` on behalf of `caller`: writes what `decide_approve` answers.
    pub fn approve_as(&mut self, caller: Account, spender: Account, id: U256) -> (r: Result<(), TokenError>)
        requires
            old(self).wf(),
        ensures
            final(self).wf(),
            match old(self)@.approve(caller, spender, id) {
                Ok(s) => r is Ok && final(self)@ == s,
                Err(e) => r == Err::<(), TokenError>(e) && final(self)@ == old(self)@,
            },
    {
        let token_owner = self.read_owner(&id);
        match decide_approve(&caller, &token_owner, spender, id) {
            Err(e) => Err(e),
            Ok(ws) => {
                self.apply_records(&ws);
                proof {
                    let s0 = old(self)@;
                    reveal_with_fuel(apply_writes, 2);
                    assert(ws@.drop_first() =~= Seq::<RecordWrite>::empty());
                    assert(self@ =~= s0.approve(caller, spender, id)->Ok_0);
                    lemma_permissions_keep_consistent(s0, caller, spender, id);
                }
                Ok(())
            },
        }
    }

    /// `approve_all` on behalf of `caller`: writes what `decide_approve_all` answers.
    pub fn approve_all_as(&mut self, caller: Account, spender: Account)
        requires
            old(self).wf(),
        ensures
            final(self).wf(),
            final(self)@ == old(self)@.approve_all(caller, spender),
    {
        let ws = decide_approve_all(caller, spender);
        self.apply_records(&ws);
        proof {
            let s0 = old(self)@;
            reveal_with_fuel(apply_writes, 2);
            assert(ws@.drop_first() =~= Seq::<RecordWrite>::empty());
            assert(self@ =~= s0.approve_all(caller, spender));
            lemma_permissions_keep_consistent(s0, caller, spender, U256::zero_spec());
        }
    }

    /// `add_minter` on behalf of `caller`: writes what `decide_add_minter` answers.
    pub fn add_minter_as(&mut self, caller: Account, minter: Account) -> (r: Result<(), TokenError>)
        requires
            old(self).wf(),
        ensures
            final(self).wf(),
            match old(self)@.add_minter(caller, minter) {
                Ok(s) => r is Ok && final(self)@ == s,
                Err(e) => r == Err::<(), TokenError>(e) && final(self)@ == old(self)@,
            },
    {
        let is_minter = self.read_minter_flag(&caller);
        match decide_add_minter(is_minter, minter) {
            Err(e) => Err(e),
            Ok(ws) => {
                self.apply_records(&ws);
                proof {
                    let s0 = old(self)@;
                    reveal_with_fuel(apply_writes, 2);
                    assert(ws@.drop_first() =~= Seq::<RecordWrite>::empty());
                    assert(self@ =~= s0.add_minter(caller, minter)->Ok_0);
                    lemma_permissions_keep_consistent(s0, caller, minter, U256::zero_spec());
                }
                Ok(())
            },
        }
    }

    /// Moves token `id` from `sender` to `recipient`; refused unless `sender` owns it.
    pub fn _transfer(&mut self, sender: Account, recipient: Account, id: U256) -> (r: Result<(), TokenError>)
        requires
            old(self).wf(),
            old(self)@.transfer_fits(sender, recipient, id),
        ensures
            final(self).wf(),
            match old(self)@.transfer(sender, recipient, id) {
                Ok(s) => r is Ok && final(self)@ == s,
                Err(e) => r == Err::<(), TokenError>(e) && final(self)@ == old(self)@,
            },
    {
        let token_owner = self.read_owner(&id);
        let sender_balance = self.read_balance(&sender);
        let recipient_balance = self.read_balance(&recipient);
        match decide_transfer(&sender, &recipient, id, &token_owner, &sender_balance, &recipient_balance) {
            Err(e) => Err(e),
            Ok(ws) => {
                self.apply_records(&ws);
                proof {
                    let s0 = old(self)@;
                    let s1 = apply_write(s0, ws@[0]);
                    let s2 = apply_write(s1, ws@[1]);
                    let s3 = apply_write(s2, ws@[2]);
                    let s4 = apply_write(s3, ws@[3]);
                    reveal_with_fuel(apply_writes, 5);
                    assert(ws@.drop_first().drop_first().drop_first().drop_first() =~= Seq::<RecordWrite>::empty());
                    assert(self@ == s4);
                    let expected = s0.transfer(sender, recipient, id);
                    assert(expected is Ok);
                    assert(s4 =~= expected->Ok_0);
                    lemma_transfer_keeps_consistent(s0, sender, recipient, id);
                    lemma_transfer_keeps_supply_balanced(s0, sender, recipient, id);
                }
                Ok(())
            },
        }
    }

    /// `transfer_from` after the caller was read: moves token `id` from `owner`
    /// to `recipient` if the caller is allowed to.
    pub fn _transfer_from(&mut self, caller: Account, owner: Account, recipient: Account, id: U256) -> (r: Result<(), TokenError>)
        requires
            old(self).wf(),
            old(self)@.transfer_from_allowed(caller, owner, recipient, id) ==> old(self)@.transfer_fits(owner, recipient, id),
        ensures
            final(self).wf(),
            match old(self)@.transfer_from(caller, owner, recipient, id) {
                Ok(s) => r is Ok && final(self)@ == s,
                Err(e) => r == Err::<(), TokenError>(e) && final(self)@ == old(self)@,
            },
    {
        let approved = self.read_approval(&id);
        let operator = self.read_operator_flag(&owner, &recipient);
        match decide_transfer_from(&caller, &owner, &approved, operator) {
            Err(e) => Err(e),
            Ok(()) => self._transfer(owner, recipient, id),
        }
    }

    /// Creates token `id` for `receiver` if `caller` is a minter and the token
    /// reads as owned by the zero account.
    pub fn _mint(&mut self, id: U256, receiver: Account, caller: Account) -> (r: Result<(), TokenError>)
        requires
            old(self).wf(),
            old(self)@.mint_fits(caller, receiver, id),
        ensures
            final(self).wf(),
            match old(self)@.mint(caller, receiver, id) {
                Ok(s) => r is Ok && final(self)@ == s,
                Err(e) => r == Err::<(), TokenError>(e) && final(self)@ == old(self)@,
            },
    {
        let token_owner = self.read_owner(&id);
        let is_minter = self.read_minter_flag(&caller);
        let receiver_balance = self.read_balance(&receiver);
        match decide_mint(is_minter, &token_owner, receiver, id, &receiver_balance, &self.total_supply) {
            Err(e) => Err(e),
            Ok(ws) => {
                self.apply_records(&ws);
                proof {
                    let s0 = old(self)@;
                    let s1 = apply_write(s0, ws@[0]);
                    let s2 = apply_write(s1, ws@[1]);
                    let s3 = apply_write(s2, ws@[2]);
                    reveal_with_fuel(apply_writes, 4);
                    assert(ws@.drop_first().drop_first().drop_first() =~= Seq::<RecordWrite>::empty());
                    assert(self@ == s3);
                    let expected = s0.mint(caller, receiver, id);
                    assert(expected is Ok);
                    assert(s3 =~= expected->Ok_0);
                    lemma_mint_keeps_consistent(s0, caller, receiver, id);
                    lemma_mint_keeps_supply_balanced(s0, caller, receiver, id);
                }
                Ok(())
            },
        }
    }
}

} // verus!
