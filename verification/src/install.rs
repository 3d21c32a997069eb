//! What installing the contract sets up: the records it starts with and the
//! entry points it declares.
use vstd::prelude::*;

use crate::account::Account;
use crate::keys::{balance_key, balance_key_text, contract_owner_key, contract_owner_key_text, minter_key, minter_key_text};
use crate::uint::U256;

verus! {

/// The type of an entry point's argument or result.
#[derive(Clone, Copy, Debug, PartialEq, Eq, Structural)]
pub enum ValueType {
    String,
    U32,
    U256,
    Unit,
    Bool,
    AccountHash,
}

/// A named argument of an entry point.
#[derive(Clone, Debug)]
pub struct ParameterDef {
    pub name: String,
    pub value_type: ValueType,
}

/// Who may call an entry point.
#[derive(Clone, Debug)]
pub enum Access {
    /// Anyone.
    Public,
    /// Only members of the named groups.
    Groups(Vec<String>),
}

/// The context an entry point runs in.
#[derive(Clone, Copy, Debug, PartialEq, Eq, Structural)]
pub enum EntryPointKind {
    /// As session code, in the caller's context.
    Session,
    /// In the contract's own context.
    Contract,
}

/// An entry point of the contract.
#[derive(Clone, Debug)]
pub struct EntryPointDef {
    pub name: String,
    pub parameters: Vec<ParameterDef>,
    pub returns: ValueType,
    pub access: Access,
    pub kind: EntryPointKind,
}

/// Name, arguments, result type, public access, and context of an entry point.
pub type EntryPointSpec = (Seq<char>, Seq<(Seq<char>, ValueType)>, ValueType, bool, EntryPointKind);

impl ParameterDef {
    pub open spec fn spec(self) -> (Seq<char>, ValueType) {
        (self.name@, self.value_type)
    }

    pub fn new(name: &str, value_type: ValueType) -> (p: ParameterDef)
        ensures
            p.spec() == (name@, value_type),
    {
        ParameterDef { name: String::from_str(name), value_type }
    }
}

impl EntryPointDef {
    /// Name, arguments, result type, whether anyone may call it, and the
    /// context it runs in.
    pub open spec fn spec(self) -> EntryPointSpec {
        (
            self.name@,
            self.parameters@.map_values(|p: ParameterDef| p.spec()),
            self.returns,
            self.access is Public,
            self.kind,
        )
    }
}

/// A public contract entry point with the given name, arguments and result type.
pub fn endpoint(name: &str, param: Vec<ParameterDef>, ret: ValueType) -> (e: EntryPointDef)
    ensures
        e.name@ == name@,
        e.parameters@ == param@,
        e.returns == ret,
        e.access is Public,
        e.kind == EntryPointKind::Contract,
{
    EntryPointDef {
        name: String::from_str(name),
        parameters: param,
        returns: ret,
        access: Access::Public,
        kind: EntryPointKind::Contract,
    }
}

/// The entry points installation declares, in the order it declares them
/// ("symbol" twice, with the same signature); every one is public and runs in
/// the contract's context.
pub open spec fn declared_entry_points() -> Seq<EntryPointSpec> {
    seq![
        ("name"@, seq![], ValueType::String, true, EntryPointKind::Contract),
        ("symbol"@, seq![], ValueType::String, true, EntryPointKind::Contract),
        ("symbol"@, seq![], ValueType::String, true, EntryPointKind::Contract),
        ("total_supply"@, seq![], ValueType::U32, true, EntryPointKind::Contract),
        ("transfer"@, seq![("recipient"@, ValueType::AccountHash), ("id"@, ValueType::U256)], ValueType::Unit, true, EntryPointKind::Contract),
        ("balance_of"@, seq![("account"@, ValueType::AccountHash)], ValueType::U256, true, EntryPointKind::Contract),
        ("is_owner"@, seq![], ValueType::Bool, true, EntryPointKind::Contract),
        ("approve_all"@, seq![("spender"@, ValueType::AccountHash)], ValueType::Unit, true, EntryPointKind::Contract),
        ("approval"@, seq![("id"@, ValueType::U256)], ValueType::AccountHash, true, EntryPointKind::Contract),
        ("approval_for_all"@, seq![("owner"@, ValueType::AccountHash), ("spender"@, ValueType::AccountHash)], ValueType::Bool, true, EntryPointKind::Contract),
        ("approve"@, seq![("id"@, ValueType::U256)], ValueType::Unit, true, EntryPointKind::Contract),
        ("mint"@, seq![("to"@, ValueType::AccountHash), ("id"@, ValueType::U256)], ValueType::Unit, true, EntryPointKind::Contract),
        ("add_minter"@, seq![("minter"@, ValueType::AccountHash)], ValueType::Unit, true, EntryPointKind::Contract),
        ("transfer_from"@, seq![("owner"@, ValueType::AccountHash), ("recipient"@, ValueType::AccountHash), ("id"@, ValueType::U256)], ValueType::Unit, true, EntryPointKind::Contract),
    ]
}

fn no_params() -> (v: Vec<ParameterDef>)
    ensures
        v@.map_values(|p: ParameterDef| p.spec()) == Seq::<(Seq<char>, ValueType)>::empty(),
{
    let v = Vec::new();
    assert(v@.map_values(|p: ParameterDef| p.spec()) =~= Seq::<(Seq<char>, ValueType)>::empty());
    v
}

fn one_param(a: ParameterDef) -> (v: Vec<ParameterDef>)
    ensures
        v@.map_values(|p: ParameterDef| p.spec()) == seq![a.spec()],
{
    let mut v = Vec::new();
    v.push(a);
    assert(v@.map_values(|p: ParameterDef| p.spec()) =~= seq![a.spec()]);
    v
}

fn two_params(a: ParameterDef, b: ParameterDef) -> (v: Vec<ParameterDef>)
    ensures
        v@.map_values(|p: ParameterDef| p.spec()) == seq![a.spec(), b.spec()],
{
    let mut v = Vec::new();
    v.push(a);
    v.push(b);
    assert(v@.map_values(|p: ParameterDef| p.spec()) =~= seq![a.spec(), b.spec()]);
    v
}

fn three_params(a: ParameterDef, b: ParameterDef, c: ParameterDef) -> (v: Vec<ParameterDef>)
    ensures
        v@.map_values(|p: ParameterDef| p.spec()) == seq![a.spec(), b.spec(), c.spec()],
{
    let mut v = Vec::new();
    v.push(a);
    v.push(b);
    v.push(c);
    assert(v@.map_values(|p: ParameterDef| p.spec()) =~= seq![a.spec(), b.spec(), c.spec()]);
    v
}

/// The entry points that installation declares.
pub fn contract_entry_points() -> (defs: Vec<EntryPointDef>)
    ensures
        defs@.map_values(|e: EntryPointDef| e.spec()) == declared_entry_points(),
{
    let mut defs: Vec<EntryPointDef> = Vec::new();
    defs.push(endpoint("name", no_params(), ValueType::String));
    defs.push(endpoint("symbol", no_params(), ValueType::String));
    defs.push(endpoint("symbol", no_params(), ValueType::String));
    defs.push(endpoint("total_supply", no_params(), ValueType::U32));
    defs.push(
        endpoint(
            "transfer",
            two_params(
                ParameterDef::new("recipient", ValueType::AccountHash),
                ParameterDef::new("id", ValueType::U256),
            ),
            ValueType::Unit,
        ),
    );
    defs.push(
        endpoint(
            "balance_of",
            one_param(ParameterDef::new("account", ValueType::AccountHash)),
            ValueType::U256,
        ),
    );
    defs.push(endpoint("is_owner", no_params(), ValueType::Bool));
    defs.push(
        endpoint(
            "approve_all",
            one_param(ParameterDef::new("spender", ValueType::AccountHash)),
            ValueType::Unit,
        ),
    );
    defs.push(
        endpoint(
            "approval",
            one_param(ParameterDef::new("id", ValueType::U256)),
            ValueType::AccountHash,
        ),
    );
    defs.push(
        endpoint(
            "approval_for_all",
            two_params(
                ParameterDef::new("owner", ValueType::AccountHash),
                ParameterDef::new("spender", ValueType::AccountHash),
            ),
            ValueType::Bool,
        ),
    );
    defs.push(
        endpoint("approve", one_param(ParameterDef::new("id", ValueType::U256)), ValueType::Unit),
    );
    defs.push(
        endpoint(
            "mint",
            two_params(
                ParameterDef::new("to", ValueType::AccountHash),
                ParameterDef::new("id", ValueType::U256),
            ),
            ValueType::Unit,
        ),
    );
    defs.push(
        endpoint(
            "add_minter",
            one_param(ParameterDef::new("minter", ValueType::AccountHash)),
            ValueType::Unit,
        ),
    );
    defs.push(
        endpoint(
            "transfer_from",
            three_params(
                ParameterDef::new("owner", ValueType::AccountHash),
                ParameterDef::new("recipient", ValueType::AccountHash),
                ParameterDef::new("id", ValueType::U256),
            ),
            ValueType::Unit,
        ),
    );
    assert(defs@.map_values(|e: EntryPointDef| e.spec()) =~= declared_entry_points());
    defs
}

/// The value of a named record.
#[derive(Clone, Debug)]
pub enum RecordValue {
    Text(String),
    Number(U256),
    Account(Account),
    Flag(bool),
}

/// The records that installation by `caller` writes, in the order it writes
/// them; the last two have the same name (the contract-owner record of the
/// caller is its minter record) and the same value.
pub fn initial_records(token_name: String, token_symbol: String, base_uri: String, owner: Account, caller: Account) -> (records: Vec<(String, RecordValue)>)
    ensures
        records@.len() == 8,
        records@[0].0@ == "name"@,
        (records@[0].1 matches RecordValue::Text(t) && t@ == token_name@),
        records@[1].0@ == "symbol"@,
        (records@[1].1 matches RecordValue::Text(t) && t@ == token_symbol@),
        records@[2].0@ == "base_uri"@,
        (records@[2].1 matches RecordValue::Text(t) && t@ == base_uri@),
        records@[3].0@ == "contract_owner"@ && records@[3].1 == RecordValue::Account(owner),
        records@[4].0@ == "total_supply"@,
        (records@[4].1 matches RecordValue::Number(n) && n.value() == 0),
        records@[5].0@ == balance_key_text(caller),
        (records@[5].1 matches RecordValue::Number(n) && n.value() == 0),
        records@[6].0@ == minter_key_text(caller) && records@[6].1 == RecordValue::Flag(true),
        records@[7].0@ == contract_owner_key_text(caller) && records@[7].1 == RecordValue::Flag(true),
{
    let mut records: Vec<(String, RecordValue)> = Vec::new();
    records.push((String::from_str("name"), RecordValue::Text(token_name)));
    records.push((String::from_str("symbol"), RecordValue::Text(token_symbol)));
    records.push((String::from_str("base_uri"), RecordValue::Text(base_uri)));
    records.push((String::from_str("contract_owner"), RecordValue::Account(owner)));
    records.push((String::from_str("total_supply"), RecordValue::Number(U256::zero())));
    records.push((balance_key(&caller), RecordValue::Number(U256::zero())));
    records.push((minter_key(&caller), RecordValue::Flag(true)));
    records.push((contract_owner_key(&caller), RecordValue::Flag(true)));
    records
}

} // verus!
