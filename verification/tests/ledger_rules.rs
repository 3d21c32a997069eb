use erc721::account::Account;
use erc721::contract::{
    add_minter, approval, approval_for_all, approve, approve_all, balance_of, call,
    contract_owner, is_owner, mint, owner_of, total_supply, transfer, transfer_from,
};
use erc721::decide::{
    decide_add_minter, decide_approve, decide_approve_all, decide_mint, decide_transfer,
    decide_transfer_from, record_name, RecordWrite,
};
use erc721::error::{FailureCode, TokenError};
use erc721::install::{
    contract_entry_points, endpoint, initial_records, Access, EntryPointKind, RecordValue,
    ValueType,
};
use erc721::keys::{
    approval_all_key, approval_key, balance_key, contract_owner_key, minter_key, owner_key,
    uri_formatter,
};
use erc721::token::Token;
use erc721::uint::U256;

fn acct(b: u8) -> Account {
    Account::new([b; 32])
}

fn deploy(deployer: Account) -> Token {
    call("N".to_string(), "S".to_string(), "base/".to_string(), acct(9), deployer)
}

#[test]
fn keys_use_hex_and_decimal_text() {
    let a = acct(0xab);
    let hex = "ab".repeat(32);
    assert_eq!(balance_key(&a), format!("balances_{}", hex));
    assert_eq!(minter_key(&a), format!("minter_{}", hex));
    assert_eq!(contract_owner_key(&a), minter_key(&a));
    let mut bytes = [0u8; 32];
    bytes[0] = 0x0f;
    bytes[31] = 0xa0;
    let b = Account::new(bytes);
    let hex_b = format!("0f{}a0", "00".repeat(30));
    assert_eq!(approval_all_key(&a, &b), format!("approval_all_{}_{}", hex, hex_b));
    assert_eq!(owner_key(U256::from_u64(0)), "owner_0");
    assert_eq!(approval_key(&U256::from_u64(42)), "approval_42");
    let two_pow_64 = U256::from_limbs([0, 1, 0, 0]);
    assert_eq!(owner_key(two_pow_64), "owner_18446744073709551616");
    let max = U256::from_limbs([u64::MAX; 4]);
    assert_eq!(
        approval_key(&max),
        "approval_115792089237316195423570985008687907853269984665640564039457584007913129639935"
    );
    assert_eq!(uri_formatter("base/".to_string(), U256::from_u64(7)), "base/7");
}

#[test]
fn u256_carries_and_borrows() {
    let n = U256::from_limbs([u64::MAX, u64::MAX, 3, 0]);
    assert_eq!(n.increment().limbs, [0, 0, 4, 0]);
    let m = U256::from_limbs([0, 0, 4, 0]);
    assert_eq!(m.decrement().limbs, [u64::MAX, u64::MAX, 3, 0]);
    assert!(U256::from_limbs([u64::MAX; 4]).is_max());
    assert!(!U256::from_limbs([u64::MAX, u64::MAX, u64::MAX, 5]).is_max());
    assert!(U256::zero().is_zero());
    assert!(U256::from_u64(5).same_as(&U256::from_limbs([5, 0, 0, 0])));
    assert!(!U256::from_u64(5).same_as(&U256::from_limbs([5, 1, 0, 0])));
}

#[test]
fn error_codes() {
    assert_eq!(TokenError::NotOwnerOfToken.failure_code(), FailureCode::Two);
    assert_eq!(TokenError::NotTokenOwner.failure_code(), FailureCode::One);
    assert_eq!(TokenError::NotMinter.failure_code(), FailureCode::One);
    assert_eq!(TokenError::NotApproved.failure_code(), FailureCode::One);
    assert_eq!(TokenError::MintRefused.failure_code(), FailureCode::One);
    assert_eq!(FailureCode::Zero.code(), 0);
    assert_eq!(FailureCode::One.code(), 1);
    assert_eq!(FailureCode::Two.code(), 2);
}

#[test]
fn installation_state() {
    let ali = acct(1);
    let t = deploy(ali);
    assert!(total_supply(&t).is_zero());
    assert_eq!(contract_owner(&t).bytes, [0u8; 32]);
    assert!(is_owner(&t, Account::zero()));
    assert!(!is_owner(&t, ali));
    assert!(t.read_minter_flag(&ali));
    assert!(!t.read_minter_flag(&acct(2)));
    assert!(!approval_for_all(&t, ali, acct(2)));
}

#[test]
fn refusals() {
    let ali = acct(1);
    let bob = acct(2);
    let carol = acct(3);
    let mut t = deploy(ali);
    assert_eq!(mint(&mut t, bob, bob, U256::from_u64(1)), Err(TokenError::MintRefused));
    mint(&mut t, ali, bob, U256::from_u64(1)).unwrap();
    assert_eq!(mint(&mut t, ali, carol, U256::from_u64(1)), Err(TokenError::MintRefused));
    assert_eq!(approve(&mut t, carol, carol, U256::from_u64(1)), Err(TokenError::NotTokenOwner));
    assert_eq!(add_minter(&mut t, bob, carol), Err(TokenError::NotMinter));
    assert_eq!(
        transfer_from(&mut t, carol, bob, carol, U256::from_u64(1)),
        Err(TokenError::NotApproved)
    );
    assert_eq!(transfer(&mut t, carol, ali, U256::from_u64(1)), Err(TokenError::NotOwnerOfToken));
    assert_eq!(owner_of(&t, U256::from_u64(1)).bytes, bob.bytes);
    assert_eq!(balance_of(&t, bob).limbs, [1, 0, 0, 0]);
    assert_eq!(total_supply(&t).limbs, [1, 0, 0, 0]);
}

#[test]
fn minters_and_self_transfer() {
    let ali = acct(1);
    let bob = acct(2);
    let mut t = deploy(ali);
    add_minter(&mut t, ali, bob).unwrap();
    mint(&mut t, bob, bob, U256::from_u64(5)).unwrap();
    transfer(&mut t, bob, bob, U256::from_u64(5)).unwrap();
    assert_eq!(balance_of(&t, bob).limbs, [1, 0, 0, 0]);
    approve(&mut t, bob, ali, U256::from_u64(5)).unwrap();
    assert_eq!(approval(&t, U256::from_u64(5)).bytes, ali.bytes);
    transfer(&mut t, bob, ali, U256::from_u64(5)).unwrap();
    assert_eq!(approval(&t, U256::from_u64(5)).bytes, [0u8; 32]);
    t._transfer_ownership(bob, ali);
    assert!(!t.read_minter_flag(&bob));
    assert!(t.read_minter_flag(&ali));
    t._remove_minter(ali);
    assert!(!t.read_minter_flag(&ali));
}

#[test]
fn operator_record_checks_recipient() {
    let ali = acct(1);
    let bob = acct(2);
    let carol = acct(3);
    let mut t = deploy(ali);
    mint(&mut t, ali, bob, U256::from_u64(8)).unwrap();
    approve_all(&mut t, bob, carol);
    assert!(approval_for_all(&t, bob, carol));
    assert!(!approval_for_all(&t, carol, bob));
    // the operator record of (owner, recipient) is what counts, whoever calls
    assert_eq!(
        transfer_from(&mut t, ali, bob, ali, U256::from_u64(8)),
        Err(TokenError::NotApproved)
    );
    transfer_from(&mut t, ali, bob, carol, U256::from_u64(8)).unwrap();
    assert_eq!(owner_of(&t, U256::from_u64(8)).bytes, carol.bytes);
}

fn balance_write(w: &RecordWrite) -> ([u8; 32], [u64; 4]) {
    match w {
        RecordWrite::Balance(a, n) => (a.bytes, n.limbs),
        _ => panic!("not a balance write"),
    }
}

#[test]
fn decisions() {
    let a = acct(1);
    let b = acct(2);
    let id = U256::from_u64(6);
    let ws = decide_transfer(&a, &b, id, &a, &U256::from_u64(3), &U256::from_u64(7)).unwrap();
    assert_eq!(ws.len(), 4);
    assert_eq!(balance_write(&ws[0]), ([1u8; 32], [2, 0, 0, 0]));
    assert_eq!(balance_write(&ws[1]), ([2u8; 32], [8, 0, 0, 0]));
    assert!(matches!(ws[2], RecordWrite::Owner(i, o) if i.limbs == [6, 0, 0, 0] && o.bytes == [2u8; 32]));
    assert!(matches!(ws[3], RecordWrite::Approval(i, o) if i.limbs == [6, 0, 0, 0] && o.bytes == [0u8; 32]));
    let same = decide_transfer(&a, &a, id, &a, &U256::from_u64(3), &U256::from_u64(3)).unwrap();
    assert_eq!(balance_write(&same[0]), ([1u8; 32], [2, 0, 0, 0]));
    assert_eq!(balance_write(&same[1]), ([1u8; 32], [3, 0, 0, 0]));
    assert_eq!(
        decide_transfer(&a, &b, id, &b, &U256::from_u64(0), &U256::from_u64(0)).unwrap_err(),
        TokenError::NotOwnerOfToken
    );
    assert!(decide_transfer_from(&a, &b, &Account::zero(), true).is_ok());
    assert!(decide_transfer_from(&a, &b, &a, false).is_ok());
    assert!(decide_transfer_from(&b, &b, &a, false).is_ok());
    assert_eq!(
        decide_transfer_from(&a, &b, &Account::zero(), false),
        Err(TokenError::NotApproved)
    );
    let m = decide_mint(true, &Account::zero(), b, id, &U256::from_u64(0), &U256::from_limbs([u64::MAX, 0, 0, 0]))
        .unwrap();
    assert_eq!(m.len(), 3);
    assert_eq!(balance_write(&m[0]), ([2u8; 32], [1, 0, 0, 0]));
    assert!(matches!(m[1], RecordWrite::Owner(i, o) if i.limbs == [6, 0, 0, 0] && o.bytes == [2u8; 32]));
    assert!(matches!(m[2], RecordWrite::TotalSupply(n) if n.limbs == [0, 1, 0, 0]));
    assert_eq!(
        decide_mint(true, &a, b, id, &U256::from_u64(0), &U256::from_u64(0)).unwrap_err(),
        TokenError::MintRefused
    );
    let ap = decide_approve(&a, &a, b, id).unwrap();
    assert!(matches!(ap[..], [RecordWrite::Approval(i, s)] if i.limbs == [6, 0, 0, 0] && s.bytes == [2u8; 32]));
    assert_eq!(decide_approve(&b, &a, b, id).unwrap_err(), TokenError::NotTokenOwner);
    let all = decide_approve_all(a, b);
    assert!(matches!(all[..], [RecordWrite::OperatorFlag(o, s, true)] if o.bytes == [1u8; 32] && s.bytes == [2u8; 32]));
    assert_eq!(record_name(&all[0]), approval_all_key(&a, &b));
    let mm = decide_add_minter(true, b).unwrap();
    assert!(matches!(mm[..], [RecordWrite::MinterFlag(m, true)] if m.bytes == [2u8; 32]));
    assert_eq!(record_name(&mm[0]), minter_key(&b));
    assert_eq!(decide_add_minter(false, b).unwrap_err(), TokenError::NotMinter);
    assert_eq!(record_name(&RecordWrite::TotalSupply(U256::zero())), "total_supply");
    assert_eq!(record_name(&ws[2]), owner_key(id));
    assert_eq!(record_name(&ws[3]), approval_key(&id));
    assert_eq!(record_name(&ws[0]), balance_key(&a));
}

#[test]
fn declared_entry_points_and_records() {
    let defs = contract_entry_points();
    let names: Vec<&str> = defs.iter().map(|d| d.name.as_str()).collect();
    assert_eq!(
        names,
        vec![
            "name", "symbol", "symbol", "total_supply", "transfer", "balance_of", "is_owner",
            "approve_all", "approval", "approval_for_all", "approve", "mint", "add_minter",
            "transfer_from"
        ]
    );
    assert_eq!(defs[3].returns, ValueType::U32);
    assert_eq!(defs[11].parameters[0].name, "to");
    assert_eq!(defs[13].parameters.len(), 3);
    for d in &defs {
        assert!(matches!(d.access, Access::Public));
        assert_eq!(d.kind, EntryPointKind::Contract);
    }
    let e = endpoint("x", Vec::new(), ValueType::Bool);
    assert!(matches!(e.access, Access::Public));
    assert_eq!(e.kind, EntryPointKind::Contract);
    let ali = acct(1);
    let records = initial_records("N".to_string(), "S".to_string(), "B".to_string(), acct(9), ali);
    assert_eq!(records.len(), 8);
    assert_eq!(records[3].0, "contract_owner");
    assert!(matches!(records[3].1, RecordValue::Account(a) if a.bytes == [9u8; 32]));
    assert_eq!(records[5].0, balance_key(&ali));
    assert_eq!(records[6].0, records[7].0);
    assert!(matches!(records[7].1, RecordValue::Flag(true)));
}

#[test]
fn transfer_and_back_restores_balances() {
    let ali = acct(1);
    let bob = acct(2);
    let mut t = deploy(ali);
    mint(&mut t, ali, ali, U256::from_u64(3)).unwrap();
    mint(&mut t, ali, bob, U256::from_u64(4)).unwrap();
    transfer(&mut t, ali, bob, U256::from_u64(3)).unwrap();
    assert_eq!(balance_of(&t, ali).limbs, [0, 0, 0, 0]);
    assert_eq!(balance_of(&t, bob).limbs, [2, 0, 0, 0]);
    transfer(&mut t, bob, ali, U256::from_u64(3)).unwrap();
    assert_eq!(balance_of(&t, ali).limbs, [1, 0, 0, 0]);
    assert_eq!(balance_of(&t, bob).limbs, [1, 0, 0, 0]);
    assert_eq!(owner_of(&t, U256::from_u64(3)).bytes, ali.bytes);
    assert_eq!(owner_of(&t, U256::from_u64(4)).bytes, bob.bytes);
    assert_eq!(total_supply(&t).limbs, [2, 0, 0, 0]);
    approve(&mut t, ali, bob, U256::from_u64(3)).unwrap();
    transfer(&mut t, bob, ali, U256::from_u64(4)).unwrap();
    assert_eq!(approval(&t, U256::from_u64(3)).bytes, bob.bytes);
}

#[test]
fn balances_count_owned_tokens() {
    let ali = acct(1);
    let bob = acct(2);
    let carol = acct(3);
    let mut t = deploy(ali);
    for n in 0..6u64 {
        let to = if n % 2 == 0 { bob } else { carol };
        mint(&mut t, ali, to, U256::from_u64(n)).unwrap();
    }
    transfer(&mut t, bob, carol, U256::from_u64(2)).unwrap();
    approve(&mut t, carol, bob, U256::from_u64(1)).unwrap();
    transfer_from(&mut t, bob, carol, ali, U256::from_u64(1)).unwrap();
    for who in [ali, bob, carol] {
        let owned = (0..6u64)
            .filter(|n| owner_of(&t, U256::from_u64(*n)).bytes == who.bytes)
            .count() as u64;
        assert_eq!(balance_of(&t, who).limbs, [owned, 0, 0, 0]);
    }
    let sum: u64 = [ali, bob, carol].iter().map(|w| balance_of(&t, *w).limbs[0]).sum();
    assert_eq!(total_supply(&t).limbs, [sum, 0, 0, 0]);
}

#[test]
fn distinct_records_have_distinct_names() {
    let a = acct(1);
    let b = acct(2);
    assert_ne!(balance_key(&a), balance_key(&b));
    assert_ne!(balance_key(&a), minter_key(&a));
    assert_ne!(owner_key(U256::from_u64(1)), owner_key(U256::from_u64(10)));
    assert_ne!(approval_key(&U256::from_u64(1)), approval_all_key(&a, &b));
    assert_ne!(approval_all_key(&a, &b), approval_all_key(&b, &a));
    assert_ne!(owner_key(U256::from_u64(1)), "owner");
}
