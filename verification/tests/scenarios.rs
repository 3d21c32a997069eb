use erc721::account::Account;
use erc721::contract::{
    approval, approval_for_all, approve, approve_all, balance_of, call, mint, name, owner_of,
    symbol, tokenURI, transfer, transfer_from,
};
use erc721::token::Token;
use erc721::uint::U256;

const NAME: &str = "ERC721";
const SYMBOL: &str = "ERC";
const BASE_URI: &str = "test.io/";

struct Deployed {
    token: Token,
    ali: Account,
    bob: Account,
    default: Account,
}

fn deployed() -> Deployed {
    let ali = Account::new([1u8; 32]);
    let bob = Account::new([2u8; 32]);
    let token = call(
        NAME.to_string(),
        SYMBOL.to_string(),
        BASE_URI.to_string(),
        ali,
        ali,
    );
    Deployed { token, ali, bob, default: Account::zero() }
}

fn id(n: u64) -> U256 {
    U256::from_u64(n)
}

fn value(n: U256) -> [u64; 4] {
    n.limbs
}

#[test]
fn test_erc721_deploy() {
    let t = deployed();
    assert_eq!(name(&t.token), NAME);
    assert_eq!(symbol(&t.token), SYMBOL);
    assert_eq!(value(balance_of(&t.token, t.bob)), [0, 0, 0, 0]);
}

#[test]
fn test_erc721_transfer() {
    let mut t = deployed();
    let (ali, bob) = (t.ali, t.bob);
    mint(&mut t.token, ali, bob, id(10)).unwrap();
    assert_eq!(value(balance_of(&t.token, bob)), [1, 0, 0, 0]);
    transfer(&mut t.token, bob, ali, id(10)).unwrap();
    assert_eq!(value(balance_of(&t.token, ali)), [1, 0, 0, 0]);
    assert_eq!(value(balance_of(&t.token, bob)), [0, 0, 0, 0]);
}

#[test]
fn test_erc721_approve_transfer() {
    let mut t = deployed();
    let (ali, bob) = (t.ali, t.bob);
    mint(&mut t.token, ali, bob, id(10)).unwrap();
    mint(&mut t.token, ali, bob, id(11)).unwrap();
    approve(&mut t.token, bob, ali, id(10)).unwrap();
    transfer_from(&mut t.token, ali, bob, ali, id(10)).unwrap();
    transfer_from(&mut t.token, bob, bob, ali, id(11)).unwrap();
    assert_eq!(value(balance_of(&t.token, ali)), [2, 0, 0, 0]);
    assert_eq!(approval(&t.token, id(10)).bytes, t.default.bytes);
}

#[test]
fn test_erc721_approve_all() {
    let mut t = deployed();
    let (ali, bob) = (t.ali, t.bob);
    mint(&mut t.token, ali, bob, id(10)).unwrap();
    mint(&mut t.token, ali, bob, id(11)).unwrap();
    mint(&mut t.token, ali, bob, id(17)).unwrap();
    approve_all(&mut t.token, bob, ali);
    transfer_from(&mut t.token, ali, bob, ali, id(10)).unwrap();
    transfer_from(&mut t.token, bob, bob, ali, id(11)).unwrap();
    transfer_from(&mut t.token, ali, bob, ali, id(17)).unwrap();
    assert_eq!(value(balance_of(&t.token, ali)), [3, 0, 0, 0]);
    assert_eq!(owner_of(&t.token, id(10)).bytes, ali.bytes);
    assert_eq!(owner_of(&t.token, id(11)).bytes, ali.bytes);
    assert_eq!(owner_of(&t.token, id(17)).bytes, ali.bytes);
    assert_eq!(approval_for_all(&t.token, bob, ali), true);
}

#[test]
fn test_erc721_test_uri() {
    let mut t = deployed();
    let (ali, bob) = (t.ali, t.bob);
    mint(&mut t.token, ali, bob, id(123)).unwrap();
    let uri = tokenURI(&t.token, id(123));
    assert_eq!(uri, "test.io/123");
}

#[test]
#[should_panic]
fn test_erc721_transfer_too_much() {
    let mut t = deployed();
    let (ali, bob) = (t.ali, t.bob);
    mint(&mut t.token, ali, bob, id(1)).unwrap();
    transfer(&mut t.token, bob, ali, id(1)).unwrap();
    transfer(&mut t.token, bob, ali, id(1)).unwrap();
}
