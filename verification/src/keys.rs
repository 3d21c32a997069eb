//! The names under which the token contract keeps its records, and the laws
//! that make distinct records live under distinct names.
use vstd::prelude::*;

use crate::account::{account_hash_text, hex_lower, lemma_hex_lower_shape, Account};
use crate::uint::{
    decimal_text, decimal_value, is_decimal_char, lemma_decimal_text_injective,
    lemma_decimal_text_round_trip, lemma_decimal_text_shape, u256_text, U256,
};

verus! {

/// Name of the record holding the balance of `account`.
pub open spec fn balance_key_text(account: Account) -> Seq<char> {
    "balances_"@ + hex_lower(account.bytes@)
}

/// Name of the record holding whether `account` may mint.
pub open spec fn minter_key_text(account: Account) -> Seq<char> {
    "minter_"@ + hex_lower(account.bytes@)
}

/// Name of the record holding whether `account` owns the contract; it is
/// built with the same prefix as the minter record.
pub open spec fn contract_owner_key_text(account: Account) -> Seq<char> {
    "minter_"@ + hex_lower(account.bytes@)
}

/// Name of the record holding the owner of token `id`.
pub open spec fn owner_key_text(id: U256) -> Seq<char> {
    "owner_"@ + decimal_text(id.value())
}

/// Name of the record holding the account approved for token `id`.
pub open spec fn approval_key_text(id: U256) -> Seq<char> {
    "approval_"@ + decimal_text(id.value())
}

/// Name of the record holding whether `spender` may move every token of `owner`.
pub open spec fn approval_all_key_text(owner: Account, spender: Account) -> Seq<char> {
    "approval_all_"@ + hex_lower(owner.bytes@) + "_"@ + hex_lower(spender.bytes@)
}

/// The URI of token `id`: the base URI followed by the decimal id.
pub open spec fn token_uri_text(base: Seq<char>, id: U256) -> Seq<char> {
    base + decimal_text(id.value())
}

/// The names of the records that are not per account or per token.
pub open spec fn is_fixed_record_name(key: Seq<char>) -> bool {
    ||| key == "name"@
    ||| key == "symbol"@
    ||| key == "base_uri"@
    ||| key == "contract_owner"@
    ||| key == "total_supply"@
    ||| key == "owner"@
}

proof fn lemma_strip_prefix(p: Seq<char>, x: Seq<char>, y: Seq<char>)
    requires
        p + x == p + y,
    ensures
        x == y,
{
    assert(x =~= (p + x).subrange(p.len() as int, (p + x).len() as int));
    assert(y =~= (p + y).subrange(p.len() as int, (p + y).len() as int));
}

proof fn lemma_differ_at(x: Seq<char>, y: Seq<char>, k: int)
    requires
        0 <= k < x.len(),
        0 <= k < y.len(),
        x[k] != y[k],
    ensures
        x != y,
{
}

/// Accounts with the same balance record are the same account.
pub proof fn lemma_balance_key_injective(a: Account, b: Account)
    requires
        balance_key_text(a) == balance_key_text(b),
    ensures
        a == b,
{
    lemma_strip_prefix("balances_"@, hex_lower(a.bytes@), hex_lower(b.bytes@));
    a.lemma_text_injective(b);
}

/// Accounts with the same minter record are the same account.
pub proof fn lemma_minter_key_injective(a: Account, b: Account)
    requires
        minter_key_text(a) == minter_key_text(b),
    ensures
        a == b,
{
    lemma_strip_prefix("minter_"@, hex_lower(a.bytes@), hex_lower(b.bytes@));
    a.lemma_text_injective(b);
}

/// The contract-owner record of an account is its minter record: writing one
/// writes the other.
pub proof fn lemma_contract_owner_key_is_minter_key(a: Account)
    ensures
        contract_owner_key_text(a) == minter_key_text(a),
{
}

/// Tokens with the same owner record are the same token.
pub proof fn lemma_owner_key_injective(i: U256, j: U256)
    requires
        owner_key_text(i) == owner_key_text(j),
    ensures
        i == j,
{
    lemma_strip_prefix("owner_"@, decimal_text(i.value()), decimal_text(j.value()));
    lemma_decimal_text_injective(i.value(), j.value());
    i.lemma_value_injective(j);
}

/// Tokens with the same approval record are the same token.
pub proof fn lemma_approval_key_injective(i: U256, j: U256)
    requires
        approval_key_text(i) == approval_key_text(j),
    ensures
        i == j,
{
    lemma_strip_prefix("approval_"@, decimal_text(i.value()), decimal_text(j.value()));
    lemma_decimal_text_injective(i.value(), j.value());
    i.lemma_value_injective(j);
}

/// Owner/spender pairs with the same operator record are the same pair.
pub proof fn lemma_approval_all_key_injective(o1: Account, s1: Account, o2: Account, s2: Account)
    requires
        approval_all_key_text(o1, s1) == approval_all_key_text(o2, s2),
    ensures
        o1 == o2,
        s1 == s2,
{
    let p = "approval_all_"@;
    let h1 = hex_lower(o1.bytes@);
    let h2 = hex_lower(o2.bytes@);
    let t1 = "_"@ + hex_lower(s1.bytes@);
    let t2 = "_"@ + hex_lower(s2.bytes@);
    lemma_hex_lower_shape(o1.bytes@);
    lemma_hex_lower_shape(o2.bytes@);
    assert(p + h1 + "_"@ + hex_lower(s1.bytes@) =~= p + (h1 + t1));
    assert(p + h2 + "_"@ + hex_lower(s2.bytes@) =~= p + (h2 + t2));
    lemma_strip_prefix(p, h1 + t1, h2 + t2);
    assert(h1 =~= (h1 + t1).subrange(0, 64));
    assert(h2 =~= (h2 + t2).subrange(0, 64));
    o1.lemma_text_injective(o2);
    lemma_strip_prefix(h1, t1, t2);
    lemma_strip_prefix("_"@, hex_lower(s1.bytes@), hex_lower(s2.bytes@));
    s1.lemma_text_injective(s2);
}

/// Records of different kinds never share a name, and no per-account or
/// per-token record is named like a fixed record; the one coincidence is
/// that an account's contract-owner record is its minter record.
pub proof fn lemma_record_names_distinct(a: Account, b: Account, i: U256, j: U256, o: Account, s: Account)
    ensures
        balance_key_text(a) != minter_key_text(b),
        balance_key_text(a) != owner_key_text(i),
        balance_key_text(a) != approval_key_text(i),
        balance_key_text(a) != approval_all_key_text(o, s),
        minter_key_text(a) != owner_key_text(i),
        minter_key_text(a) != approval_key_text(i),
        minter_key_text(a) != approval_all_key_text(o, s),
        owner_key_text(i) != approval_key_text(j),
        owner_key_text(i) != approval_all_key_text(o, s),
        approval_key_text(i) != approval_all_key_text(o, s),
        !is_fixed_record_name(balance_key_text(a)),
        !is_fixed_record_name(minter_key_text(a)),
        !is_fixed_record_name(owner_key_text(i)),
        !is_fixed_record_name(approval_key_text(i)),
        !is_fixed_record_name(approval_all_key_text(o, s)),
{
    reveal_strlit("balances_");
    reveal_strlit("minter_");
    reveal_strlit("owner_");
    reveal_strlit("approval_");
    reveal_strlit("approval_all_");
    reveal_strlit("_");
    reveal_strlit("name");
    reveal_strlit("symbol");
    reveal_strlit("base_uri");
    reveal_strlit("contract_owner");
    reveal_strlit("total_supply");
    reveal_strlit("owner");
    lemma_hex_lower_shape(a.bytes@);
    lemma_hex_lower_shape(b.bytes@);
    lemma_hex_lower_shape(o.bytes@);
    lemma_hex_lower_shape(s.bytes@);
    lemma_decimal_text_shape(i.value());
    lemma_decimal_text_shape(j.value());
    let ba = balance_key_text(a);
    let mb = minter_key_text(b);
    let ma = minter_key_text(a);
    let oi = owner_key_text(i);
    let ai = approval_key_text(i);
    let aj = approval_key_text(j);
    let aos = approval_all_key_text(o, s);
    assert(ba[0] == 'b');
    assert(ba[2] == 'l');
    assert(mb[0] == 'm');
    assert(ma[0] == 'm');
    assert(oi[0] == 'o');
    assert(oi.len() >= 7);
    assert(ai[0] == 'a');
    assert(aj[0] == 'a');
    assert(aos[0] == 'a');
    assert(aos[9] == 'a');
    assert(ai[9] == decimal_text(i.value())[0]);
    assert(is_decimal_char(decimal_text(i.value())[0]));
    lemma_differ_at(ba, mb, 0);
    lemma_differ_at(ba, oi, 0);
    lemma_differ_at(ba, ai, 0);
    lemma_differ_at(ba, aos, 0);
    lemma_differ_at(ma, oi, 0);
    lemma_differ_at(ma, ai, 0);
    lemma_differ_at(ma, aos, 0);
    lemma_differ_at(oi, aj, 0);
    lemma_differ_at(oi, aos, 0);
    lemma_differ_at(ai, aos, 9);
    lemma_differ_at(ba, "base_uri"@, 2);
}

/// A token URI is the base URI followed by decimal digits, with no leading
/// zero, that read back as the token id: distinct ids give distinct URIs.
pub proof fn lemma_token_uri_reads_back(base: Seq<char>, id: U256)
    ensures
        ({
            let uri = token_uri_text(base, id);
            let digits = uri.subrange(base.len() as int, uri.len() as int);
            &&& uri.len() > base.len()
            &&& uri.subrange(0, base.len() as int) == base
            &&& forall|i: int| 0 <= i < digits.len() ==> is_decimal_char(#[trigger] digits[i])
            &&& digits.len() == 1 || digits[0] != '0'
            &&& decimal_value(digits) == id.value()
        }),
{
    let uri = token_uri_text(base, id);
    let d = decimal_text(id.value());
    lemma_decimal_text_shape(id.value());
    lemma_decimal_text_round_trip(id.value());
    assert(uri.subrange(base.len() as int, uri.len() as int) =~= d);
    assert(uri.subrange(0, base.len() as int) =~= base);
}

pub fn balance_key(account: &Account) -> (key: String)
    ensures
        key@ == balance_key_text(*account),
{
    let text = account_hash_text(account);
    String::from_str("balances_").concat(text.as_str())
}

pub fn minter_key(account: &Account) -> (key: String)
    ensures
        key@ == minter_key_text(*account),
{
    let text = account_hash_text(account);
    String::from_str("minter_").concat(text.as_str())
}

pub fn contract_owner_key(account: &Account) -> (key: String)
    ensures
        key@ == contract_owner_key_text(*account),
{
    let text = account_hash_text(account);
    String::from_str("minter_").concat(text.as_str())
}

pub fn owner_key(id: U256) -> (key: String)
    ensures
        key@ == owner_key_text(id),
{
    let text = u256_text(&id);
    String::from_str("owner_").concat(text.as_str())
}

pub fn uri_formatter(base: String, id: U256) -> (uri: String)
    ensures
        uri@ == token_uri_text(base@, id),
        uri@.subrange(0, base@.len() as int) == base@,
        decimal_value(uri@.subrange(base@.len() as int, uri@.len() as int)) == id.value(),
{
    let ghost b = base@;
    let text = u256_text(&id);
    let uri = base.concat(text.as_str());
    proof {
        lemma_token_uri_reads_back(b, id);
    }
    uri
}

pub fn approval_key(id: &U256) -> (key: String)
    ensures
        key@ == approval_key_text(*id),
{
    let text = u256_text(id);
    String::from_str("approval_").concat(text.as_str())
}

pub fn approval_all_key(owner: &Account, spender: &Account) -> (key: String)
    ensures
        key@ == approval_all_key_text(*owner, *spender),
{
    let owner_text = account_hash_text(owner);
    let spender_text = account_hash_text(spender);
    String::from_str("approval_all_").concat(owner_text.as_str()).concat("_").concat(
        spender_text.as_str(),
    )
}

} // verus!
