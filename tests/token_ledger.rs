use seibond::token::{
    BalanceResponse, ExecuteMsg, InstantiateMsg, QueryMsg, QueryResponse, TokenError, TokenInfoResponse, TokenLedger,
};

fn ledger(initial_supply: u128, minter: Option<&str>) -> TokenLedger {
    TokenLedger::instantiate(
        &"OWNER".to_string(),
        InstantiateMsg {
            name: "SeiX".to_string(),
            symbol: "SEIX".to_string(),
            decimals: 6,
            initial_supply,
            minter: minter.map(|m| m.to_string()),
        },
    )
}

fn balance(l: &TokenLedger, who: &str) -> u128 {
    l.query_balance(&who.to_string()).balance
}

fn sum_of_balances(l: &TokenLedger) -> u128 {
    l.accounts.iter().map(|a| a.balance).sum()
}

#[test]
fn instantiator_holds_initial_supply() {
    let l = ledger(1_000_000, None);
    assert_eq!(balance(&l, "OWNER"), 1_000_000);
    assert_eq!(l.query_token_info().total_supply, 1_000_000);
}

#[test]
fn burn_beyond_balance_is_insufficient_funds() {
    let mut l = ledger(1_000_000, None);
    let r = l.execute(&"OWNER".to_string(), ExecuteMsg::Burn { amount: 1_000_001 });
    assert_eq!(r, Err(TokenError::InsufficientFunds));
    assert_eq!(l.query_token_info().total_supply, 1_000_000);
    assert_eq!(balance(&l, "OWNER"), 1_000_000);
}

#[test]
fn burn_lowers_balance_and_supply() {
    let mut l = ledger(1_000, None);
    assert_eq!(l.execute_burn(&"OWNER".to_string(), 400), Ok(()));
    assert_eq!(balance(&l, "OWNER"), 600);
    assert_eq!(l.query_token_info().total_supply, 600);
}

#[test]
fn unseen_address_has_zero_balance() {
    let l = ledger(5, None);
    assert_eq!(l.query(&QueryMsg::Balance { address: "NOBODY".to_string() }), QueryResponse::Balance(BalanceResponse { balance: 0 }));
}

#[test]
fn transfer_moves_funds() {
    let mut l = ledger(100, None);
    assert_eq!(l.execute_transfer(&"OWNER".to_string(), "A".to_string(), 30), Ok(()));
    assert_eq!(balance(&l, "OWNER"), 70);
    assert_eq!(balance(&l, "A"), 30);
    assert_eq!(l.execute_transfer(&"A".to_string(), "OWNER".to_string(), 30), Ok(()));
    assert_eq!(balance(&l, "OWNER"), 100);
    assert_eq!(balance(&l, "A"), 0);
}

#[test]
fn transfer_beyond_balance_changes_nothing() {
    let mut l = ledger(100, None);
    assert_eq!(l.execute_transfer(&"OWNER".to_string(), "A".to_string(), 101), Err(TokenError::InsufficientFunds));
    assert_eq!(l.execute_transfer(&"A".to_string(), "OWNER".to_string(), 1), Err(TokenError::InsufficientFunds));
    assert_eq!(balance(&l, "OWNER"), 100);
    assert_eq!(balance(&l, "A"), 0);
}

#[test]
fn transfer_to_self_keeps_balance() {
    let mut l = ledger(100, None);
    assert_eq!(l.execute_transfer(&"OWNER".to_string(), "OWNER".to_string(), 100), Ok(()));
    assert_eq!(balance(&l, "OWNER"), 100);
}

#[test]
fn transfers_keep_the_sum_of_balances() {
    let mut l = ledger(1_000, None);
    let steps = [("OWNER", "A", 300u128), ("A", "B", 120), ("B", "OWNER", 20), ("OWNER", "C", 700), ("C", "A", 5000)];
    for (from, to, amount) in steps {
        let _ = l.execute(&from.to_string(), ExecuteMsg::Transfer { recipient: to.to_string(), amount });
        assert_eq!(sum_of_balances(&l), 1_000);
    }
    assert_eq!(balance(&l, "A"), 180);
    assert_eq!(balance(&l, "B"), 100);
    assert_eq!(balance(&l, "C"), 700);
    assert_eq!(balance(&l, "OWNER"), 20);
}

#[test]
fn mint_without_minter_is_unauthorized() {
    let mut l = ledger(10, None);
    let r = l.execute_mint(&"OWNER".to_string(), "OWNER".to_string(), 1);
    assert_eq!(r, Err(TokenError::Unauthorized));
    assert_eq!(l.query_token_info().total_supply, 10);
}

#[test]
fn mint_by_other_than_minter_is_unauthorized() {
    let mut l = ledger(10, Some("MINTER"));
    let r = l.execute(&"OWNER".to_string(), ExecuteMsg::Mint { recipient: "OWNER".to_string(), amount: 1 });
    assert_eq!(r, Err(TokenError::Unauthorized));
}

#[test]
fn minter_creates_tokens() {
    let mut l = ledger(10, Some("MINTER"));
    let r = l.execute(&"MINTER".to_string(), ExecuteMsg::Mint { recipient: "A".to_string(), amount: 15 });
    assert_eq!(r, Ok(()));
    assert_eq!(balance(&l, "A"), 15);
    assert_eq!(l.query_token_info().total_supply, 25);
}

#[test]
fn mint_past_u128_is_overflow() {
    let mut l = ledger(u128::MAX - 1, Some("MINTER"));
    let r = l.execute_mint(&"MINTER".to_string(), "A".to_string(), 2);
    assert_eq!(r, Err(TokenError::Overflow));
    assert_eq!(balance(&l, "A"), 0);
    assert_eq!(l.execute_mint(&"MINTER".to_string(), "A".to_string(), 1), Ok(()));
    assert_eq!(l.query_token_info().total_supply, u128::MAX);
}

#[test]
fn token_info_reports_metadata() {
    let l = ledger(77, None);
    assert_eq!(
        l.query(&QueryMsg::TokenInfo {}),
        QueryResponse::TokenInfo(TokenInfoResponse {
            name: "SeiX".to_string(),
            symbol: "SEIX".to_string(),
            decimals: 6,
            total_supply: 77,
        })
    );
}
