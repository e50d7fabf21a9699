use seibond::bond::{
    bond_id_from_text, bond_id_text, Bond, BondError, BondRegistry, BondResponse, ExecuteMsg, InstantiateMsg,
    QueryMsg,
};
use seibond::fee::{FeeInstruction, DEFAULT_TREASURY};

const USER: &str = "USER";
const PLATFORM_TREASURY: &str = "platform_treasury";
const SEIX_TOKEN: &str = "seix_token";
const T: u64 = 1_571_797_419;

fn proper_instantiate() -> BondRegistry {
    BondRegistry::instantiate(InstantiateMsg { seix_contract: SEIX_TOKEN.to_string() })
}

fn fee(amount: u128) -> FeeInstruction {
    FeeInstruction {
        contract: SEIX_TOKEN.to_string(),
        recipient: DEFAULT_TREASURY.to_string(),
        amount,
    }
}

#[test]
fn mint_bond() {
    let mut reg = proper_instantiate();
    let r = reg.mint_bond(&USER.to_string(), T, 1000, 5, 3600);
    assert_eq!(r, Ok((1, fee(10))));
}

#[test]
fn transfer_bond() {
    let mut reg = proper_instantiate();
    reg.mint_bond(&USER.to_string(), T, 1000, 5, 3600).unwrap();
    let id = bond_id_from_text("1").unwrap();
    let r = reg.transfer_bond(&USER.to_string(), id, PLATFORM_TREASURY.to_string());
    assert_eq!(r, Ok(fee(5)));
    assert_eq!(reg.get_bond(1).unwrap().holder, PLATFORM_TREASURY.to_string());
    assert_eq!(reg.get_bond(1).unwrap().issuer, USER.to_string());
}

#[test]
fn redeem_bond() {
    let mut reg = proper_instantiate();
    reg.mint_bond(&USER.to_string(), T, 1000, 5, 3600).unwrap();
    let id = bond_id_from_text("1").unwrap();
    let r = reg.redeem_bond(&USER.to_string(), T + 3601, id);
    assert_eq!(r, Ok(fee(15)));
    assert_eq!(reg.get_bond(1), Err(BondError::NotFound));
}

#[test]
fn mint_records_issuer_holder_and_time() {
    let mut reg = proper_instantiate();
    let (id, _) = reg.mint_bond(&USER.to_string(), T, 1000, 5, 3600).unwrap();
    assert_eq!(id, 1);
    assert_eq!(
        reg.get_bond(1),
        Ok(Bond {
            issuer: USER.to_string(),
            face_value: 1000,
            interest_rate: 5,
            maturity: 3600,
            holder: USER.to_string(),
            issued_at: T,
        })
    );
    assert_eq!(reg.bond_count, 1);
}

#[test]
fn redeem_exactly_at_maturity_succeeds() {
    let mut reg = proper_instantiate();
    reg.mint_bond(&USER.to_string(), T, 1000, 5, 3600).unwrap();
    assert_eq!(reg.redeem_bond(&USER.to_string(), T + 3600, 1), Ok(fee(15)));
    assert_eq!(reg.query(&QueryMsg::GetBond { bond_id: 1 }), Err(BondError::NotFound));
}

#[test]
fn redeem_one_second_early_is_not_matured() {
    let mut reg = proper_instantiate();
    reg.mint_bond(&USER.to_string(), T, 1000, 5, 3600).unwrap();
    assert_eq!(reg.redeem_bond(&USER.to_string(), T + 3599, 1), Err(BondError::NotMatured));
    assert!(reg.get_bond(1).is_ok());
}

#[test]
fn maturity_past_the_clock_range_never_matures() {
    let mut reg = proper_instantiate();
    reg.mint_bond(&USER.to_string(), T, 1000, 5, u64::MAX).unwrap();
    assert_eq!(reg.redeem_bond(&USER.to_string(), u64::MAX, 1), Err(BondError::NotMatured));
}

#[test]
fn consecutive_mints_number_from_one() {
    let mut reg = proper_instantiate();
    let mut ids = Vec::new();
    for i in 0..5u64 {
        let (id, _) = reg.mint_bond(&format!("issuer{}", i), T + i, 100, 1, 10).unwrap();
        ids.push(id);
    }
    assert_eq!(ids, vec![1, 2, 3, 4, 5]);
    reg.redeem_bond(&"issuer4".to_string(), T + 100, 5).unwrap();
    let (next, _) = reg.mint_bond(&USER.to_string(), T, 100, 1, 10).unwrap();
    assert_eq!(next, 6);
}

#[test]
fn mint_fails_when_counter_is_exhausted() {
    let mut reg = proper_instantiate();
    reg.bond_count = u64::MAX;
    assert_eq!(reg.mint_bond(&USER.to_string(), T, 1, 1, 1), Err(BondError::Overflow));
    assert_eq!(reg.bond_count, u64::MAX);
}

#[test]
fn non_holder_cannot_transfer_or_redeem() {
    let mut reg = proper_instantiate();
    reg.mint_bond(&USER.to_string(), T, 1000, 5, 3600).unwrap();
    let before = reg.get_bond(1).unwrap();
    let thief = "THIEF".to_string();
    assert_eq!(reg.transfer_bond(&thief, 1, thief.clone()), Err(BondError::Unauthorized));
    assert_eq!(reg.redeem_bond(&thief, T + 10_000, 1), Err(BondError::Unauthorized));
    assert_eq!(reg.get_bond(1).unwrap(), before);
}

#[test]
fn previous_holder_loses_rights_after_transfer() {
    let mut reg = proper_instantiate();
    reg.mint_bond(&USER.to_string(), T, 1000, 5, 3600).unwrap();
    reg.transfer_bond(&USER.to_string(), 1, "NEW".to_string()).unwrap();
    assert_eq!(reg.redeem_bond(&USER.to_string(), T + 3600, 1), Err(BondError::Unauthorized));
    assert_eq!(reg.redeem_bond(&"NEW".to_string(), T + 3600, 1), Ok(fee(15)));
}

#[test]
fn unknown_bond_is_not_found() {
    let mut reg = proper_instantiate();
    assert_eq!(reg.transfer_bond(&USER.to_string(), 7, "X".to_string()), Err(BondError::NotFound));
    assert_eq!(reg.redeem_bond(&USER.to_string(), T, 7), Err(BondError::NotFound));
    assert_eq!(reg.get_bond(7), Err(BondError::NotFound));
}

#[test]
fn execute_dispatches_each_message() {
    let mut reg = BondRegistry::new("ledger".to_string(), "vault".to_string());
    let user = USER.to_string();
    let minted = reg.execute(&user, 5, ExecuteMsg::MintBond { face_value: 1, interest_rate: 2, maturity: 3 });
    let expected = |amount| FeeInstruction { contract: "ledger".to_string(), recipient: "vault".to_string(), amount };
    assert_eq!(minted, Ok((1, expected(10))));
    let moved = reg.execute(&user, 6, ExecuteMsg::TransferBond { bond_id: 1, new_holder: "B".to_string() });
    assert_eq!(moved, Ok((1, expected(5))));
    let redeemed = reg.execute(&"B".to_string(), 8, ExecuteMsg::RedeemBond { bond_id: 1 });
    assert_eq!(redeemed, Ok((1, expected(15))));
}

#[test]
fn query_returns_the_record() {
    let mut reg = proper_instantiate();
    reg.mint_bond(&USER.to_string(), T, 1000, 5, 3600).unwrap();
    assert_eq!(
        reg.query(&QueryMsg::GetBond { bond_id: 1 }),
        Ok(BondResponse {
            issuer: USER.to_string(),
            face_value: 1000,
            interest_rate: 5,
            maturity: 3600,
            holder: USER.to_string(),
            issued_at: T,
        })
    );
}

#[test]
fn bond_ids_have_one_text_form() {
    assert_eq!(bond_id_text(1), "1");
    assert_eq!(bond_id_text(4096), "4096");
    assert_eq!(bond_id_from_text("42"), Some(42));
    assert_eq!(bond_id_from_text("0"), Some(0));
    assert_eq!(bond_id_from_text("18446744073709551615"), Some(u64::MAX));
    assert_eq!(bond_id_from_text("18446744073709551616"), None);
    assert_eq!(bond_id_from_text("01"), None);
    assert_eq!(bond_id_from_text("+1"), None);
    assert_eq!(bond_id_from_text(""), None);
    assert_eq!(bond_id_from_text("1a"), None);
}

#[test]
fn fee_instruction_encodes_as_cw20_transfer() {
    let bytes = fee(10).encode().unwrap();
    assert_eq!(
        String::from_utf8(bytes).unwrap(),
        r#"{"transfer":{"recipient":"platform_treasury_address","amount":"10"}}"#
    );
}
