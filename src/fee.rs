//! The fee instruction that a registry operation hands to its host: a token
//! transfer to the treasury, to be executed atomically with the operation.

use vstd::prelude::*;

verus! {

/// Fee charged for minting a bond.
pub const MINT_FEE: u128 = 10;

/// Fee charged for transferring a bond.
pub const TRANSFER_FEE: u128 = 5;

/// Fee charged for redeeming a bond.
pub const REDEEM_FEE: u128 = 15;

/// Treasury identity used when a registry is set up without one.
pub const DEFAULT_TREASURY: &'static str = "platform_treasury_address";

/// A deferred instruction: run the token ledger's `Transfer { recipient, amount }`
/// at `contract`, on behalf of the registry's own account.
#[derive(Debug, PartialEq, Eq)]
pub struct FeeInstruction {
    pub contract: String,
    pub recipient: String,
    pub amount: u128,
}

/// The JSON bytes of cw20's `Transfer { recipient, amount }` message.
pub uninterp spec fn cw20_transfer_json(recipient: Seq<char>, amount: u128) -> Seq<u8>;

/// Relies on `cosmwasm_std::to_json_vec` applied to `cw20::Cw20ExecuteMsg::Transfer`:
/// when serialisation succeeds, the bytes depend on the recipient and amount alone.
#[verifier::external_body]
fn transfer_msg_json(recipient: &String, amount: u128) -> (r: Option<Vec<u8>>)
    ensures
        r matches Some(b) ==> b@ == cw20_transfer_json(recipient@, amount),
{
    let msg = cw20::Cw20ExecuteMsg::Transfer {
        recipient: recipient.clone(),
        amount: cosmwasm_std::Uint128::new(amount),
    };
    cosmwasm_std::to_json_vec(&msg).ok()
}

impl FeeInstruction {
    /// Copies the instruction field by field.
    pub fn copy(&self) -> (r: FeeInstruction)
        ensures
            r == *self,
    {
        FeeInstruction {
            contract: self.contract.clone(),
            recipient: self.recipient.clone(),
            amount: self.amount,
        }
    }

    /// The message body the token ledger receives: the cw20 transfer, as JSON.
    /// `None` only when serialisation itself fails.
    pub fn encode(&self) -> (r: Option<Vec<u8>>)
        ensures
            r matches Some(b) ==> b@ == cw20_transfer_json(self.recipient@, self.amount),
    {
        transfer_msg_json(&self.recipient, self.amount)
    }
}

} // verus!
