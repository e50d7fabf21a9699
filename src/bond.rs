//! The bond registry: bond records keyed by id, the issuance counter, and the
//! token ledger that collects each operation's fee.
//!
//! Every mutating operation is first prepared as a `BondChange` (the record
//! write, the new counter and the fee instruction) without touching the
//! registry; committing the change is the only way the registry's state moves.

use std::collections::HashMap;
use vstd::prelude::*;
use crate::fee::{FeeInstruction, DEFAULT_TREASURY, MINT_FEE, REDEEM_FEE, TRANSFER_FEE};

verus! {

broadcast use vstd::std_specs::hash::group_hash_axioms;

/// Set-up of a registry: the address of the token ledger that collects fees.
#[derive(Debug, PartialEq, Eq)]
pub struct InstantiateMsg {
    pub seix_contract: String,
}

/// The mutating operations of the registry.
#[derive(Debug, PartialEq, Eq)]
pub enum ExecuteMsg {
    MintBond { face_value: u128, interest_rate: u64, maturity: u64 },
    TransferBond { bond_id: u64, new_holder: String },
    RedeemBond { bond_id: u64 },
}

/// The read-only operations of the registry.
#[derive(Debug, PartialEq, Eq)]
pub enum QueryMsg {
    GetBond { bond_id: u64 },
}

/// A bond record as a query returns it.
#[derive(Debug, PartialEq, Eq)]
pub struct BondResponse {
    pub issuer: String,
    pub face_value: u128,
    pub interest_rate: u64,
    pub maturity: u64,
    pub holder: String,
    pub issued_at: u64,
}

/// An issued bond. It becomes redeemable at `issued_at + maturity`.
#[derive(Debug, PartialEq, Eq)]
pub struct Bond {
    pub issuer: String,
    pub face_value: u128,
    pub interest_rate: u64,
    pub maturity: u64,
    pub holder: String,
    pub issued_at: u64,
}

#[derive(Debug, PartialEq, Eq, Clone, Copy, Structural)]
pub enum BondError {
    /// No bond has the given id.
    NotFound,
    /// The caller is not the bond's holder.
    Unauthorized,
    /// The bond cannot be redeemed before `issued_at + maturity`.
    NotMatured,
    /// The issuance counter is exhausted.
    Overflow,
}

/// A prepared operation: write `record` under `bond_id` (remove it when
/// `None`), set the counter to `bond_count`, and pay `fee`.
#[derive(Debug, PartialEq, Eq)]
pub struct BondChange {
    pub bond_id: u64,
    pub record: Option<Bond>,
    pub bond_count: u64,
    pub fee: FeeInstruction,
}

/// The registry's whole state.
pub struct BondRegistry {
    /// Address of the token ledger that fee instructions go to.
    pub token_contract: String,
    /// Identity that receives the fees.
    pub treasury: String,
    /// Number of bonds ever minted; the last id handed out.
    pub bond_count: u64,
    pub bonds: HashMap<u64, Bond>,
}

impl Bond {
    /// Copies the record field by field.
    pub fn copy(&self) -> (r: Bond)
        ensures
            r == *self,
    {
        Bond {
            issuer: self.issuer.clone(),
            face_value: self.face_value,
            interest_rate: self.interest_rate,
            maturity: self.maturity,
            holder: self.holder.clone(),
            issued_at: self.issued_at,
        }
    }

    /// The earliest time at which the bond may be redeemed.
    pub open spec fn matures_at(&self) -> int {
        self.issued_at + self.maturity
    }

    /// Whether the bond may be redeemed at `now`; exact even where
    /// `issued_at + maturity` exceeds `u64`.
    pub fn is_mature(&self, now: u64) -> (r: bool)
        ensures
            r == (now as int >= self.matures_at()),
    {
        now >= self.maturity && now - self.maturity >= self.issued_at
    }

    pub open spec fn to_response_spec(&self) -> BondResponse {
        BondResponse {
            issuer: self.issuer,
            face_value: self.face_value,
            interest_rate: self.interest_rate,
            maturity: self.maturity,
            holder: self.holder,
            issued_at: self.issued_at,
        }
    }

    /// The record as a query response.
    pub fn to_response(&self) -> (r: BondResponse)
        ensures
            r == self.to_response_spec(),
    {
        BondResponse {
            issuer: self.issuer.clone(),
            face_value: self.face_value,
            interest_rate: self.interest_rate,
            maturity: self.maturity,
            holder: self.holder.clone(),
            issued_at: self.issued_at,
        }
    }
}

/// The character of the decimal digit `d`.
pub open spec fn digit_char(d: nat) -> char {
    if d == 0 { '0' } else if d == 1 { '1' } else if d == 2 { '2' } else if d == 3 { '3' }
    else if d == 4 { '4' } else if d == 5 { '5' } else if d == 6 { '6' } else if d == 7 { '7' }
    else if d == 8 { '8' } else { '9' }
}

/// The decimal digits of `n`, most significant first, without leading zeros.
pub open spec fn decimal(n: nat) -> Seq<char>
    decreases n,
{
    if n < 10 {
        seq![digit_char(n)]
    } else {
        decimal(n / 10).push(digit_char(n % 10))
    }
}

/// Relies on `u64`'s `ToString`: the value's decimal digits, no sign, no
/// leading zeros.
#[verifier::external_body]
fn u64_text(n: u64) -> (r: String)
    ensures
        r@ == decimal(n as nat),
{
    n.to_string()
}

/// Relies on `str::parse::<u64>`: the decimal digits of a `u64` parse back to
/// that value.
#[verifier::external_body]
fn parse_u64(s: &str) -> (r: Option<u64>)
    ensures
        forall|n: u64| s@ == decimal(n as nat) ==> r == Some(n),
{
    s.parse::<u64>().ok()
}

/// The text form of a bond id, as handed to clients.
pub fn bond_id_text(id: u64) -> (r: String)
    ensures
        r@ == decimal(id as nat),
{
    u64_text(id)
}

/// The bond id written as `s`; `None` unless `s` is exactly the decimal form
/// of some id (no sign, no leading zeros).
pub fn bond_id_from_text(s: &str) -> (r: Option<u64>)
    ensures
        r matches Some(n) ==> s@ == decimal(n as nat),
        (exists|n: u64| s@ == decimal(n as nat)) ==> r is Some,
{
    match parse_u64(s) {
        Some(n) => {
            let text = u64_text(n);
            let given = String::from_str(s);
            if text.eq(&given) {
                Some(n)
            } else {
                None
            }
        },
        None => None,
    }
}

/// The bond that `sender` mints at `now`: issuer and holder are the sender.
pub open spec fn new_bond(sender: String, now: u64, face_value: u128, interest_rate: u64, maturity: u64) -> Bond {
    Bond { issuer: sender, face_value, interest_rate, maturity, holder: sender, issued_at: now }
}

/// `b` with its holder replaced.
pub open spec fn with_holder(b: Bond, holder: String) -> Bond {
    Bond {
        issuer: b.issuer,
        face_value: b.face_value,
        interest_rate: b.interest_rate,
        maturity: b.maturity,
        holder,
        issued_at: b.issued_at,
    }
}

/// `new` is `old` after a mint that returned `id`: the id is the counter
/// after its increment, and no stored bond had it before.
pub open spec fn mint_step(old: BondRegistry, new: BondRegistry, id: u64) -> bool {
    &&& id == old.bond_count + 1
    &&& new.bond_count == id
    &&& !old.bonds@.contains_key(id)
    &&& new.bonds@.contains_key(id)
}

/// Along any run of successful mints from a registry whose counter is zero,
/// the i-th mint returns id i + 1: the ids are exactly 1..=N, with no repeat
/// and no gap.
pub proof fn lemma_mint_ids_are_sequential(regs: Seq<BondRegistry>, ids: Seq<u64>)
    requires
        regs.len() == ids.len() + 1,
        regs[0].bond_count == 0,
        forall|i: int| 0 <= i < ids.len() ==> mint_step(regs[i], #[trigger] regs[i + 1], ids[i]),
    ensures
        forall|i: int| 0 <= i < ids.len() ==> #[trigger] ids[i] == i + 1,
        forall|i: int, j: int| 0 <= i < ids.len() && 0 <= j < ids.len() && i != j ==> ids[i] != ids[j],
    decreases ids.len(),
{
    if ids.len() > 0 {
        let n = ids.len() - 1;
        let r = regs.drop_last();
        assert forall|i: int| 0 <= i < n implies mint_step(r[i], #[trigger] r[i + 1], ids.drop_last()[i]) by {
            assert(mint_step(regs[i], regs[i + 1], ids[i]));
        }
        lemma_mint_ids_are_sequential(r, ids.drop_last());
        assert forall|i: int| 0 <= i < ids.len() implies #[trigger] ids[i] == i + 1 by {
            if i < n {
                assert(ids.drop_last()[i] == i + 1);
            } else {
                assert(mint_step(regs[n], regs[n + 1], ids[n]));
                if n > 0 {
                    assert(mint_step(regs[n - 1], regs[(n - 1) + 1], ids[n - 1]));
                    assert(ids.drop_last()[n - 1] == n);
                }
            }
        }
    }
}

impl BondRegistry {
    /// Every stored id was handed out by the counter.
    pub open spec fn wf(&self) -> bool {
        forall|id: u64| #[trigger] self.bonds@.contains_key(id) ==> 1 <= id <= self.bond_count
    }

    /// The fee instruction for `amount`, addressed to the configured ledger.
    pub open spec fn fee(&self, amount: u128) -> FeeInstruction {
        FeeInstruction { contract: self.token_contract, recipient: self.treasury, amount }
    }

    pub open spec fn spec_mint(&self, sender: String, now: u64, face_value: u128, interest_rate: u64, maturity: u64) -> Result<BondChange, BondError> {
        if self.bond_count == u64::MAX {
            Err(BondError::Overflow)
        } else {
            Ok(BondChange {
                bond_id: (self.bond_count + 1) as u64,
                record: Some(new_bond(sender, now, face_value, interest_rate, maturity)),
                bond_count: (self.bond_count + 1) as u64,
                fee: self.fee(MINT_FEE),
            })
        }
    }

    pub open spec fn spec_transfer(&self, sender: Seq<char>, bond_id: u64, new_holder: String) -> Result<BondChange, BondError> {
        if !self.bonds@.contains_key(bond_id) {
            Err(BondError::NotFound)
        } else if self.bonds@[bond_id].holder@ != sender {
            Err(BondError::Unauthorized)
        } else {
            Ok(BondChange {
                bond_id,
                record: Some(with_holder(self.bonds@[bond_id], new_holder)),
                bond_count: self.bond_count,
                fee: self.fee(TRANSFER_FEE),
            })
        }
    }

    pub open spec fn spec_redeem(&self, sender: Seq<char>, now: u64, bond_id: u64) -> Result<BondChange, BondError> {
        if !self.bonds@.contains_key(bond_id) {
            Err(BondError::NotFound)
        } else if self.bonds@[bond_id].holder@ != sender {
            Err(BondError::Unauthorized)
        } else if (now as int) < self.bonds@[bond_id].matures_at() {
            Err(BondError::NotMatured)
        } else {
            Ok(BondChange { bond_id, record: None, bond_count: self.bond_count, fee: self.fee(REDEEM_FEE) })
        }
    }

    pub open spec fn spec_prepare(&self, sender: String, now: u64, msg: ExecuteMsg) -> Result<BondChange, BondError> {
        match msg {
            ExecuteMsg::MintBond { face_value, interest_rate, maturity } =>
                self.spec_mint(sender, now, face_value, interest_rate, maturity),
            ExecuteMsg::TransferBond { bond_id, new_holder } => self.spec_transfer(sender@, bond_id, new_holder),
            ExecuteMsg::RedeemBond { bond_id } => self.spec_redeem(sender@, now, bond_id),
        }
    }

    /// A change this registry can take without losing track of its ids.
    pub open spec fn admits(&self, c: BondChange) -> bool {
        &&& self.bond_count <= c.bond_count
        &&& 1 <= c.bond_id <= c.bond_count
    }

    /// `self` is `old` with the change `c` written.
    pub open spec fn committed_from(&self, old: BondRegistry, c: BondChange) -> bool {
        &&& self.token_contract == old.token_contract
        &&& self.treasury == old.treasury
        &&& self.bond_count == c.bond_count
        &&& self.bonds@ == match c.record {
            Some(b) => old.bonds@.insert(c.bond_id, b),
            None => old.bonds@.remove(c.bond_id),
        }
    }

    /// An empty registry whose fees go to `treasury` through the ledger at
    /// `token_contract`.
    pub fn new(token_contract: String, treasury: String) -> (r: BondRegistry)
        ensures
            r.wf(),
            r.token_contract == token_contract,
            r.treasury == treasury,
            r.bond_count == 0,
            r.bonds@ == Map::<u64, Bond>::empty(),
    {
        BondRegistry { token_contract, treasury, bond_count: 0, bonds: HashMap::new() }
    }

    /// An empty registry bound to the given token ledger, paying the default
    /// treasury.
    pub fn instantiate(msg: InstantiateMsg) -> (r: BondRegistry)
        ensures
            r.wf(),
            r.token_contract == msg.seix_contract,
            r.treasury@ == DEFAULT_TREASURY@,
            r.bond_count == 0,
            r.bonds@ == Map::<u64, Bond>::empty(),
    {
        BondRegistry::new(msg.seix_contract, String::from_str(DEFAULT_TREASURY))
    }

    fn fee_instruction(&self, amount: u128) -> (r: FeeInstruction)
        ensures
            r == self.fee(amount),
    {
        FeeInstruction { contract: self.token_contract.clone(), recipient: self.treasury.clone(), amount }
    }

    /// Prepares a mint by `sender` at `now`: the next id, a bond held by its
    /// issuer, and the mint fee.
    pub fn prepare_mint(&self, sender: &String, now: u64, face_value: u128, interest_rate: u64, maturity: u64) -> (r: Result<BondChange, BondError>)
        ensures
            r == self.spec_mint(*sender, now, face_value, interest_rate, maturity),
    {
        if self.bond_count == u64::MAX {
            return Err(BondError::Overflow);
        }
        let id = self.bond_count + 1;
        let bond = Bond {
            issuer: sender.clone(),
            face_value,
            interest_rate,
            maturity,
            holder: sender.clone(),
            issued_at: now,
        };
        Ok(BondChange { bond_id: id, record: Some(bond), bond_count: id, fee: self.fee_instruction(MINT_FEE) })
    }

    /// Prepares the transfer of bond `bond_id` to `new_holder`; only its holder
    /// may transfer it.
    pub fn prepare_transfer(&self, sender: &String, bond_id: u64, new_holder: String) -> (r: Result<BondChange, BondError>)
        ensures
            r == self.spec_transfer(sender@, bond_id, new_holder),
    {
        match self.bonds.get(&bond_id) {
            None => Err(BondError::NotFound),
            Some(b) => {
                if !b.holder.eq(sender) {
                    return Err(BondError::Unauthorized);
                }
                let mut bond = b.copy();
                bond.holder = new_holder;
                Ok(BondChange { bond_id, record: Some(bond), bond_count: self.bond_count, fee: self.fee_instruction(TRANSFER_FEE) })
            },
        }
    }

    /// Prepares the redemption of bond `bond_id` at `now`; only its holder may
    /// redeem it, and only once it has matured.
    pub fn prepare_redeem(&self, sender: &String, now: u64, bond_id: u64) -> (r: Result<BondChange, BondError>)
        ensures
            r == self.spec_redeem(sender@, now, bond_id),
    {
        match self.bonds.get(&bond_id) {
            None => Err(BondError::NotFound),
            Some(b) => {
                if !b.holder.eq(sender) {
                    return Err(BondError::Unauthorized);
                }
                if !b.is_mature(now) {
                    return Err(BondError::NotMatured);
                }
                Ok(BondChange { bond_id, record: None, bond_count: self.bond_count, fee: self.fee_instruction(REDEEM_FEE) })
            },
        }
    }

    /// Prepares one mutating message; the registry does not change.
    pub fn prepare(&self, sender: &String, now: u64, msg: ExecuteMsg) -> (r: Result<BondChange, BondError>)
        requires
            self.wf(),
        ensures
            r == self.spec_prepare(*sender, now, msg),
            r matches Ok(c) ==> self.admits(c),
    {
        match msg {
            ExecuteMsg::MintBond { face_value, interest_rate, maturity } =>
                self.prepare_mint(sender, now, face_value, interest_rate, maturity),
            ExecuteMsg::TransferBond { bond_id, new_holder } => self.prepare_transfer(sender, bond_id, new_holder),
            ExecuteMsg::RedeemBond { bond_id } => self.prepare_redeem(sender, now, bond_id),
        }
    }

    /// Mints a bond for `sender` at `now` and returns its id with the mint fee
    /// instruction. The id is the counter after its increment.
    pub fn mint_bond(&mut self, sender: &String, now: u64, face_value: u128, interest_rate: u64, maturity: u64) -> (r: Result<(u64, FeeInstruction), BondError>)
        requires
            old(self).wf(),
        ensures
            final(self).wf(),
            match old(self).spec_mint(*sender, now, face_value, interest_rate, maturity) {
                Ok(c) => r == Ok::<(u64, FeeInstruction), BondError>((c.bond_id, c.fee)) && final(self).committed_from(*old(self), c),
                Err(e) => r == Err::<(u64, FeeInstruction), BondError>(e) && *final(self) == *old(self),
            },
            r matches Ok((id, _)) ==> mint_step(*old(self), *final(self), id),
            r matches Ok((id, _)) ==> final(self).bonds@[id] == new_bond(*sender, now, face_value, interest_rate, maturity),
            r is Err ==> old(self).bond_count == u64::MAX,
    {
        let change = self.prepare_mint(sender, now, face_value, interest_rate, maturity)?;
        let id = change.bond_id;
        let fee = change.fee.copy();
        self.commit(change);
        Ok((id, fee))
    }

    /// Hands bond `bond_id` to `new_holder` and returns the transfer fee
    /// instruction. Only the current holder may do so; otherwise nothing changes.
    pub fn transfer_bond(&mut self, sender: &String, bond_id: u64, new_holder: String) -> (r: Result<FeeInstruction, BondError>)
        requires
            old(self).wf(),
        ensures
            final(self).wf(),
            match old(self).spec_transfer(sender@, bond_id, new_holder) {
                Ok(c) => r == Ok::<FeeInstruction, BondError>(c.fee) && final(self).committed_from(*old(self), c),
                Err(e) => r == Err::<FeeInstruction, BondError>(e) && *final(self) == *old(self),
            },
            !old(self).bonds@.contains_key(bond_id) ==> r == Err::<FeeInstruction, BondError>(BondError::NotFound),
            old(self).bonds@.contains_key(bond_id) && old(self).bonds@[bond_id].holder@ != sender@
                ==> r == Err::<FeeInstruction, BondError>(BondError::Unauthorized) && *final(self) == *old(self),
            r is Ok ==> final(self).bonds@ == old(self).bonds@.insert(bond_id, with_holder(old(self).bonds@[bond_id], new_holder)),
    {
        let change = self.prepare_transfer(sender, bond_id, new_holder)?;
        let fee = change.fee.copy();
        self.commit(change);
        Ok(fee)
    }

    /// Removes matured bond `bond_id` and returns the redemption fee
    /// instruction. Only the current holder may redeem, and not before
    /// `issued_at + maturity`; otherwise nothing changes.
    pub fn redeem_bond(&mut self, sender: &String, now: u64, bond_id: u64) -> (r: Result<FeeInstruction, BondError>)
        requires
            old(self).wf(),
        ensures
            final(self).wf(),
            match old(self).spec_redeem(sender@, now, bond_id) {
                Ok(c) => r == Ok::<FeeInstruction, BondError>(c.fee) && final(self).committed_from(*old(self), c),
                Err(e) => r == Err::<FeeInstruction, BondError>(e) && *final(self) == *old(self),
            },
            !old(self).bonds@.contains_key(bond_id) ==> r == Err::<FeeInstruction, BondError>(BondError::NotFound),
            old(self).bonds@.contains_key(bond_id) && old(self).bonds@[bond_id].holder@ != sender@
                ==> r == Err::<FeeInstruction, BondError>(BondError::Unauthorized) && *final(self) == *old(self),
            old(self).bonds@.contains_key(bond_id) && old(self).bonds@[bond_id].holder@ == sender@
                && (now as int) < old(self).bonds@[bond_id].matures_at()
                ==> r == Err::<FeeInstruction, BondError>(BondError::NotMatured) && *final(self) == *old(self),
            old(self).bonds@.contains_key(bond_id) && old(self).bonds@[bond_id].holder@ == sender@
                && (now as int) >= old(self).bonds@[bond_id].matures_at()
                ==> r is Ok && !final(self).bonds@.contains_key(bond_id),
    {
        let change = self.prepare_redeem(sender, now, bond_id)?;
        let fee = change.fee.copy();
        self.commit(change);
        Ok(fee)
    }

    /// Runs one mutating message and returns the bond id it concerned with the
    /// fee instruction to hand to the host.
    pub fn execute(&mut self, sender: &String, now: u64, msg: ExecuteMsg) -> (r: Result<(u64, FeeInstruction), BondError>)
        requires
            old(self).wf(),
        ensures
            final(self).wf(),
            match old(self).spec_prepare(*sender, now, msg) {
                Ok(c) => r == Ok::<(u64, FeeInstruction), BondError>((c.bond_id, c.fee)) && final(self).committed_from(*old(self), c),
                Err(e) => r == Err::<(u64, FeeInstruction), BondError>(e) && *final(self) == *old(self),
            },
    {
        let change = self.prepare(sender, now, msg)?;
        let id = change.bond_id;
        let fee = change.fee.copy();
        self.commit(change);
        Ok((id, fee))
    }

    /// The record of bond `bond_id`, or `NotFound`.
    pub fn get_bond(&self, bond_id: u64) -> (r: Result<Bond, BondError>)
        ensures
            match r {
                Ok(b) => self.bonds@.contains_key(bond_id) && b == self.bonds@[bond_id],
                Err(e) => e == BondError::NotFound && !self.bonds@.contains_key(bond_id),
            },
    {
        match self.bonds.get(&bond_id) {
            Some(b) => Ok(b.copy()),
            None => Err(BondError::NotFound),
        }
    }

    /// Answers one read-only message; nothing changes.
    pub fn query(&self, msg: &QueryMsg) -> (r: Result<BondResponse, BondError>)
        ensures
            match *msg {
                QueryMsg::GetBond { bond_id } => match r {
                    Ok(b) => self.bonds@.contains_key(bond_id) && b == self.bonds@[bond_id].to_response_spec(),
                    Err(e) => e == BondError::NotFound && !self.bonds@.contains_key(bond_id),
                },
            },
    {
        match msg {
            QueryMsg::GetBond { bond_id } => match self.bonds.get(bond_id) {
                Some(b) => Ok(b.to_response()),
                None => Err(BondError::NotFound),
            },
        }
    }

    /// Writes a prepared change: the record (or its removal) and the counter.
    pub fn commit(&mut self, change: BondChange)
        requires
            old(self).wf(),
            old(self).admits(change),
        ensures
            final(self).wf(),
            final(self).committed_from(*old(self), change),
    {
        self.bond_count = change.bond_count;
        match change.record {
            Some(b) => {
                self.bonds.insert(change.bond_id, b);
            },
            None => {
                self.bonds.remove(&change.bond_id);
            },
        }
    }
}

} // verus!
