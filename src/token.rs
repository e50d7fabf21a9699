//! The token ledger: balances per identity, token metadata with the total
//! supply, and an optional minter.

use vstd::prelude::*;

verus! {

/// Parameters of a new ledger; the instantiator receives the whole initial supply.
#[derive(Debug, PartialEq, Eq)]
pub struct InstantiateMsg {
    pub name: String,
    pub symbol: String,
    pub decimals: u8,
    pub initial_supply: u128,
    pub minter: Option<String>,
}

/// The mutating operations of the ledger.
#[derive(Debug, PartialEq, Eq)]
pub enum ExecuteMsg {
    Transfer { recipient: String, amount: u128 },
    Burn { amount: u128 },
    Mint { recipient: String, amount: u128 },
}

/// The read-only operations of the ledger.
#[derive(Debug, PartialEq, Eq)]
pub enum QueryMsg {
    Balance { address: String },
    TokenInfo {},
}

#[derive(Debug, PartialEq, Eq)]
pub struct BalanceResponse {
    pub balance: u128,
}

#[derive(Debug, PartialEq, Eq)]
pub struct TokenInfoResponse {
    pub name: String,
    pub symbol: String,
    pub decimals: u8,
    pub total_supply: u128,
}

/// The answer to a `QueryMsg`, one variant per query.
#[derive(Debug, PartialEq, Eq)]
pub enum QueryResponse {
    Balance(BalanceResponse),
    TokenInfo(TokenInfoResponse),
}

/// Token metadata; `total_supply` changes only by mint and burn.
#[derive(Debug, PartialEq, Eq)]
pub struct TokenInfo {
    pub name: String,
    pub symbol: String,
    pub decimals: u8,
    pub total_supply: u128,
}

#[derive(Debug, PartialEq, Eq, Clone, Copy, Structural)]
pub enum TokenError {
    /// The caller is not the configured minter, or no minter is configured.
    Unauthorized,
    /// The caller's balance is below the requested amount.
    InsufficientFunds,
    /// An arithmetic guard tripped.
    Overflow,
}

/// One identity's balance.
#[derive(Debug, PartialEq, Eq)]
pub struct Account {
    pub owner: String,
    pub balance: u128,
}

/// The ledger's whole state. Each identity has at most one account; an
/// identity without one holds nothing.
pub struct TokenLedger {
    pub info: TokenInfo,
    pub minter: Option<String>,
    pub accounts: Vec<Account>,
}

/// What `who` holds according to the accounts `s`.
pub open spec fn balance_in(s: Seq<Account>, who: Seq<char>) -> nat
    decreases s.len(),
{
    if s.len() == 0 {
        0
    } else {
        (if s.last().owner@ == who { s.last().balance as nat } else { 0 }) + balance_in(s.drop_last(), who)
    }
}

/// The sum of all balances in `s`.
pub open spec fn total_in(s: Seq<Account>) -> nat
    decreases s.len(),
{
    if s.len() == 0 {
        0
    } else {
        s.last().balance as nat + total_in(s.drop_last())
    }
}

pub open spec fn owners_distinct(s: Seq<Account>) -> bool {
    forall|i: int, j: int|
        0 <= i < s.len() && 0 <= j < s.len() && i != j ==> s[i].owner@ != s[j].owner@
}

proof fn lemma_balance_update(s: Seq<Account>, i: int, a: Account)
    requires
        0 <= i < s.len(),
    ensures
        total_in(s.update(i, a)) + s[i].balance == total_in(s) + a.balance,
        forall|w: Seq<char>|
            #![trigger balance_in(s.update(i, a), w)]
            balance_in(s.update(i, a), w) + (if s[i].owner@ == w { s[i].balance as nat } else { 0 })
                == balance_in(s, w) + (if a.owner@ == w { a.balance as nat } else { 0 }),
    decreases s.len(),
{
    let t = s.update(i, a);
    if i == s.len() - 1 {
        assert(t.drop_last() =~= s.drop_last());
    } else {
        assert(t.drop_last() =~= s.drop_last().update(i, a));
        lemma_balance_update(s.drop_last(), i, a);
        assert forall|w: Seq<char>|
            #![trigger balance_in(t, w)]
            balance_in(t, w) + (if s[i].owner@ == w { s[i].balance as nat } else { 0 })
                == balance_in(s, w) + (if a.owner@ == w { a.balance as nat } else { 0 }) by {
            assert(balance_in(s.drop_last().update(i, a), w) + (if s.drop_last()[i].owner@ == w { s[i].balance as nat } else { 0 })
                == balance_in(s.drop_last(), w) + (if a.owner@ == w { a.balance as nat } else { 0 }));
        }
    }
}

proof fn lemma_balance_push(s: Seq<Account>, a: Account)
    ensures
        total_in(s.push(a)) == total_in(s) + a.balance,
        forall|w: Seq<char>|
            #![trigger balance_in(s.push(a), w)]
            balance_in(s.push(a), w) == balance_in(s, w) + (if a.owner@ == w { a.balance as nat } else { 0 }),
{
    assert(s.push(a).drop_last() =~= s);
}

proof fn lemma_balance_at(s: Seq<Account>, i: int)
    requires
        0 <= i < s.len(),
        owners_distinct(s),
    ensures
        balance_in(s, s[i].owner@) == s[i].balance,
    decreases s.len(),
{
    if i < s.len() - 1 {
        lemma_balance_at(s.drop_last(), i);
    } else {
        lemma_balance_absent(s.drop_last(), s[i].owner@);
    }
}

proof fn lemma_balance_absent(s: Seq<Account>, w: Seq<char>)
    requires
        forall|k: int| 0 <= k < s.len() ==> s[k].owner@ != w,
    ensures
        balance_in(s, w) == 0,
    decreases s.len(),
{
    if s.len() > 0 {
        lemma_balance_absent(s.drop_last(), w);
    }
}

proof fn lemma_two_balances_in_total(s: Seq<Account>, a: Seq<char>, b: Seq<char>)
    requires
        a != b,
    ensures
        balance_in(s, a) + balance_in(s, b) <= total_in(s),
    decreases s.len(),
{
    if s.len() > 0 {
        lemma_two_balances_in_total(s.drop_last(), a, b);
    }
}

proof fn lemma_balance_in_total(s: Seq<Account>, a: Seq<char>)
    ensures
        balance_in(s, a) <= total_in(s),
    decreases s.len(),
{
    if s.len() > 0 {
        lemma_balance_in_total(s.drop_last(), a);
    }
}

/// Every identity but `a` and `b` keeps its balance from `l` in `m`.
pub open spec fn others_unchanged(l: TokenLedger, m: TokenLedger, a: Seq<char>, b: Seq<char>) -> bool {
    forall|w: Seq<char>| w != a && w != b ==> #[trigger] m.balance_of(w) == l.balance_of(w)
}

/// Transfers never change the sum of all balances: along any run of
/// successful transfers from a well-formed ledger, every ledger reached holds
/// the same sum as the first.
pub proof fn lemma_transfers_conserve_sum(
    ledgers: Seq<TokenLedger>,
    senders: Seq<Seq<char>>,
    recipients: Seq<Seq<char>>,
    amounts: Seq<u128>,
)
    requires
        ledgers.len() == senders.len() + 1,
        recipients.len() == senders.len(),
        amounts.len() == senders.len(),
        ledgers[0].wf(),
        forall|i: int|
            0 <= i < senders.len() ==> {
                &&& #[trigger] ledgers[i + 1].wf()
                &&& ledgers[i + 1].transferred_from(ledgers[i], senders[i], recipients[i], amounts[i])
            },
    ensures
        forall|i: int| 0 <= i < ledgers.len() ==> #[trigger] ledgers[i].sum_of_balances() == ledgers[0].sum_of_balances(),
    decreases senders.len(),
{
    if senders.len() > 0 {
        let n = senders.len() - 1;
        let l = ledgers.drop_last();
        assert forall|i: int| 0 <= i < n implies {
            &&& #[trigger] l[i + 1].wf()
            &&& l[i + 1].transferred_from(l[i], senders.drop_last()[i], recipients.drop_last()[i], amounts.drop_last()[i])
        } by {
            assert(ledgers[i + 1].wf());
        }
        lemma_transfers_conserve_sum(l, senders.drop_last(), recipients.drop_last(), amounts.drop_last());
        assert forall|i: int| 0 <= i < ledgers.len() implies #[trigger] ledgers[i].sum_of_balances() == ledgers[0].sum_of_balances() by {
            if i < ledgers.len() - 1 {
                assert(ledgers.drop_last()[i] == ledgers[i]);
            } else {
                assert(ledgers[n + 1].wf());
                assert(ledgers.drop_last()[n] == ledgers[n]);
                if n > 0 {
                    assert(ledgers[(n - 1) + 1].wf());
                }
                assert(ledgers[n].wf());
            }
        }
    }
}

impl TokenLedger {
    /// What `who` holds; zero for an identity never seen.
    pub open spec fn balance_of(&self, who: Seq<char>) -> nat {
        balance_in(self.accounts@, who)
    }

    /// The sum of all balances.
    pub open spec fn sum_of_balances(&self) -> nat {
        total_in(self.accounts@)
    }

    /// One account per identity, and the balances add up to the total supply.
    pub open spec fn wf(&self) -> bool {
        &&& owners_distinct(self.accounts@)
        &&& self.sum_of_balances() == self.info.total_supply
    }

    pub open spec fn transfer_result(&self, sender: Seq<char>, amount: u128) -> Result<(), TokenError> {
        if self.balance_of(sender) < amount {
            Err(TokenError::InsufficientFunds)
        } else {
            Ok(())
        }
    }

    pub open spec fn mint_result(&self, sender: Seq<char>, amount: u128) -> Result<(), TokenError> {
        match self.minter {
            None => Err(TokenError::Unauthorized),
            Some(m) => if m@ != sender {
                Err(TokenError::Unauthorized)
            } else if self.info.total_supply + amount > u128::MAX {
                Err(TokenError::Overflow)
            } else {
                Ok(())
            },
        }
    }

    pub open spec fn burn_result(&self, sender: Seq<char>, amount: u128) -> Result<(), TokenError> {
        if self.balance_of(sender) < amount {
            Err(TokenError::InsufficientFunds)
        } else {
            Ok(())
        }
    }

    /// `self` is `old` after `amount` moved from `sender` to `recipient`.
    pub open spec fn transferred_from(&self, old: TokenLedger, sender: Seq<char>, recipient: Seq<char>, amount: u128) -> bool {
        &&& self.info == old.info
        &&& self.minter == old.minter
        &&& others_unchanged(old, *self, sender, recipient)
        &&& if sender == recipient {
            self.balance_of(sender) == old.balance_of(sender)
        } else {
            &&& self.balance_of(sender) == old.balance_of(sender) - amount
            &&& self.balance_of(recipient) == old.balance_of(recipient) + amount
        }
    }

    /// `self` is `old` after `amount` was created for `recipient`.
    pub open spec fn minted_from(&self, old: TokenLedger, recipient: Seq<char>, amount: u128) -> bool {
        &&& self.info.name == old.info.name
        &&& self.info.symbol == old.info.symbol
        &&& self.info.decimals == old.info.decimals
        &&& self.info.total_supply == old.info.total_supply + amount
        &&& self.minter == old.minter
        &&& others_unchanged(old, *self, recipient, recipient)
        &&& self.balance_of(recipient) == old.balance_of(recipient) + amount
    }

    /// `self` is `old` after `amount` of `sender`'s tokens were destroyed.
    pub open spec fn burned_from(&self, old: TokenLedger, sender: Seq<char>, amount: u128) -> bool {
        &&& self.info.name == old.info.name
        &&& self.info.symbol == old.info.symbol
        &&& self.info.decimals == old.info.decimals
        &&& self.info.total_supply == old.info.total_supply - amount
        &&& self.minter == old.minter
        &&& others_unchanged(old, *self, sender, sender)
        &&& self.balance_of(sender) == old.balance_of(sender) - amount
    }

    pub open spec fn execute_result(&self, sender: Seq<char>, msg: ExecuteMsg) -> Result<(), TokenError> {
        match msg {
            ExecuteMsg::Transfer { recipient, amount } => self.transfer_result(sender, amount),
            ExecuteMsg::Burn { amount } => self.burn_result(sender, amount),
            ExecuteMsg::Mint { recipient, amount } => self.mint_result(sender, amount),
        }
    }

    /// `self` is what a successful `msg` from `sender` makes of `old`.
    pub open spec fn executed_from(&self, old: TokenLedger, sender: Seq<char>, msg: ExecuteMsg) -> bool {
        match msg {
            ExecuteMsg::Transfer { recipient, amount } => self.transferred_from(old, sender, recipient@, amount),
            ExecuteMsg::Burn { amount } => self.burned_from(old, sender, amount),
            ExecuteMsg::Mint { recipient, amount } => self.minted_from(old, recipient@, amount),
        }
    }

    /// A new ledger whose instantiator `sender` holds the whole initial supply.
    pub fn instantiate(sender: &String, msg: InstantiateMsg) -> (r: TokenLedger)
        ensures
            r.wf(),
            r.info.name == msg.name,
            r.info.symbol == msg.symbol,
            r.info.decimals == msg.decimals,
            r.info.total_supply == msg.initial_supply,
            r.minter == msg.minter,
            r.balance_of(sender@) == msg.initial_supply,
            forall|w: Seq<char>| w != sender@ ==> #[trigger] r.balance_of(w) == 0,
    {
        let mut accounts: Vec<Account> = Vec::new();
        let a = Account { owner: sender.clone(), balance: msg.initial_supply };
        proof {
            lemma_balance_push(accounts@, a);
        }
        accounts.push(a);
        let r = TokenLedger {
            info: TokenInfo {
                name: msg.name,
                symbol: msg.symbol,
                decimals: msg.decimals,
                total_supply: msg.initial_supply,
            },
            minter: msg.minter,
            accounts,
        };
        r
    }

    /// Moves `amount` from `sender` to `recipient`, creating the recipient's
    /// account if needed; fails with `InsufficientFunds` when the sender holds
    /// less, and then changes nothing.
    pub fn execute_transfer(&mut self, sender: &String, recipient: String, amount: u128) -> (r: Result<(), TokenError>)
        requires
            old(self).wf(),
        ensures
            final(self).wf(),
            r == old(self).transfer_result(sender@, amount),
            r is Ok ==> final(self).transferred_from(*old(self), sender@, recipient@, amount),
            r is Err ==> *final(self) == *old(self),
    {
        let (_, bal) = self.balance_at(sender);
        if bal < amount {
            return Err(TokenError::InsufficientFunds);
        }
        if sender.eq(&recipient) {
            return Ok(());
        }
        if bal.checked_sub(amount).is_none() {
            return Err(TokenError::Overflow);
        }
        proof {
            lemma_two_balances_in_total(self.accounts@, sender@, recipient@);
        }
        self.debit(sender, amount);
        self.credit(recipient, amount);
        Ok(())
    }

    /// Creates `amount` new tokens for `recipient`; only the configured minter
    /// may do so, and the total supply must stay representable.
    pub fn execute_mint(&mut self, sender: &String, recipient: String, amount: u128) -> (r: Result<(), TokenError>)
        requires
            old(self).wf(),
        ensures
            final(self).wf(),
            r == old(self).mint_result(sender@, amount),
            r is Ok ==> final(self).minted_from(*old(self), recipient@, amount),
            r is Err ==> *final(self) == *old(self),
    {
        let authorized = match &self.minter {
            Some(m) => m.eq(sender),
            None => false,
        };
        if !authorized {
            return Err(TokenError::Unauthorized);
        }
        let new_supply = match self.info.total_supply.checked_add(amount) {
            Some(v) => v,
            None => return Err(TokenError::Overflow),
        };
        proof {
            lemma_balance_in_total(self.accounts@, recipient@);
        }
        self.credit(recipient, amount);
        let ghost credited = *self;
        self.info.total_supply = new_supply;
        proof {
            assert forall|w: Seq<char>| w != recipient@ implies #[trigger] self.balance_of(w) == old(self).balance_of(w) by {
                assert(self.accounts@ == credited.accounts@);
                assert(credited.balance_of(w) == old(self).balance_of(w));
            }
        }
        Ok(())
    }

    /// Destroys `amount` of the caller's tokens, lowering the total supply.
    pub fn execute_burn(&mut self, sender: &String, amount: u128) -> (r: Result<(), TokenError>)
        requires
            old(self).wf(),
        ensures
            final(self).wf(),
            r == old(self).burn_result(sender@, amount),
            r is Ok ==> final(self).burned_from(*old(self), sender@, amount),
            r is Err ==> *final(self) == *old(self),
    {
        let (_, bal) = self.balance_at(sender);
        if bal < amount {
            return Err(TokenError::InsufficientFunds);
        }
        proof {
            lemma_balance_in_total(self.accounts@, sender@);
        }
        let new_supply = match self.info.total_supply.checked_sub(amount) {
            Some(v) => v,
            None => return Err(TokenError::Overflow),
        };
        self.debit(sender, amount);
        let ghost debited = *self;
        self.info.total_supply = new_supply;
        proof {
            assert forall|w: Seq<char>| w != sender@ implies #[trigger] self.balance_of(w) == old(self).balance_of(w) by {
                assert(self.accounts@ == debited.accounts@);
                assert(debited.balance_of(w) == old(self).balance_of(w));
            }
        }
        Ok(())
    }

    /// Runs one mutating message on behalf of `sender`.
    pub fn execute(&mut self, sender: &String, msg: ExecuteMsg) -> (r: Result<(), TokenError>)
        requires
            old(self).wf(),
        ensures
            final(self).wf(),
            r == old(self).execute_result(sender@, msg),
            r is Ok ==> final(self).executed_from(*old(self), sender@, msg),
            r is Err ==> *final(self) == *old(self),
    {
        match msg {
            ExecuteMsg::Transfer { recipient, amount } => self.execute_transfer(sender, recipient, amount),
            ExecuteMsg::Burn { amount } => self.execute_burn(sender, amount),
            ExecuteMsg::Mint { recipient, amount } => self.execute_mint(sender, recipient, amount),
        }
    }

    /// The balance of `address`; zero for an identity never seen.
    pub fn query_balance(&self, address: &String) -> (r: BalanceResponse)
        requires
            self.wf(),
        ensures
            r.balance == self.balance_of(address@),
    {
        let (_, balance) = self.balance_at(address);
        BalanceResponse { balance }
    }

    /// A snapshot of the token metadata and total supply.
    pub fn query_token_info(&self) -> (r: TokenInfoResponse)
        ensures
            r.name == self.info.name,
            r.symbol == self.info.symbol,
            r.decimals == self.info.decimals,
            r.total_supply == self.info.total_supply,
    {
        TokenInfoResponse {
            name: self.info.name.clone(),
            symbol: self.info.symbol.clone(),
            decimals: self.info.decimals,
            total_supply: self.info.total_supply,
        }
    }

    /// Answers one read-only message; nothing changes.
    pub fn query(&self, msg: &QueryMsg) -> (r: QueryResponse)
        requires
            self.wf(),
        ensures
            match *msg {
                QueryMsg::Balance { address } => r == QueryResponse::Balance(
                    BalanceResponse { balance: self.balance_of(address@) as u128 },
                ),
                QueryMsg::TokenInfo {} => r == QueryResponse::TokenInfo(
                    TokenInfoResponse {
                        name: self.info.name,
                        symbol: self.info.symbol,
                        decimals: self.info.decimals,
                        total_supply: self.info.total_supply,
                    },
                ),
            },
    {
        match msg {
            QueryMsg::Balance { address } => QueryResponse::Balance(self.query_balance(address)),
            QueryMsg::TokenInfo {} => QueryResponse::TokenInfo(self.query_token_info()),
        }
    }

    /// The index of `who`'s account, if there is one.
    fn find(&self, who: &String) -> (r: Option<usize>)
        ensures
            match r {
                Some(i) => i < self.accounts@.len() && self.accounts@[i as int].owner@ == who@,
                None => forall|k: int| 0 <= k < self.accounts@.len() ==> self.accounts@[k].owner@ != who@,
            },
    {
        let mut i: usize = 0;
        while i < self.accounts.len()
            invariant
                i <= self.accounts@.len(),
                forall|k: int| 0 <= k < i ==> self.accounts@[k].owner@ != who@,
            decreases self.accounts@.len() - i,
        {
            if self.accounts[i].owner.eq(who) {
                return Some(i);
            }
            i += 1;
        }
        None
    }

    /// Sets the balance of the account at `i`; the other accounts stay.
    fn set_balance(&mut self, i: usize, balance: u128)
        requires
            i < old(self).accounts@.len(),
        ensures
            final(self).info == old(self).info,
            final(self).minter == old(self).minter,
            final(self).accounts@ == old(self).accounts@.update(
                i as int,
                Account { owner: old(self).accounts@[i as int].owner, balance },
            ),
    {
        let owner = self.accounts[i].owner.clone();
        self.accounts.set(i, Account { owner, balance });
    }

    /// What `who` holds, read from the accounts.
    fn balance_at(&self, who: &String) -> (r: (Option<usize>, u128))
        requires
            owners_distinct(self.accounts@),
        ensures
            r.1 == self.balance_of(who@),
            r.0 matches Some(i) ==> self.accounts@[i as int].balance == r.1,
            r.0 is None ==> r.1 == 0,
            match r.0 {
                Some(i) => i < self.accounts@.len() && self.accounts@[i as int].owner@ == who@,
                None => forall|k: int| 0 <= k < self.accounts@.len() ==> self.accounts@[k].owner@ != who@,
            },
    {
        let idx = self.find(who);
        match idx {
            Some(i) => {
                proof {
                    lemma_balance_at(self.accounts@, i as int);
                }
                (idx, self.accounts[i].balance)
            },
            None => {
                proof {
                    lemma_balance_absent(self.accounts@, who@);
                }
                (idx, 0)
            },
        }
    }

    /// Adds `amount` to `who`'s balance, creating the account if needed; the
    /// new balance must fit.
    fn credit(&mut self, who: String, amount: u128)
        requires
            owners_distinct(old(self).accounts@),
            old(self).balance_of(who@) + amount <= u128::MAX,
        ensures
            owners_distinct(final(self).accounts@),
            final(self).info == old(self).info,
            final(self).minter == old(self).minter,
            final(self).sum_of_balances() == old(self).sum_of_balances() + amount,
            final(self).balance_of(who@) == old(self).balance_of(who@) + amount,
            others_unchanged(*old(self), *final(self), who@, who@),
    {
        let ghost s = self.accounts@;
        let (idx, bal) = self.balance_at(&who);
        match idx {
            Some(i) => {
                self.set_balance(i, bal + amount);
                proof {
                    lemma_balance_update(s, i as int, self.accounts@[i as int]);
                    assert(owners_distinct(self.accounts@)) by {
                        assert(forall|k: int| 0 <= k < s.len() ==> #[trigger] self.accounts@[k].owner@ == s[k].owner@);
                    }
                }
            },
            None => {
                let a = Account { owner: who, balance: amount };
                self.accounts.push(a);
                proof {
                    lemma_balance_push(s, a);
                    assert(self.accounts@ == s.push(a));
                }
            },
        }
    }

    /// Takes `amount` from `who`'s balance, which holds at least that much.
    fn debit(&mut self, who: &String, amount: u128)
        requires
            owners_distinct(old(self).accounts@),
            old(self).balance_of(who@) >= amount,
        ensures
            owners_distinct(final(self).accounts@),
            final(self).info == old(self).info,
            final(self).minter == old(self).minter,
            final(self).sum_of_balances() + amount == old(self).sum_of_balances(),
            final(self).balance_of(who@) + amount == old(self).balance_of(who@),
            others_unchanged(*old(self), *final(self), who@, who@),
    {
        let ghost s = self.accounts@;
        let (idx, bal) = self.balance_at(who);
        match idx {
            Some(i) => {
                self.set_balance(i, bal - amount);
                proof {
                    lemma_balance_update(s, i as int, self.accounts@[i as int]);
                    assert(owners_distinct(self.accounts@)) by {
                        assert(forall|k: int| 0 <= k < s.len() ==> #[trigger] self.accounts@[k].owner@ == s[k].owner@);
                    }
                }
            },
            None => {},
        }
    }
}

} // verus!
