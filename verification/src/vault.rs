//! The merchant vault: one balance per merchant, credited by the payment
//! router and debited by the payout service.

use vstd::prelude::*;
use crate::address::Address;
use crate::authorization::Authorization;
use crate::table::{RecordKey, Table};

verus! {

/// Why the vault refused an operation.
#[derive(Clone, Copy, Debug, PartialEq, Eq, PartialOrd, Ord, Structural)]
pub enum Error {
    NegativeAmount,
    InsufficientBalance,
    UnauthorizedCaller,
    MerchantNotInitialized,
    AlreadyInitialized,
    NotInitialized,
}

/// Reports that `amount` was added to a merchant's balance.
#[derive(Clone, Copy, Debug)]
pub struct BalanceCreditedEvent {
    pub merchant_id: Address,
    pub amount: i128,
    pub resulting_balance: i128,
}

/// Reports that `amount` was taken from a merchant's balance.
#[derive(Clone, Copy, Debug)]
pub struct BalanceDebitedEvent {
    pub merchant_id: Address,
    pub amount: i128,
    pub resulting_balance: i128,
}

/// The principals that may act on the vault.
#[derive(Clone, Copy, Debug)]
pub struct VaultConfig {
    /// Sets the vault up and opens merchant accounts.
    pub admin: Address,
    /// The only principal that may credit.
    pub payment_router: Address,
    /// The only principal that may debit.
    pub payout_contract: Address,
}

/// The vault as a mathematical value.
pub struct VaultState {
    /// The configuration, once the vault has been initialized.
    pub config: Option<VaultConfig>,
    /// The balance of every merchant that has an account.
    pub balances: Map<Address, i128>,
}

/// The per-merchant balance ledger.
pub struct MerchantVault {
    config: Option<VaultConfig>,
    balances: Table<i128>,
}

/// The balances of a table of accounts, by merchant.
pub closed spec fn accounts(records: Map<RecordKey, i128>) -> Map<Address, i128> {
    Map::new(|a: Address| records.contains_key(a.id), |a: Address| records[a.id])
}

proof fn lemma_accounts_insert(records: Map<RecordKey, i128>, merchant: Address, balance: i128)
    ensures
        accounts(records.insert(merchant.id, balance)) == accounts(records).insert(
            merchant,
            balance,
        ),
{
    assert(accounts(records.insert(merchant.id, balance)) =~= accounts(records).insert(
        merchant,
        balance,
    ));
}

impl View for MerchantVault {
    type V = VaultState;

    closed spec fn view(&self) -> VaultState {
        VaultState { config: self.config, balances: accounts(self.balances@) }
    }
}

/// What `initialize` answers.
pub open spec fn initialize_outcome(pre: VaultState, signers: Set<Address>, admin: Address) -> Result<
    (),
    Error,
> {
    if pre.config is Some {
        Err(Error::AlreadyInitialized)
    } else if !signers.contains(admin) {
        Err(Error::UnauthorizedCaller)
    } else {
        Ok(())
    }
}

/// What `init_merchant` answers.
pub open spec fn init_merchant_outcome(
    pre: VaultState,
    signers: Set<Address>,
    merchant_id: Address,
) -> Result<(), Error> {
    match pre.config {
        None => Err(Error::NotInitialized),
        Some(config) => if !signers.contains(config.admin) {
            Err(Error::UnauthorizedCaller)
        } else if pre.balances.contains_key(merchant_id) {
            Err(Error::AlreadyInitialized)
        } else {
            Ok(())
        },
    }
}

/// Whether a credit passes every test and then cannot be represented: the
/// one case in which a credit is neither applied nor refused.
pub open spec fn credit_aborts(
    pre: VaultState,
    signers: Set<Address>,
    merchant_id: Address,
    amount: i128,
) -> bool {
    &&& pre.config matches Some(config)
    &&& signers.contains(config.payment_router)
    &&& amount >= 0
    &&& pre.balances.contains_key(merchant_id)
    &&& pre.balances[merchant_id] + amount > i128::MAX
}

/// What `credit` answers where the credit does not abort.
pub open spec fn credit_outcome(
    pre: VaultState,
    signers: Set<Address>,
    merchant_id: Address,
    amount: i128,
) -> Result<BalanceCreditedEvent, Error> {
    match pre.config {
        None => Err(Error::NotInitialized),
        Some(config) => if !signers.contains(config.payment_router) {
            Err(Error::UnauthorizedCaller)
        } else if amount < 0 {
            Err(Error::NegativeAmount)
        } else if !pre.balances.contains_key(merchant_id) {
            Err(Error::MerchantNotInitialized)
        } else {
            Ok(
                BalanceCreditedEvent {
                    merchant_id,
                    amount,
                    resulting_balance: (pre.balances[merchant_id] + amount) as i128,
                },
            )
        },
    }
}

/// What `debit` answers.
pub open spec fn debit_outcome(
    pre: VaultState,
    signers: Set<Address>,
    merchant_id: Address,
    amount: i128,
) -> Result<BalanceDebitedEvent, Error> {
    match pre.config {
        None => Err(Error::NotInitialized),
        Some(config) => if !signers.contains(config.payout_contract) {
            Err(Error::UnauthorizedCaller)
        } else if amount < 0 {
            Err(Error::NegativeAmount)
        } else if !pre.balances.contains_key(merchant_id) {
            Err(Error::MerchantNotInitialized)
        } else if pre.balances[merchant_id] < amount {
            Err(Error::InsufficientBalance)
        } else {
            Ok(
                BalanceDebitedEvent {
                    merchant_id,
                    amount,
                    resulting_balance: (pre.balances[merchant_id] - amount) as i128,
                },
            )
        },
    }
}

/// What an update of one of the authorized principals answers.
pub open spec fn update_outcome(pre: VaultState, signers: Set<Address>) -> Result<(), Error> {
    match pre.config {
        None => Err(Error::NotInitialized),
        Some(config) => if !signers.contains(config.admin) {
            Err(Error::UnauthorizedCaller)
        } else {
            Ok(())
        },
    }
}

/// What `balance_of` answers.
pub open spec fn balance_outcome(pre: VaultState, merchant_id: Address) -> Result<i128, Error> {
    if pre.balances.contains_key(merchant_id) {
        Ok(pre.balances[merchant_id])
    } else {
        Err(Error::MerchantNotInitialized)
    }
}

/// The vault after `initialize`.
pub open spec fn initialize_state(
    pre: VaultState,
    signers: Set<Address>,
    admin: Address,
    payment_router: Address,
    payout_contract: Address,
) -> VaultState {
    if initialize_outcome(pre, signers, admin) is Ok {
        VaultState { config: Some(VaultConfig { admin, payment_router, payout_contract }), ..pre }
    } else {
        pre
    }
}

/// The vault after `init_merchant`.
pub open spec fn init_merchant_state(
    pre: VaultState,
    signers: Set<Address>,
    merchant_id: Address,
) -> VaultState {
    if init_merchant_outcome(pre, signers, merchant_id) is Ok {
        VaultState { balances: pre.balances.insert(merchant_id, 0), ..pre }
    } else {
        pre
    }
}

/// The vault after `credit`, where the credit does not abort.
pub open spec fn credit_state(
    pre: VaultState,
    signers: Set<Address>,
    merchant_id: Address,
    amount: i128,
) -> VaultState {
    match credit_outcome(pre, signers, merchant_id, amount) {
        Ok(event) => VaultState {
            balances: pre.balances.insert(merchant_id, event.resulting_balance),
            ..pre
        },
        Err(_) => pre,
    }
}

/// The vault after `debit`.
pub open spec fn debit_state(
    pre: VaultState,
    signers: Set<Address>,
    merchant_id: Address,
    amount: i128,
) -> VaultState {
    match debit_outcome(pre, signers, merchant_id, amount) {
        Ok(event) => VaultState {
            balances: pre.balances.insert(merchant_id, event.resulting_balance),
            ..pre
        },
        Err(_) => pre,
    }
}

/// The vault after `update_payment_router`.
pub open spec fn update_payment_router_state(
    pre: VaultState,
    signers: Set<Address>,
    new_router: Address,
) -> VaultState {
    match pre.config {
        Some(config) if update_outcome(pre, signers) is Ok => VaultState {
            config: Some(VaultConfig { payment_router: new_router, ..config }),
            ..pre
        },
        _ => pre,
    }
}

/// The vault after `update_payout_contract`.
pub open spec fn update_payout_contract_state(
    pre: VaultState,
    signers: Set<Address>,
    new_payout: Address,
) -> VaultState {
    match pre.config {
        Some(config) if update_outcome(pre, signers) is Ok => VaultState {
            config: Some(VaultConfig { payout_contract: new_payout, ..config }),
            ..pre
        },
        _ => pre,
    }
}

impl MerchantVault {
    /// A vault that has not been initialized and holds no account.
    pub fn new() -> (r: Self)
        ensures
            r@ == (VaultState { config: None, balances: Map::empty() }),
    {
        let r = MerchantVault { config: None, balances: Table::new() };
        proof {
            assert(r@.balances =~= Map::<Address, i128>::empty());
        }
        r
    }

    /// A vault with the configuration that the host had persisted, and no
    /// account yet.
    pub fn restore(config: Option<VaultConfig>) -> (r: Self)
        ensures
            r@ == (VaultState { config, balances: Map::empty() }),
    {
        let r = MerchantVault { config, balances: Table::new() };
        proof {
            assert(r@.balances =~= Map::<Address, i128>::empty());
        }
        r
    }

    /// Puts back an account that the host had persisted.
    pub fn restore_account(&mut self, merchant_id: Address, balance: i128)
        ensures
            final(self)@ == (VaultState {
                balances: old(self)@.balances.insert(merchant_id, balance),
                ..old(self)@
            }),
    {
        proof {
            lemma_accounts_insert(self.balances@, merchant_id, balance);
        }
        self.balances.insert(merchant_id.id, balance);
    }

    /// The configuration, once the vault has been initialized.
    pub fn config(&self) -> (r: Option<VaultConfig>)
        ensures
            r == self@.config,
    {
        self.config
    }

    /// Sets the administrator and the two principals that may credit and
    /// debit. This can be done once, and `admin` must have authorized it.
    pub fn initialize(
        &mut self,
        auth: &Authorization,
        admin: Address,
        payment_router: Address,
        payout_contract: Address,
    ) -> (r: Result<(), Error>)
        ensures
            r == initialize_outcome(old(self)@, auth@, admin),
            final(self)@ == initialize_state(
                old(self)@,
                auth@,
                admin,
                payment_router,
                payout_contract,
            ),
    {
        if self.config.is_some() {
            return Err(Error::AlreadyInitialized);
        }
        if !auth.allows(&admin) {
            return Err(Error::UnauthorizedCaller);
        }
        self.config = Some(VaultConfig { admin, payment_router, payout_contract });
        Ok(())
    }

    /// Opens an account with a zero balance for `merchant_id`. The
    /// administrator must have authorized it.
    pub fn init_merchant(&mut self, auth: &Authorization, merchant_id: Address) -> (r: Result<
        (),
        Error,
    >)
        ensures
            r == init_merchant_outcome(old(self)@, auth@, merchant_id),
            final(self)@ == init_merchant_state(old(self)@, auth@, merchant_id),
    {
        let config = match self.config {
            None => {
                return Err(Error::NotInitialized);
            },
            Some(config) => config,
        };
        if !auth.allows(&config.admin) {
            return Err(Error::UnauthorizedCaller);
        }
        if self.balances.contains_key(&merchant_id.id) {
            return Err(Error::AlreadyInitialized);
        }
        proof {
            lemma_accounts_insert(self.balances@, merchant_id, 0);
        }
        self.balances.insert(merchant_id.id, 0);
        Ok(())
    }

    /// Whether a credit would abort: whether it passes every test and the
    /// sum is then beyond the largest balance. A caller of [`Self::credit`]
    /// asks this first.
    pub fn credit_would_abort(&self, auth: &Authorization, merchant_id: Address, amount: i128) -> (r:
        bool)
        ensures
            r == credit_aborts(self@, auth@, merchant_id, amount),
    {
        let config = match self.config {
            None => {
                return false;
            },
            Some(config) => config,
        };
        if !auth.allows(&config.payment_router) || amount < 0 {
            return false;
        }
        match self.balances.get(&merchant_id.id) {
            None => false,
            Some(balance) => *balance > i128::MAX - amount,
        }
    }

    /// Adds `amount` to the balance of `merchant_id`. The payment router must
    /// have authorized it.
    ///
    /// A sum beyond the largest balance is not a refusal but a broken
    /// invariant: a caller rules it out beforehand.
    pub fn credit(&mut self, auth: &Authorization, merchant_id: Address, amount: i128) -> (r: Result<
        BalanceCreditedEvent,
        Error,
    >)
        requires
            !credit_aborts(old(self)@, auth@, merchant_id, amount),
        ensures
            r == credit_outcome(old(self)@, auth@, merchant_id, amount),
            final(self)@ == credit_state(old(self)@, auth@, merchant_id, amount),
    {
        let config = match self.config {
            None => {
                return Err(Error::NotInitialized);
            },
            Some(config) => config,
        };
        if !auth.allows(&config.payment_router) {
            return Err(Error::UnauthorizedCaller);
        }
        if amount < 0 {
            return Err(Error::NegativeAmount);
        }
        let current_balance: i128 = match self.balances.get(&merchant_id.id) {
            None => {
                return Err(Error::MerchantNotInitialized);
            },
            Some(balance) => *balance,
        };
        let new_balance: i128 = current_balance + amount;
        proof {
            lemma_accounts_insert(self.balances@, merchant_id, new_balance);
        }
        self.balances.insert(merchant_id.id, new_balance);
        Ok(BalanceCreditedEvent { merchant_id, amount, resulting_balance: new_balance })
    }

    /// Takes `amount` from the balance of `merchant_id`, which must cover it.
    /// The payout service must have authorized it.
    pub fn debit(&mut self, auth: &Authorization, merchant_id: Address, amount: i128) -> (r: Result<
        BalanceDebitedEvent,
        Error,
    >)
        ensures
            r == debit_outcome(old(self)@, auth@, merchant_id, amount),
            final(self)@ == debit_state(old(self)@, auth@, merchant_id, amount),
    {
        let config = match self.config {
            None => {
                return Err(Error::NotInitialized);
            },
            Some(config) => config,
        };
        if !auth.allows(&config.payout_contract) {
            return Err(Error::UnauthorizedCaller);
        }
        if amount < 0 {
            return Err(Error::NegativeAmount);
        }
        let current_balance: i128 = match self.balances.get(&merchant_id.id) {
            None => {
                return Err(Error::MerchantNotInitialized);
            },
            Some(balance) => *balance,
        };
        if current_balance < amount {
            return Err(Error::InsufficientBalance);
        }
        let new_balance: i128 = current_balance - amount;
        proof {
            lemma_accounts_insert(self.balances@, merchant_id, new_balance);
        }
        self.balances.insert(merchant_id.id, new_balance);
        Ok(BalanceDebitedEvent { merchant_id, amount, resulting_balance: new_balance })
    }

    /// The balance of `merchant_id`.
    pub fn balance_of(&self, merchant_id: Address) -> (r: Result<i128, Error>)
        ensures
            r == balance_outcome(self@, merchant_id),
    {
        match self.balances.get(&merchant_id.id) {
            None => Err(Error::MerchantNotInitialized),
            Some(balance) => Ok(*balance),
        }
    }

    /// Names another principal as the one that may credit. The administrator
    /// must have authorized it.
    pub fn update_payment_router(&mut self, auth: &Authorization, new_router: Address) -> (r: Result<
        (),
        Error,
    >)
        ensures
            r == update_outcome(old(self)@, auth@),
            final(self)@ == update_payment_router_state(old(self)@, auth@, new_router),
    {
        let config = match self.config {
            None => {
                return Err(Error::NotInitialized);
            },
            Some(config) => config,
        };
        if !auth.allows(&config.admin) {
            return Err(Error::UnauthorizedCaller);
        }
        self.config = Some(
            VaultConfig {
                admin: config.admin,
                payment_router: new_router,
                payout_contract: config.payout_contract,
            },
        );
        Ok(())
    }

    /// Names another principal as the one that may debit. The administrator
    /// must have authorized it.
    pub fn update_payout_contract(&mut self, auth: &Authorization, new_payout: Address) -> (r: Result<
        (),
        Error,
    >)
        ensures
            r == update_outcome(old(self)@, auth@),
            final(self)@ == update_payout_contract_state(old(self)@, auth@, new_payout),
    {
        let config = match self.config {
            None => {
                return Err(Error::NotInitialized);
            },
            Some(config) => config,
        };
        if !auth.allows(&config.admin) {
            return Err(Error::UnauthorizedCaller);
        }
        self.config = Some(
            VaultConfig {
                admin: config.admin,
                payment_router: config.payment_router,
                payout_contract: new_payout,
            },
        );
        Ok(())
    }
}

} // verus!
