//! Accounts (`account.account`).

use vstd::prelude::*;

use crate::utils::text_is;

verus! {

/// The Odoo model of accounts.
pub const ACCOUNT_ACCOUNT_MODEL_NAME: &'static str = "account.account";

/// The type of an account.
#[derive(Debug, Clone, Copy, PartialEq, Eq, Structural, PartialOrd, Ord, Hash)]
pub enum AccountAccountType {
    AssetReceivable,
    AssetCash,
    AssetCurrent,
    AssetNonCurrent,
    AssetPrepayments,
    AssetFixed,
    LiabilityPayable,
    LiabilityCreditCard,
    LiabilityCurrent,
    LiabilityNonCurrent,
    Equity,
    EquityUnaffected,
    Income,
    IncomeOther,
    Expense,
    ExpenseDepreciation,
    ExpenseDirectCost,
    OffBalance,
}

impl AccountAccountType {
    /// The position of the value in declaration order.
    pub open spec fn spec_position(self) -> int {
        match self {
            AccountAccountType::AssetReceivable => 0,
            AccountAccountType::AssetCash => 1,
            AccountAccountType::AssetCurrent => 2,
            AccountAccountType::AssetNonCurrent => 3,
            AccountAccountType::AssetPrepayments => 4,
            AccountAccountType::AssetFixed => 5,
            AccountAccountType::LiabilityPayable => 6,
            AccountAccountType::LiabilityCreditCard => 7,
            AccountAccountType::LiabilityCurrent => 8,
            AccountAccountType::LiabilityNonCurrent => 9,
            AccountAccountType::Equity => 10,
            AccountAccountType::EquityUnaffected => 11,
            AccountAccountType::Income => 12,
            AccountAccountType::IncomeOther => 13,
            AccountAccountType::Expense => 14,
            AccountAccountType::ExpenseDepreciation => 15,
            AccountAccountType::ExpenseDirectCost => 16,
            AccountAccountType::OffBalance => 17,
        }
    }

    /// The labels that Odoo shows, in declaration order.
    pub open spec fn spec_labels() -> Seq<Seq<char>> {
        seq!["Receivable"@, "Bank and Cash"@, "Current Assets"@, "Non-current Assets"@, "Prepayments"@, "Fixed Assets"@, "Payable"@, "Credit Card"@, "Current Liabilities"@, "Non-current Liabilities"@, "Equity"@, "Current Year Earnings"@, "Income"@, "Other Income"@, "Expenses"@, "Depreciation"@, "Cost of Revenue"@, "Off-Balance Sheet"@]
    }

    /// The label that Odoo shows for the value.
    pub open spec fn spec_display(self) -> Seq<char> {
        AccountAccountType::spec_labels()[self.spec_position()]
    }

    /// The key under which Odoo stores the value.
    pub open spec fn spec_selection_key(self) -> Seq<char> {
        match self {
            AccountAccountType::AssetReceivable => "asset_receivable"@,
            AccountAccountType::AssetCash => "asset_cash"@,
            AccountAccountType::AssetCurrent => "asset_current"@,
            AccountAccountType::AssetNonCurrent => "asset_non_current"@,
            AccountAccountType::AssetPrepayments => "asset_prepayments"@,
            AccountAccountType::AssetFixed => "asset_fixed"@,
            AccountAccountType::LiabilityPayable => "liability_payable"@,
            AccountAccountType::LiabilityCreditCard => "liability_credit_card"@,
            AccountAccountType::LiabilityCurrent => "liability_current"@,
            AccountAccountType::LiabilityNonCurrent => "liability_non_current"@,
            AccountAccountType::Equity => "equity"@,
            AccountAccountType::EquityUnaffected => "equity_unaffected"@,
            AccountAccountType::Income => "income"@,
            AccountAccountType::IncomeOther => "income_other"@,
            AccountAccountType::Expense => "expense"@,
            AccountAccountType::ExpenseDepreciation => "expense_depreciation"@,
            AccountAccountType::ExpenseDirectCost => "expense_direct_cost"@,
            AccountAccountType::OffBalance => "off_balance"@,
        }
    }

    /// The value stored under `key`, if any.
    pub open spec fn spec_from_selection_key(key: Seq<char>) -> Option<AccountAccountType> {
        if key == "asset_receivable"@ {
            Some(AccountAccountType::AssetReceivable)
        } else if key == "asset_cash"@ {
            Some(AccountAccountType::AssetCash)
        } else if key == "asset_current"@ {
            Some(AccountAccountType::AssetCurrent)
        } else if key == "asset_non_current"@ {
            Some(AccountAccountType::AssetNonCurrent)
        } else if key == "asset_prepayments"@ {
            Some(AccountAccountType::AssetPrepayments)
        } else if key == "asset_fixed"@ {
            Some(AccountAccountType::AssetFixed)
        } else if key == "liability_payable"@ {
            Some(AccountAccountType::LiabilityPayable)
        } else if key == "liability_credit_card"@ {
            Some(AccountAccountType::LiabilityCreditCard)
        } else if key == "liability_current"@ {
            Some(AccountAccountType::LiabilityCurrent)
        } else if key == "liability_non_current"@ {
            Some(AccountAccountType::LiabilityNonCurrent)
        } else if key == "equity"@ {
            Some(AccountAccountType::Equity)
        } else if key == "equity_unaffected"@ {
            Some(AccountAccountType::EquityUnaffected)
        } else if key == "income"@ {
            Some(AccountAccountType::Income)
        } else if key == "income_other"@ {
            Some(AccountAccountType::IncomeOther)
        } else if key == "expense"@ {
            Some(AccountAccountType::Expense)
        } else if key == "expense_depreciation"@ {
            Some(AccountAccountType::ExpenseDepreciation)
        } else if key == "expense_direct_cost"@ {
            Some(AccountAccountType::ExpenseDirectCost)
        } else if key == "off_balance"@ {
            Some(AccountAccountType::OffBalance)
        } else {
            None
        }
    }

    /// The position of the value in declaration order.
    fn position(&self) -> (res: usize)
        ensures
            res == self.spec_position(),
            res < 18,
    {
        match self {
            AccountAccountType::AssetReceivable => 0,
            AccountAccountType::AssetCash => 1,
            AccountAccountType::AssetCurrent => 2,
            AccountAccountType::AssetNonCurrent => 3,
            AccountAccountType::AssetPrepayments => 4,
            AccountAccountType::AssetFixed => 5,
            AccountAccountType::LiabilityPayable => 6,
            AccountAccountType::LiabilityCreditCard => 7,
            AccountAccountType::LiabilityCurrent => 8,
            AccountAccountType::LiabilityNonCurrent => 9,
            AccountAccountType::Equity => 10,
            AccountAccountType::EquityUnaffected => 11,
            AccountAccountType::Income => 12,
            AccountAccountType::IncomeOther => 13,
            AccountAccountType::Expense => 14,
            AccountAccountType::ExpenseDepreciation => 15,
            AccountAccountType::ExpenseDirectCost => 16,
            AccountAccountType::OffBalance => 17,
        }
    }

    /// The label that Odoo shows for the value.
    pub fn to_display_string(&self) -> (res: String)
        ensures
            res@ == self.spec_display(),
    {
        let labels: [&str; 18] = ["Receivable", "Bank and Cash", "Current Assets", "Non-current Assets", "Prepayments", "Fixed Assets", "Payable", "Credit Card", "Current Liabilities", "Non-current Liabilities", "Equity", "Current Year Earnings", "Income", "Other Income", "Expenses", "Depreciation", "Cost of Revenue", "Off-Balance Sheet"];
        assert(labels@.map_values(|s: &str| s@) =~= AccountAccountType::spec_labels());
        labels[self.position()].to_owned()
    }

    /// The key under which Odoo stores the value.
    pub fn selection_key(&self) -> (res: &'static str)
        ensures
            res@ == self.spec_selection_key(),
    {
        match self {
            AccountAccountType::AssetReceivable => "asset_receivable",
            AccountAccountType::AssetCash => "asset_cash",
            AccountAccountType::AssetCurrent => "asset_current",
            AccountAccountType::AssetNonCurrent => "asset_non_current",
            AccountAccountType::AssetPrepayments => "asset_prepayments",
            AccountAccountType::AssetFixed => "asset_fixed",
            AccountAccountType::LiabilityPayable => "liability_payable",
            AccountAccountType::LiabilityCreditCard => "liability_credit_card",
            AccountAccountType::LiabilityCurrent => "liability_current",
            AccountAccountType::LiabilityNonCurrent => "liability_non_current",
            AccountAccountType::Equity => "equity",
            AccountAccountType::EquityUnaffected => "equity_unaffected",
            AccountAccountType::Income => "income",
            AccountAccountType::IncomeOther => "income_other",
            AccountAccountType::Expense => "expense",
            AccountAccountType::ExpenseDepreciation => "expense_depreciation",
            AccountAccountType::ExpenseDirectCost => "expense_direct_cost",
            AccountAccountType::OffBalance => "off_balance",
        }
    }

    /// The value stored under `key`, if any.
    pub fn from_selection_key(key: &str) -> (res: Option<AccountAccountType>)
        ensures
            res == AccountAccountType::spec_from_selection_key(key@),
    {
        if text_is(key, "asset_receivable") {
            Some(AccountAccountType::AssetReceivable)
        } else if text_is(key, "asset_cash") {
            Some(AccountAccountType::AssetCash)
        } else if text_is(key, "asset_current") {
            Some(AccountAccountType::AssetCurrent)
        } else if text_is(key, "asset_non_current") {
            Some(AccountAccountType::AssetNonCurrent)
        } else if text_is(key, "asset_prepayments") {
            Some(AccountAccountType::AssetPrepayments)
        } else if text_is(key, "asset_fixed") {
            Some(AccountAccountType::AssetFixed)
        } else if text_is(key, "liability_payable") {
            Some(AccountAccountType::LiabilityPayable)
        } else if text_is(key, "liability_credit_card") {
            Some(AccountAccountType::LiabilityCreditCard)
        } else if text_is(key, "liability_current") {
            Some(AccountAccountType::LiabilityCurrent)
        } else if text_is(key, "liability_non_current") {
            Some(AccountAccountType::LiabilityNonCurrent)
        } else if text_is(key, "equity") {
            Some(AccountAccountType::Equity)
        } else if text_is(key, "equity_unaffected") {
            Some(AccountAccountType::EquityUnaffected)
        } else if text_is(key, "income") {
            Some(AccountAccountType::Income)
        } else if text_is(key, "income_other") {
            Some(AccountAccountType::IncomeOther)
        } else if text_is(key, "expense") {
            Some(AccountAccountType::Expense)
        } else if text_is(key, "expense_depreciation") {
            Some(AccountAccountType::ExpenseDepreciation)
        } else if text_is(key, "expense_direct_cost") {
            Some(AccountAccountType::ExpenseDirectCost)
        } else if text_is(key, "off_balance") {
            Some(AccountAccountType::OffBalance)
        } else {
            None
        }
    }

    /// Law: the value stored under a value's key is that value, so
    /// values are written and read back unchanged.
    pub proof fn lemma_selection_key_roundtrip(self)
        ensures
            AccountAccountType::spec_from_selection_key(self.spec_selection_key()) == Some(self),
    {
        reveal_strlit("asset_receivable");
        reveal_strlit("asset_cash");
        reveal_strlit("asset_current");
        reveal_strlit("asset_non_current");
        reveal_strlit("asset_prepayments");
        reveal_strlit("asset_fixed");
        reveal_strlit("liability_payable");
        reveal_strlit("liability_credit_card");
        reveal_strlit("liability_current");
        reveal_strlit("liability_non_current");
        reveal_strlit("equity");
        reveal_strlit("equity_unaffected");
        reveal_strlit("income");
        reveal_strlit("income_other");
        reveal_strlit("expense");
        reveal_strlit("expense_depreciation");
        reveal_strlit("expense_direct_cost");
        reveal_strlit("off_balance");
        assert("asset_receivable"@.len() != "asset_cash"@.len());
        assert("asset_receivable"@.len() != "asset_current"@.len());
        assert("asset_receivable"@.len() != "asset_non_current"@.len());
        assert("asset_receivable"@.len() != "asset_prepayments"@.len());
        assert("asset_receivable"@.len() != "asset_fixed"@.len());
        assert("asset_receivable"@.len() != "liability_payable"@.len());
        assert("asset_receivable"@.len() != "liability_credit_card"@.len());
        assert("asset_receivable"@.len() != "liability_current"@.len());
        assert("asset_receivable"@.len() != "liability_non_current"@.len());
        assert("asset_receivable"@.len() != "equity"@.len());
        assert("asset_receivable"@.len() != "equity_unaffected"@.len());
        assert("asset_receivable"@.len() != "income"@.len());
        assert("asset_receivable"@.len() != "income_other"@.len());
        assert("asset_receivable"@.len() != "expense"@.len());
        assert("asset_receivable"@.len() != "expense_depreciation"@.len());
        assert("asset_receivable"@.len() != "expense_direct_cost"@.len());
        assert("asset_receivable"@.len() != "off_balance"@.len());
        assert("asset_cash"@.len() != "asset_current"@.len());
        assert("asset_cash"@.len() != "asset_non_current"@.len());
        assert("asset_cash"@.len() != "asset_prepayments"@.len());
        assert("asset_cash"@.len() != "asset_fixed"@.len());
        assert("asset_cash"@.len() != "liability_payable"@.len());
        assert("asset_cash"@.len() != "liability_credit_card"@.len());
        assert("asset_cash"@.len() != "liability_current"@.len());
        assert("asset_cash"@.len() != "liability_non_current"@.len());
        assert("asset_cash"@.len() != "equity"@.len());
        assert("asset_cash"@.len() != "equity_unaffected"@.len());
        assert("asset_cash"@.len() != "income"@.len());
        assert("asset_cash"@.len() != "income_other"@.len());
        assert("asset_cash"@.len() != "expense"@.len());
        assert("asset_cash"@.len() != "expense_depreciation"@.len());
        assert("asset_cash"@.len() != "expense_direct_cost"@.len());
        assert("asset_cash"@.len() != "off_balance"@.len());
        assert("asset_current"@.len() != "asset_non_current"@.len());
        assert("asset_current"@.len() != "asset_prepayments"@.len());
        assert("asset_current"@.len() != "asset_fixed"@.len());
        assert("asset_current"@.len() != "liability_payable"@.len());
        assert("asset_current"@.len() != "liability_credit_card"@.len());
        assert("asset_current"@.len() != "liability_current"@.len());
        assert("asset_current"@.len() != "liability_non_current"@.len());
        assert("asset_current"@.len() != "equity"@.len());
        assert("asset_current"@.len() != "equity_unaffected"@.len());
        assert("asset_current"@.len() != "income"@.len());
        assert("asset_current"@.len() != "income_other"@.len());
        assert("asset_current"@.len() != "expense"@.len());
        assert("asset_current"@.len() != "expense_depreciation"@.len());
        assert("asset_current"@.len() != "expense_direct_cost"@.len());
        assert("asset_current"@.len() != "off_balance"@.len());
        assert("asset_non_current"@[6] != "asset_prepayments"@[6]);
        assert("asset_non_current"@.len() != "asset_fixed"@.len());
        assert("asset_non_current"@[0] != "liability_payable"@[0]);
        assert("asset_non_current"@.len() != "liability_credit_card"@.len());
        assert("asset_non_current"@[0] != "liability_current"@[0]);
        assert("asset_non_current"@.len() != "liability_non_current"@.len());
        assert("asset_non_current"@.len() != "equity"@.len());
        assert("asset_non_current"@[0] != "equity_unaffected"@[0]);
        assert("asset_non_current"@.len() != "income"@.len());
        assert("asset_non_current"@.len() != "income_other"@.len());
        assert("asset_non_current"@.len() != "expense"@.len());
        assert("asset_non_current"@.len() != "expense_depreciation"@.len());
        assert("asset_non_current"@.len() != "expense_direct_cost"@.len());
        assert("asset_non_current"@.len() != "off_balance"@.len());
        assert("asset_prepayments"@.len() != "asset_fixed"@.len());
        assert("asset_prepayments"@[0] != "liability_payable"@[0]);
        assert("asset_prepayments"@.len() != "liability_credit_card"@.len());
        assert("asset_prepayments"@[0] != "liability_current"@[0]);
        assert("asset_prepayments"@.len() != "liability_non_current"@.len());
        assert("asset_prepayments"@.len() != "equity"@.len());
        assert("asset_prepayments"@[0] != "equity_unaffected"@[0]);
        assert("asset_prepayments"@.len() != "income"@.len());
        assert("asset_prepayments"@.len() != "income_other"@.len());
        assert("asset_prepayments"@.len() != "expense"@.len());
        assert("asset_prepayments"@.len() != "expense_depreciation"@.len());
        assert("asset_prepayments"@.len() != "expense_direct_cost"@.len());
        assert("asset_prepayments"@.len() != "off_balance"@.len());
        assert("asset_fixed"@.len() != "liability_payable"@.len());
        assert("asset_fixed"@.len() != "liability_credit_card"@.len());
        assert("asset_fixed"@.len() != "liability_current"@.len());
        assert("asset_fixed"@.len() != "liability_non_current"@.len());
        assert("asset_fixed"@.len() != "equity"@.len());
        assert("asset_fixed"@.len() != "equity_unaffected"@.len());
        assert("asset_fixed"@.len() != "income"@.len());
        assert("asset_fixed"@.len() != "income_other"@.len());
        assert("asset_fixed"@.len() != "expense"@.len());
        assert("asset_fixed"@.len() != "expense_depreciation"@.len());
        assert("asset_fixed"@.len() != "expense_direct_cost"@.len());
        assert("asset_fixed"@[0] != "off_balance"@[0]);
        assert("liability_payable"@.len() != "liability_credit_card"@.len());
        assert("liability_payable"@[10] != "liability_current"@[10]);
        assert("liability_payable"@.len() != "liability_non_current"@.len());
        assert("liability_payable"@.len() != "equity"@.len());
        assert("liability_payable"@[0] != "equity_unaffected"@[0]);
        assert("liability_payable"@.len() != "income"@.len());
        assert("liability_payable"@.len() != "income_other"@.len());
        assert("liability_payable"@.len() != "expense"@.len());
        assert("liability_payable"@.len() != "expense_depreciation"@.len());
        assert("liability_payable"@.len() != "expense_direct_cost"@.len());
        assert("liability_payable"@.len() != "off_balance"@.len());
        assert("liability_credit_card"@.len() != "liability_current"@.len());
        assert("liability_credit_card"@[10] != "liability_non_current"@[10]);
        assert("liability_credit_card"@.len() != "equity"@.len());
        assert("liability_credit_card"@.len() != "equity_unaffected"@.len());
        assert("liability_credit_card"@.len() != "income"@.len());
        assert("liability_credit_card"@.len() != "income_other"@.len());
        assert("liability_credit_card"@.len() != "expense"@.len());
        assert("liability_credit_card"@.len() != "expense_depreciation"@.len());
        assert("liability_credit_card"@.len() != "expense_direct_cost"@.len());
        assert("liability_credit_card"@.len() != "off_balance"@.len());
        assert("liability_current"@.len() != "liability_non_current"@.len());
        assert("liability_current"@.len() != "equity"@.len());
        assert("liability_current"@[0] != "equity_unaffected"@[0]);
        assert("liability_current"@.len() != "income"@.len());
        assert("liability_current"@.len() != "income_other"@.len());
        assert("liability_current"@.len() != "expense"@.len());
        assert("liability_current"@.len() != "expense_depreciation"@.len());
        assert("liability_current"@.len() != "expense_direct_cost"@.len());
        assert("liability_current"@.len() != "off_balance"@.len());
        assert("liability_non_current"@.len() != "equity"@.len());
        assert("liability_non_current"@.len() != "equity_unaffected"@.len());
        assert("liability_non_current"@.len() != "income"@.len());
        assert("liability_non_current"@.len() != "income_other"@.len());
        assert("liability_non_current"@.len() != "expense"@.len());
        assert("liability_non_current"@.len() != "expense_depreciation"@.len());
        assert("liability_non_current"@.len() != "expense_direct_cost"@.len());
        assert("liability_non_current"@.len() != "off_balance"@.len());
        assert("equity"@.len() != "equity_unaffected"@.len());
        assert("equity"@[0] != "income"@[0]);
        assert("equity"@.len() != "income_other"@.len());
        assert("equity"@.len() != "expense"@.len());
        assert("equity"@.len() != "expense_depreciation"@.len());
        assert("equity"@.len() != "expense_direct_cost"@.len());
        assert("equity"@.len() != "off_balance"@.len());
        assert("equity_unaffected"@.len() != "income"@.len());
        assert("equity_unaffected"@.len() != "income_other"@.len());
        assert("equity_unaffected"@.len() != "expense"@.len());
        assert("equity_unaffected"@.len() != "expense_depreciation"@.len());
        assert("equity_unaffected"@.len() != "expense_direct_cost"@.len());
        assert("equity_unaffected"@.len() != "off_balance"@.len());
        assert("income"@.len() != "income_other"@.len());
        assert("income"@.len() != "expense"@.len());
        assert("income"@.len() != "expense_depreciation"@.len());
        assert("income"@.len() != "expense_direct_cost"@.len());
        assert("income"@.len() != "off_balance"@.len());
        assert("income_other"@.len() != "expense"@.len());
        assert("income_other"@.len() != "expense_depreciation"@.len());
        assert("income_other"@.len() != "expense_direct_cost"@.len());
        assert("income_other"@.len() != "off_balance"@.len());
        assert("expense"@.len() != "expense_depreciation"@.len());
        assert("expense"@.len() != "expense_direct_cost"@.len());
        assert("expense"@.len() != "off_balance"@.len());
        assert("expense_depreciation"@.len() != "expense_direct_cost"@.len());
        assert("expense_depreciation"@.len() != "off_balance"@.len());
        assert("expense_direct_cost"@.len() != "off_balance"@.len());
    }

    /// Law: each value is shown under its Odoo label and stored under its
    /// Odoo key (AssetReceivable as "asset_receivable", AssetCash as "asset_cash", AssetCurrent as "asset_current", AssetNonCurrent as "asset_non_current", AssetPrepayments as "asset_prepayments", AssetFixed as "asset_fixed", LiabilityPayable as "liability_payable", LiabilityCreditCard as "liability_credit_card", LiabilityCurrent as "liability_current", LiabilityNonCurrent as "liability_non_current", Equity as "equity", EquityUnaffected as "equity_unaffected", Income as "income", IncomeOther as "income_other", Expense as "expense", ExpenseDepreciation as "expense_depreciation", ExpenseDirectCost as "expense_direct_cost", OffBalance as "off_balance"), and a key reads back as exactly the value
    /// stored under it.
    pub proof fn lemma_labels_and_keys()
        ensures
            AccountAccountType::AssetReceivable.spec_display() == "Receivable"@,
            AccountAccountType::AssetReceivable.spec_selection_key() == "asset_receivable"@,
            AccountAccountType::AssetCash.spec_display() == "Bank and Cash"@,
            AccountAccountType::AssetCash.spec_selection_key() == "asset_cash"@,
            AccountAccountType::AssetCurrent.spec_display() == "Current Assets"@,
            AccountAccountType::AssetCurrent.spec_selection_key() == "asset_current"@,
            AccountAccountType::AssetNonCurrent.spec_display() == "Non-current Assets"@,
            AccountAccountType::AssetNonCurrent.spec_selection_key() == "asset_non_current"@,
            AccountAccountType::AssetPrepayments.spec_display() == "Prepayments"@,
            AccountAccountType::AssetPrepayments.spec_selection_key() == "asset_prepayments"@,
            AccountAccountType::AssetFixed.spec_display() == "Fixed Assets"@,
            AccountAccountType::AssetFixed.spec_selection_key() == "asset_fixed"@,
            AccountAccountType::LiabilityPayable.spec_display() == "Payable"@,
            AccountAccountType::LiabilityPayable.spec_selection_key() == "liability_payable"@,
            AccountAccountType::LiabilityCreditCard.spec_display() == "Credit Card"@,
            AccountAccountType::LiabilityCreditCard.spec_selection_key() == "liability_credit_card"@,
            AccountAccountType::LiabilityCurrent.spec_display() == "Current Liabilities"@,
            AccountAccountType::LiabilityCurrent.spec_selection_key() == "liability_current"@,
            AccountAccountType::LiabilityNonCurrent.spec_display() == "Non-current Liabilities"@,
            AccountAccountType::LiabilityNonCurrent.spec_selection_key() == "liability_non_current"@,
            AccountAccountType::Equity.spec_display() == "Equity"@,
            AccountAccountType::Equity.spec_selection_key() == "equity"@,
            AccountAccountType::EquityUnaffected.spec_display() == "Current Year Earnings"@,
            AccountAccountType::EquityUnaffected.spec_selection_key() == "equity_unaffected"@,
            AccountAccountType::Income.spec_display() == "Income"@,
            AccountAccountType::Income.spec_selection_key() == "income"@,
            AccountAccountType::IncomeOther.spec_display() == "Other Income"@,
            AccountAccountType::IncomeOther.spec_selection_key() == "income_other"@,
            AccountAccountType::Expense.spec_display() == "Expenses"@,
            AccountAccountType::Expense.spec_selection_key() == "expense"@,
            AccountAccountType::ExpenseDepreciation.spec_display() == "Depreciation"@,
            AccountAccountType::ExpenseDepreciation.spec_selection_key() == "expense_depreciation"@,
            AccountAccountType::ExpenseDirectCost.spec_display() == "Cost of Revenue"@,
            AccountAccountType::ExpenseDirectCost.spec_selection_key() == "expense_direct_cost"@,
            AccountAccountType::OffBalance.spec_display() == "Off-Balance Sheet"@,
            AccountAccountType::OffBalance.spec_selection_key() == "off_balance"@,
            forall|key: Seq<char>, v: AccountAccountType|
                AccountAccountType::spec_from_selection_key(key) == Some(v) <==> key == v.spec_selection_key(),
    {
        reveal_strlit("asset_receivable");
        reveal_strlit("asset_cash");
        reveal_strlit("asset_current");
        reveal_strlit("asset_non_current");
        reveal_strlit("asset_prepayments");
        reveal_strlit("asset_fixed");
        reveal_strlit("liability_payable");
        reveal_strlit("liability_credit_card");
        reveal_strlit("liability_current");
        reveal_strlit("liability_non_current");
        reveal_strlit("equity");
        reveal_strlit("equity_unaffected");
        reveal_strlit("income");
        reveal_strlit("income_other");
        reveal_strlit("expense");
        reveal_strlit("expense_depreciation");
        reveal_strlit("expense_direct_cost");
        reveal_strlit("off_balance");
        assert forall|key: Seq<char>, v: AccountAccountType|
            AccountAccountType::spec_from_selection_key(key) == Some(v) <==> key == v.spec_selection_key() by {
            v.lemma_selection_key_roundtrip();
        }
    }
}

/// The group an account belongs to.
#[derive(Debug, Clone, Copy, PartialEq, Eq, Structural, PartialOrd, Ord, Hash)]
pub enum AccountAccountInternalGroup {
    Equity,
    Asset,
    Liability,
    Income,
    Expense,
    Off,
}

impl AccountAccountInternalGroup {
    /// The position of the value in declaration order.
    pub open spec fn spec_position(self) -> int {
        match self {
            AccountAccountInternalGroup::Equity => 0,
            AccountAccountInternalGroup::Asset => 1,
            AccountAccountInternalGroup::Liability => 2,
            AccountAccountInternalGroup::Income => 3,
            AccountAccountInternalGroup::Expense => 4,
            AccountAccountInternalGroup::Off => 5,
        }
    }

    /// The labels that Odoo shows, in declaration order.
    pub open spec fn spec_labels() -> Seq<Seq<char>> {
        seq!["Equity"@, "Asset"@, "Liability"@, "Income"@, "Expense"@, "Off Balance"@]
    }

    /// The label that Odoo shows for the value.
    pub open spec fn spec_display(self) -> Seq<char> {
        AccountAccountInternalGroup::spec_labels()[self.spec_position()]
    }

    /// The key under which Odoo stores the value.
    pub open spec fn spec_selection_key(self) -> Seq<char> {
        match self {
            AccountAccountInternalGroup::Equity => "equity"@,
            AccountAccountInternalGroup::Asset => "asset"@,
            AccountAccountInternalGroup::Liability => "liability"@,
            AccountAccountInternalGroup::Income => "income"@,
            AccountAccountInternalGroup::Expense => "expense"@,
            AccountAccountInternalGroup::Off => "off"@,
        }
    }

    /// The value stored under `key`, if any.
    pub open spec fn spec_from_selection_key(key: Seq<char>) -> Option<AccountAccountInternalGroup> {
        if key == "equity"@ {
            Some(AccountAccountInternalGroup::Equity)
        } else if key == "asset"@ {
            Some(AccountAccountInternalGroup::Asset)
        } else if key == "liability"@ {
            Some(AccountAccountInternalGroup::Liability)
        } else if key == "income"@ {
            Some(AccountAccountInternalGroup::Income)
        } else if key == "expense"@ {
            Some(AccountAccountInternalGroup::Expense)
        } else if key == "off"@ {
            Some(AccountAccountInternalGroup::Off)
        } else {
            None
        }
    }

    /// The position of the value in declaration order.
    fn position(&self) -> (res: usize)
        ensures
            res == self.spec_position(),
            res < 6,
    {
        match self {
            AccountAccountInternalGroup::Equity => 0,
            AccountAccountInternalGroup::Asset => 1,
            AccountAccountInternalGroup::Liability => 2,
            AccountAccountInternalGroup::Income => 3,
            AccountAccountInternalGroup::Expense => 4,
            AccountAccountInternalGroup::Off => 5,
        }
    }

    /// The label that Odoo shows for the value.
    pub fn to_display_string(&self) -> (res: String)
        ensures
            res@ == self.spec_display(),
    {
        let labels: [&str; 6] = ["Equity", "Asset", "Liability", "Income", "Expense", "Off Balance"];
        assert(labels@.map_values(|s: &str| s@) =~= AccountAccountInternalGroup::spec_labels());
        labels[self.position()].to_owned()
    }

    /// The key under which Odoo stores the value.
    pub fn selection_key(&self) -> (res: &'static str)
        ensures
            res@ == self.spec_selection_key(),
    {
        match self {
            AccountAccountInternalGroup::Equity => "equity",
            AccountAccountInternalGroup::Asset => "asset",
            AccountAccountInternalGroup::Liability => "liability",
            AccountAccountInternalGroup::Income => "income",
            AccountAccountInternalGroup::Expense => "expense",
            AccountAccountInternalGroup::Off => "off",
        }
    }

    /// The value stored under `key`, if any.
    pub fn from_selection_key(key: &str) -> (res: Option<AccountAccountInternalGroup>)
        ensures
            res == AccountAccountInternalGroup::spec_from_selection_key(key@),
    {
        if text_is(key, "equity") {
            Some(AccountAccountInternalGroup::Equity)
        } else if text_is(key, "asset") {
            Some(AccountAccountInternalGroup::Asset)
        } else if text_is(key, "liability") {
            Some(AccountAccountInternalGroup::Liability)
        } else if text_is(key, "income") {
            Some(AccountAccountInternalGroup::Income)
        } else if text_is(key, "expense") {
            Some(AccountAccountInternalGroup::Expense)
        } else if text_is(key, "off") {
            Some(AccountAccountInternalGroup::Off)
        } else {
            None
        }
    }

    /// Law: the value stored under a value's key is that value, so
    /// values are written and read back unchanged.
    pub proof fn lemma_selection_key_roundtrip(self)
        ensures
            AccountAccountInternalGroup::spec_from_selection_key(self.spec_selection_key()) == Some(self),
    {
        reveal_strlit("equity");
        reveal_strlit("asset");
        reveal_strlit("liability");
        reveal_strlit("income");
        reveal_strlit("expense");
        reveal_strlit("off");
        assert("equity"@.len() != "asset"@.len());
        assert("equity"@.len() != "liability"@.len());
        assert("equity"@[0] != "income"@[0]);
        assert("equity"@.len() != "expense"@.len());
        assert("equity"@.len() != "off"@.len());
        assert("asset"@.len() != "liability"@.len());
        assert("asset"@.len() != "income"@.len());
        assert("asset"@.len() != "expense"@.len());
        assert("asset"@.len() != "off"@.len());
        assert("liability"@.len() != "income"@.len());
        assert("liability"@.len() != "expense"@.len());
        assert("liability"@.len() != "off"@.len());
        assert("income"@.len() != "expense"@.len());
        assert("income"@.len() != "off"@.len());
        assert("expense"@.len() != "off"@.len());
    }

    /// Law: each value is shown under its Odoo label and stored under its
    /// Odoo key (Equity as "equity", Asset as "asset", Liability as "liability", Income as "income", Expense as "expense", Off as "off"), and a key reads back as exactly the value
    /// stored under it.
    pub proof fn lemma_labels_and_keys()
        ensures
            AccountAccountInternalGroup::Equity.spec_display() == "Equity"@,
            AccountAccountInternalGroup::Equity.spec_selection_key() == "equity"@,
            AccountAccountInternalGroup::Asset.spec_display() == "Asset"@,
            AccountAccountInternalGroup::Asset.spec_selection_key() == "asset"@,
            AccountAccountInternalGroup::Liability.spec_display() == "Liability"@,
            AccountAccountInternalGroup::Liability.spec_selection_key() == "liability"@,
            AccountAccountInternalGroup::Income.spec_display() == "Income"@,
            AccountAccountInternalGroup::Income.spec_selection_key() == "income"@,
            AccountAccountInternalGroup::Expense.spec_display() == "Expense"@,
            AccountAccountInternalGroup::Expense.spec_selection_key() == "expense"@,
            AccountAccountInternalGroup::Off.spec_display() == "Off Balance"@,
            AccountAccountInternalGroup::Off.spec_selection_key() == "off"@,
            forall|key: Seq<char>, v: AccountAccountInternalGroup|
                AccountAccountInternalGroup::spec_from_selection_key(key) == Some(v) <==> key == v.spec_selection_key(),
    {
        reveal_strlit("equity");
        reveal_strlit("asset");
        reveal_strlit("liability");
        reveal_strlit("income");
        reveal_strlit("expense");
        reveal_strlit("off");
        assert forall|key: Seq<char>, v: AccountAccountInternalGroup|
            AccountAccountInternalGroup::spec_from_selection_key(key) == Some(v) <==> key == v.spec_selection_key() by {
            v.lemma_selection_key_roundtrip();
        }
    }
}
} // verus!
