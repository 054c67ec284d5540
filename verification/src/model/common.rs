//! What more than one endpoint speaks of.

use vstd::prelude::*;
use crate::json::quote;
use crate::json::quoted;
use crate::json::read_string;
use crate::json::string_value;
use crate::json::FromJson;
use crate::json::ToJson;
use crate::text::str_eq;

verus! {

/// A Plaid product that an item can be set up for.
#[derive(Debug, Copy, Clone, PartialEq, Eq, Structural)]
pub enum Product {
    Assets,
    Auth,
    Balance,
    BalancePlus,
    Beacon,
    CraBaseReport,
    CraCashflowInsights,
    CraIncomeInsights,
    CraPartnerInsights,
    CreditDetails,
    DepositSwitch,
    Employment,
    Identity,
    IdentityMatch,
    IdentityVerification,
    Income,
    IncomeVerification,
    Investments,
    InvestmentsAuth,
    Layer,
    Liabilities,
    PaymentInitiation,
    ProcessorIdentity,
    ProcessorPayments,
    Profile,
    RecurringTransactions,
    Signal,
    StandingOrders,
    Statements,
    Transactions,
    Transfer,
}

impl Product {
    /// The name of each product on the wire.
    pub open spec fn wire(self) -> Seq<char> {
        match self {
            Product::Assets => "assets"@,
            Product::Auth => "auth"@,
            Product::Balance => "balance"@,
            Product::BalancePlus => "balance_plus"@,
            Product::Beacon => "beacon"@,
            Product::CraBaseReport => "cra_base_report"@,
            Product::CraCashflowInsights => "cra_cashflow_insights"@,
            Product::CraIncomeInsights => "cra_income_insights"@,
            Product::CraPartnerInsights => "cra_partner_insights"@,
            Product::CreditDetails => "credit_details"@,
            Product::DepositSwitch => "deposit_switch"@,
            Product::Employment => "employment"@,
            Product::Identity => "identity"@,
            Product::IdentityMatch => "identity_match"@,
            Product::IdentityVerification => "identity_verification"@,
            Product::Income => "income"@,
            Product::IncomeVerification => "income_verification"@,
            Product::Investments => "investments"@,
            Product::InvestmentsAuth => "investments_auth"@,
            Product::Layer => "layer"@,
            Product::Liabilities => "liabilities"@,
            Product::PaymentInitiation => "payment_initiation"@,
            Product::ProcessorIdentity => "processor_identity"@,
            Product::ProcessorPayments => "processor_payments"@,
            Product::Profile => "profile"@,
            Product::RecurringTransactions => "recurring_transactions"@,
            Product::Signal => "signal"@,
            Product::StandingOrders => "standing_orders"@,
            Product::Statements => "statements"@,
            Product::Transactions => "transactions"@,
            Product::Transfer => "transfer"@,
        }
    }

    /// The product that a wire name stands for, if it stands for one.
    pub open spec fn named(name: Seq<char>) -> Option<Product> {
        if name == "assets"@ {
            Some(Product::Assets)
        }         else if name == "auth"@ {
            Some(Product::Auth)
        }         else if name == "balance"@ {
            Some(Product::Balance)
        }         else if name == "balance_plus"@ {
            Some(Product::BalancePlus)
        }         else if name == "beacon"@ {
            Some(Product::Beacon)
        }         else if name == "cra_base_report"@ {
            Some(Product::CraBaseReport)
        }         else if name == "cra_cashflow_insights"@ {
            Some(Product::CraCashflowInsights)
        }         else if name == "cra_income_insights"@ {
            Some(Product::CraIncomeInsights)
        }         else if name == "cra_partner_insights"@ {
            Some(Product::CraPartnerInsights)
        }         else if name == "credit_details"@ {
            Some(Product::CreditDetails)
        }         else if name == "deposit_switch"@ {
            Some(Product::DepositSwitch)
        }         else if name == "employment"@ {
            Some(Product::Employment)
        }         else if name == "identity"@ {
            Some(Product::Identity)
        }         else if name == "identity_match"@ {
            Some(Product::IdentityMatch)
        }         else if name == "identity_verification"@ {
            Some(Product::IdentityVerification)
        }         else if name == "income"@ {
            Some(Product::Income)
        }         else if name == "income_verification"@ {
            Some(Product::IncomeVerification)
        }         else if name == "investments"@ {
            Some(Product::Investments)
        }         else if name == "investments_auth"@ {
            Some(Product::InvestmentsAuth)
        }         else if name == "layer"@ {
            Some(Product::Layer)
        }         else if name == "liabilities"@ {
            Some(Product::Liabilities)
        }         else if name == "payment_initiation"@ {
            Some(Product::PaymentInitiation)
        }         else if name == "processor_identity"@ {
            Some(Product::ProcessorIdentity)
        }         else if name == "processor_payments"@ {
            Some(Product::ProcessorPayments)
        }         else if name == "profile"@ {
            Some(Product::Profile)
        }         else if name == "recurring_transactions"@ {
            Some(Product::RecurringTransactions)
        }         else if name == "signal"@ {
            Some(Product::Signal)
        }         else if name == "standing_orders"@ {
            Some(Product::StandingOrders)
        }         else if name == "statements"@ {
            Some(Product::Statements)
        }         else if name == "transactions"@ {
            Some(Product::Transactions)
        }         else if name == "transfer"@ {
            Some(Product::Transfer)
        } else {
            None
        }
    }

    pub fn wire_name(&self) -> (name: &'static str)
        ensures
            name@ == self.wire(),
    {
        match self {
            Product::Assets => "assets",
            Product::Auth => "auth",
            Product::Balance => "balance",
            Product::BalancePlus => "balance_plus",
            Product::Beacon => "beacon",
            Product::CraBaseReport => "cra_base_report",
            Product::CraCashflowInsights => "cra_cashflow_insights",
            Product::CraIncomeInsights => "cra_income_insights",
            Product::CraPartnerInsights => "cra_partner_insights",
            Product::CreditDetails => "credit_details",
            Product::DepositSwitch => "deposit_switch",
            Product::Employment => "employment",
            Product::Identity => "identity",
            Product::IdentityMatch => "identity_match",
            Product::IdentityVerification => "identity_verification",
            Product::Income => "income",
            Product::IncomeVerification => "income_verification",
            Product::Investments => "investments",
            Product::InvestmentsAuth => "investments_auth",
            Product::Layer => "layer",
            Product::Liabilities => "liabilities",
            Product::PaymentInitiation => "payment_initiation",
            Product::ProcessorIdentity => "processor_identity",
            Product::ProcessorPayments => "processor_payments",
            Product::Profile => "profile",
            Product::RecurringTransactions => "recurring_transactions",
            Product::Signal => "signal",
            Product::StandingOrders => "standing_orders",
            Product::Statements => "statements",
            Product::Transactions => "transactions",
            Product::Transfer => "transfer",
        }
    }

    pub fn from_wire_name(name: &str) -> (found: Option<Product>)
        ensures
            found == Product::named(name@),
    {
        if str_eq(name, "assets") {
            return Some(Product::Assets);
        }
        if str_eq(name, "auth") {
            return Some(Product::Auth);
        }
        if str_eq(name, "balance") {
            return Some(Product::Balance);
        }
        if str_eq(name, "balance_plus") {
            return Some(Product::BalancePlus);
        }
        if str_eq(name, "beacon") {
            return Some(Product::Beacon);
        }
        if str_eq(name, "cra_base_report") {
            return Some(Product::CraBaseReport);
        }
        if str_eq(name, "cra_cashflow_insights") {
            return Some(Product::CraCashflowInsights);
        }
        if str_eq(name, "cra_income_insights") {
            return Some(Product::CraIncomeInsights);
        }
        if str_eq(name, "cra_partner_insights") {
            return Some(Product::CraPartnerInsights);
        }
        if str_eq(name, "credit_details") {
            return Some(Product::CreditDetails);
        }
        if str_eq(name, "deposit_switch") {
            return Some(Product::DepositSwitch);
        }
        if str_eq(name, "employment") {
            return Some(Product::Employment);
        }
        if str_eq(name, "identity") {
            return Some(Product::Identity);
        }
        if str_eq(name, "identity_match") {
            return Some(Product::IdentityMatch);
        }
        if str_eq(name, "identity_verification") {
            return Some(Product::IdentityVerification);
        }
        if str_eq(name, "income") {
            return Some(Product::Income);
        }
        if str_eq(name, "income_verification") {
            return Some(Product::IncomeVerification);
        }
        if str_eq(name, "investments") {
            return Some(Product::Investments);
        }
        if str_eq(name, "investments_auth") {
            return Some(Product::InvestmentsAuth);
        }
        if str_eq(name, "layer") {
            return Some(Product::Layer);
        }
        if str_eq(name, "liabilities") {
            return Some(Product::Liabilities);
        }
        if str_eq(name, "payment_initiation") {
            return Some(Product::PaymentInitiation);
        }
        if str_eq(name, "processor_identity") {
            return Some(Product::ProcessorIdentity);
        }
        if str_eq(name, "processor_payments") {
            return Some(Product::ProcessorPayments);
        }
        if str_eq(name, "profile") {
            return Some(Product::Profile);
        }
        if str_eq(name, "recurring_transactions") {
            return Some(Product::RecurringTransactions);
        }
        if str_eq(name, "signal") {
            return Some(Product::Signal);
        }
        if str_eq(name, "standing_orders") {
            return Some(Product::StandingOrders);
        }
        if str_eq(name, "statements") {
            return Some(Product::Statements);
        }
        if str_eq(name, "transactions") {
            return Some(Product::Transactions);
        }
        if str_eq(name, "transfer") {
            return Some(Product::Transfer);
        }
        None
    }

    /// A name that stands for a product is the name that
    /// it is written as.
    pub proof fn lemma_named_is_wire(name: Seq<char>)
        ensures
            Product::named(name) matches Some(found) ==> found.wire() == name,
    {
    }

    /// Every product is found again by the name it is
    /// written as: no two of them share a name.
    pub proof fn lemma_wire_is_named(self)
        ensures
            Product::named(self.wire()) == Some(self),
    {
        // Each name has a length of its own, or differs from the other names of its
        // length in the places shown.
        reveal_strlit("assets");
        assert("assets"@.len() == 6 && "assets"@[0] == 'a');
        reveal_strlit("auth");
        assert("auth"@.len() == 4);
        reveal_strlit("balance");
        assert("balance"@.len() == 7 && "balance"@[0] == 'b');
        reveal_strlit("balance_plus");
        assert("balance_plus"@.len() == 12 && "balance_plus"@[0] == 'b');
        reveal_strlit("beacon");
        assert("beacon"@.len() == 6 && "beacon"@[0] == 'b');
        reveal_strlit("cra_base_report");
        assert("cra_base_report"@.len() == 15 && "cra_base_report"@[0] == 'c');
        reveal_strlit("cra_cashflow_insights");
        assert("cra_cashflow_insights"@.len() == 21 && "cra_cashflow_insights"@[0] == 'c');
        reveal_strlit("cra_income_insights");
        assert("cra_income_insights"@.len() == 19 && "cra_income_insights"@[0] == 'c');
        reveal_strlit("cra_partner_insights");
        assert("cra_partner_insights"@.len() == 20);
        reveal_strlit("credit_details");
        assert("credit_details"@.len() == 14 && "credit_details"@[0] == 'c');
        reveal_strlit("deposit_switch");
        assert("deposit_switch"@.len() == 14 && "deposit_switch"@[0] == 'd');
        reveal_strlit("employment");
        assert("employment"@.len() == 10 && "employment"@[0] == 'e');
        reveal_strlit("identity");
        assert("identity"@.len() == 8 && "identity"@[0] == 'i');
        reveal_strlit("identity_match");
        assert("identity_match"@.len() == 14 && "identity_match"@[0] == 'i');
        reveal_strlit("identity_verification");
        assert("identity_verification"@.len() == 21 && "identity_verification"@[0] == 'i');
        reveal_strlit("income");
        assert("income"@.len() == 6 && "income"@[0] == 'i');
        reveal_strlit("income_verification");
        assert("income_verification"@.len() == 19 && "income_verification"@[0] == 'i');
        reveal_strlit("investments");
        assert("investments"@.len() == 11 && "investments"@[0] == 'i');
        reveal_strlit("investments_auth");
        assert("investments_auth"@.len() == 16);
        reveal_strlit("layer");
        assert("layer"@.len() == 5);
        reveal_strlit("liabilities");
        assert("liabilities"@.len() == 11 && "liabilities"@[0] == 'l');
        reveal_strlit("payment_initiation");
        assert("payment_initiation"@.len() == 18 && "payment_initiation"@[11] == 't');
        reveal_strlit("processor_identity");
        assert("processor_identity"@.len() == 18 && "processor_identity"@[11] == 'd');
        reveal_strlit("processor_payments");
        assert("processor_payments"@.len() == 18 && "processor_payments"@[11] == 'a');
        reveal_strlit("profile");
        assert("profile"@.len() == 7 && "profile"@[0] == 'p');
        reveal_strlit("recurring_transactions");
        assert("recurring_transactions"@.len() == 22);
        reveal_strlit("signal");
        assert("signal"@.len() == 6 && "signal"@[0] == 's');
        reveal_strlit("standing_orders");
        assert("standing_orders"@.len() == 15 && "standing_orders"@[0] == 's');
        reveal_strlit("statements");
        assert("statements"@.len() == 10 && "statements"@[0] == 's');
        reveal_strlit("transactions");
        assert("transactions"@.len() == 12 && "transactions"@[0] == 't');
        reveal_strlit("transfer");
        assert("transfer"@.len() == 8 && "transfer"@[0] == 't');
    }
}

impl ToJson for Product {
    open spec fn json(&self) -> Option<Seq<char>> {
        quoted(self.wire())
    }

    fn to_json(&self) -> (text: Option<String>) {
        quote(self.wire_name())
    }
}

impl FromJson for Product {
    open spec fn decodable(text: Seq<char>) -> bool {
        &&& string_value(text) matches Some(name)
        &&& Product::named(name) is Some
    }

    open spec fn decodes(text: Seq<char>, value: Product) -> bool {
        &&& string_value(text) matches Some(name)
        &&& Product::named(name) == Some(value)
    }

    fn from_json(text: &str) -> (value: Option<Product>) {
        match read_string(text) {
            Some(name) => Product::from_wire_name(name.as_str()),
            None => None,
        }
    }
}

} // verus!
