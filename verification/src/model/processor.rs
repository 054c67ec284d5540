//! Handing an account on to a payment processor.

use vstd::prelude::*;
use crate::json::finished;
use crate::json::has_required;
use crate::json::object_members;
use crate::json::quote;
use crate::json::quoted;
use crate::json::read_string;
use crate::json::required_is;
use crate::json::string_value;
use crate::json::with_member;
use crate::json::FromJson;
use crate::json::JsonObject;
use crate::json::ObjectWriter;
use crate::json::ToJson;
use crate::text::str_eq;

verus! {

/// A payment processor that Plaid can issue a token for.
#[derive(Debug, Copy, Clone, PartialEq, Eq, Structural)]
pub enum Processor {
    Dwolla,
    Galileo,
    ModernTreasury,
    Ocrolus,
    Vesta,
    Drivewealth,
    Vopay,
    Achq,
    Check,
    Checkbook,
    Circle,
    SilaMoney,
    Rize,
    SvbApi,
    Unit,
    Wyre,
    Lithic,
    Alpaca,
    Astra,
    Moov,
    TreasuryPrime,
    Marqeta,
    Checkout,
    Solid,
    Highnote,
    Gemini,
    ApexClearing,
    Gusto,
    Adyen,
    Atomic,
    I2c,
    Wepay,
    Riskified,
    Utb,
    AdpRoll,
    FortressTrust,
    Bond,
    Bakkt,
    Teal,
    ZeroHash,
    TabaPay,
    Knot,
    Sardine,
    Alloy,
    Finix,
    Nuvei,
    Layer,
    Boom,
    Paynote,
    Stake,
}

impl Processor {
    /// The name of each processor on the wire.
    pub open spec fn wire(self) -> Seq<char> {
        match self {
            Processor::Dwolla => "dwolla"@,
            Processor::Galileo => "galileo"@,
            Processor::ModernTreasury => "modern_treasury"@,
            Processor::Ocrolus => "ocrolus"@,
            Processor::Vesta => "vesta"@,
            Processor::Drivewealth => "drivewealth"@,
            Processor::Vopay => "vopay"@,
            Processor::Achq => "achq"@,
            Processor::Check => "check"@,
            Processor::Checkbook => "checkbook"@,
            Processor::Circle => "circle"@,
            Processor::SilaMoney => "sila_money"@,
            Processor::Rize => "rize"@,
            Processor::SvbApi => "svb_api"@,
            Processor::Unit => "unit"@,
            Processor::Wyre => "wyre"@,
            Processor::Lithic => "lithic"@,
            Processor::Alpaca => "alpaca"@,
            Processor::Astra => "astra"@,
            Processor::Moov => "moov"@,
            Processor::TreasuryPrime => "treasury_prime"@,
            Processor::Marqeta => "marqeta"@,
            Processor::Checkout => "checkout"@,
            Processor::Solid => "solid"@,
            Processor::Highnote => "highnote"@,
            Processor::Gemini => "gemini"@,
            Processor::ApexClearing => "apex_clearing"@,
            Processor::Gusto => "gusto"@,
            Processor::Adyen => "adyen"@,
            Processor::Atomic => "atomic"@,
            Processor::I2c => "i2c"@,
            Processor::Wepay => "wepay"@,
            Processor::Riskified => "riskified"@,
            Processor::Utb => "utb"@,
            Processor::AdpRoll => "adp_roll"@,
            Processor::FortressTrust => "fortress_trust"@,
            Processor::Bond => "bond"@,
            Processor::Bakkt => "bakkt"@,
            Processor::Teal => "teal"@,
            Processor::ZeroHash => "zero_hash"@,
            Processor::TabaPay => "taba_pay"@,
            Processor::Knot => "knot"@,
            Processor::Sardine => "sardine"@,
            Processor::Alloy => "alloy"@,
            Processor::Finix => "finix"@,
            Processor::Nuvei => "nuvei"@,
            Processor::Layer => "layer"@,
            Processor::Boom => "boom"@,
            Processor::Paynote => "paynote"@,
            Processor::Stake => "stake"@,
        }
    }

    /// The processor that a wire name stands for, if it stands for one.
    pub open spec fn named(name: Seq<char>) -> Option<Processor> {
        if name == "dwolla"@ {
            Some(Processor::Dwolla)
        }         else if name == "galileo"@ {
            Some(Processor::Galileo)
        }         else if name == "modern_treasury"@ {
            Some(Processor::ModernTreasury)
        }         else if name == "ocrolus"@ {
            Some(Processor::Ocrolus)
        }         else if name == "vesta"@ {
            Some(Processor::Vesta)
        }         else if name == "drivewealth"@ {
            Some(Processor::Drivewealth)
        }         else if name == "vopay"@ {
            Some(Processor::Vopay)
        }         else if name == "achq"@ {
            Some(Processor::Achq)
        }         else if name == "check"@ {
            Some(Processor::Check)
        }         else if name == "checkbook"@ {
            Some(Processor::Checkbook)
        }         else if name == "circle"@ {
            Some(Processor::Circle)
        }         else if name == "sila_money"@ {
            Some(Processor::SilaMoney)
        }         else if name == "rize"@ {
            Some(Processor::Rize)
        }         else if name == "svb_api"@ {
            Some(Processor::SvbApi)
        }         else if name == "unit"@ {
            Some(Processor::Unit)
        }         else if name == "wyre"@ {
            Some(Processor::Wyre)
        }         else if name == "lithic"@ {
            Some(Processor::Lithic)
        }         else if name == "alpaca"@ {
            Some(Processor::Alpaca)
        }         else if name == "astra"@ {
            Some(Processor::Astra)
        }         else if name == "moov"@ {
            Some(Processor::Moov)
        }         else if name == "treasury_prime"@ {
            Some(Processor::TreasuryPrime)
        }         else if name == "marqeta"@ {
            Some(Processor::Marqeta)
        }         else if name == "checkout"@ {
            Some(Processor::Checkout)
        }         else if name == "solid"@ {
            Some(Processor::Solid)
        }         else if name == "highnote"@ {
            Some(Processor::Highnote)
        }         else if name == "gemini"@ {
            Some(Processor::Gemini)
        }         else if name == "apex_clearing"@ {
            Some(Processor::ApexClearing)
        }         else if name == "gusto"@ {
            Some(Processor::Gusto)
        }         else if name == "adyen"@ {
            Some(Processor::Adyen)
        }         else if name == "atomic"@ {
            Some(Processor::Atomic)
        }         else if name == "i2c"@ {
            Some(Processor::I2c)
        }         else if name == "wepay"@ {
            Some(Processor::Wepay)
        }         else if name == "riskified"@ {
            Some(Processor::Riskified)
        }         else if name == "utb"@ {
            Some(Processor::Utb)
        }         else if name == "adp_roll"@ {
            Some(Processor::AdpRoll)
        }         else if name == "fortress_trust"@ {
            Some(Processor::FortressTrust)
        }         else if name == "bond"@ {
            Some(Processor::Bond)
        }         else if name == "bakkt"@ {
            Some(Processor::Bakkt)
        }         else if name == "teal"@ {
            Some(Processor::Teal)
        }         else if name == "zero_hash"@ {
            Some(Processor::ZeroHash)
        }         else if name == "taba_pay"@ {
            Some(Processor::TabaPay)
        }         else if name == "knot"@ {
            Some(Processor::Knot)
        }         else if name == "sardine"@ {
            Some(Processor::Sardine)
        }         else if name == "alloy"@ {
            Some(Processor::Alloy)
        }         else if name == "finix"@ {
            Some(Processor::Finix)
        }         else if name == "nuvei"@ {
            Some(Processor::Nuvei)
        }         else if name == "layer"@ {
            Some(Processor::Layer)
        }         else if name == "boom"@ {
            Some(Processor::Boom)
        }         else if name == "paynote"@ {
            Some(Processor::Paynote)
        }         else if name == "stake"@ {
            Some(Processor::Stake)
        } else {
            None
        }
    }

    pub fn wire_name(&self) -> (name: &'static str)
        ensures
            name@ == self.wire(),
    {
        match self {
            Processor::Dwolla => "dwolla",
            Processor::Galileo => "galileo",
            Processor::ModernTreasury => "modern_treasury",
            Processor::Ocrolus => "ocrolus",
            Processor::Vesta => "vesta",
            Processor::Drivewealth => "drivewealth",
            Processor::Vopay => "vopay",
            Processor::Achq => "achq",
            Processor::Check => "check",
            Processor::Checkbook => "checkbook",
            Processor::Circle => "circle",
            Processor::SilaMoney => "sila_money",
            Processor::Rize => "rize",
            Processor::SvbApi => "svb_api",
            Processor::Unit => "unit",
            Processor::Wyre => "wyre",
            Processor::Lithic => "lithic",
            Processor::Alpaca => "alpaca",
            Processor::Astra => "astra",
            Processor::Moov => "moov",
            Processor::TreasuryPrime => "treasury_prime",
            Processor::Marqeta => "marqeta",
            Processor::Checkout => "checkout",
            Processor::Solid => "solid",
            Processor::Highnote => "highnote",
            Processor::Gemini => "gemini",
            Processor::ApexClearing => "apex_clearing",
            Processor::Gusto => "gusto",
            Processor::Adyen => "adyen",
            Processor::Atomic => "atomic",
            Processor::I2c => "i2c",
            Processor::Wepay => "wepay",
            Processor::Riskified => "riskified",
            Processor::Utb => "utb",
            Processor::AdpRoll => "adp_roll",
            Processor::FortressTrust => "fortress_trust",
            Processor::Bond => "bond",
            Processor::Bakkt => "bakkt",
            Processor::Teal => "teal",
            Processor::ZeroHash => "zero_hash",
            Processor::TabaPay => "taba_pay",
            Processor::Knot => "knot",
            Processor::Sardine => "sardine",
            Processor::Alloy => "alloy",
            Processor::Finix => "finix",
            Processor::Nuvei => "nuvei",
            Processor::Layer => "layer",
            Processor::Boom => "boom",
            Processor::Paynote => "paynote",
            Processor::Stake => "stake",
        }
    }

    pub fn from_wire_name(name: &str) -> (found: Option<Processor>)
        ensures
            found == Processor::named(name@),
    {
        if str_eq(name, "dwolla") {
            return Some(Processor::Dwolla);
        }
        if str_eq(name, "galileo") {
            return Some(Processor::Galileo);
        }
        if str_eq(name, "modern_treasury") {
            return Some(Processor::ModernTreasury);
        }
        if str_eq(name, "ocrolus") {
            return Some(Processor::Ocrolus);
        }
        if str_eq(name, "vesta") {
            return Some(Processor::Vesta);
        }
        if str_eq(name, "drivewealth") {
            return Some(Processor::Drivewealth);
        }
        if str_eq(name, "vopay") {
            return Some(Processor::Vopay);
        }
        if str_eq(name, "achq") {
            return Some(Processor::Achq);
        }
        if str_eq(name, "check") {
            return Some(Processor::Check);
        }
        if str_eq(name, "checkbook") {
            return Some(Processor::Checkbook);
        }
        if str_eq(name, "circle") {
            return Some(Processor::Circle);
        }
        if str_eq(name, "sila_money") {
            return Some(Processor::SilaMoney);
        }
        if str_eq(name, "rize") {
            return Some(Processor::Rize);
        }
        if str_eq(name, "svb_api") {
            return Some(Processor::SvbApi);
        }
        if str_eq(name, "unit") {
            return Some(Processor::Unit);
        }
        if str_eq(name, "wyre") {
            return Some(Processor::Wyre);
        }
        if str_eq(name, "lithic") {
            return Some(Processor::Lithic);
        }
        if str_eq(name, "alpaca") {
            return Some(Processor::Alpaca);
        }
        if str_eq(name, "astra") {
            return Some(Processor::Astra);
        }
        if str_eq(name, "moov") {
            return Some(Processor::Moov);
        }
        if str_eq(name, "treasury_prime") {
            return Some(Processor::TreasuryPrime);
        }
        if str_eq(name, "marqeta") {
            return Some(Processor::Marqeta);
        }
        if str_eq(name, "checkout") {
            return Some(Processor::Checkout);
        }
        if str_eq(name, "solid") {
            return Some(Processor::Solid);
        }
        if str_eq(name, "highnote") {
            return Some(Processor::Highnote);
        }
        if str_eq(name, "gemini") {
            return Some(Processor::Gemini);
        }
        if str_eq(name, "apex_clearing") {
            return Some(Processor::ApexClearing);
        }
        if str_eq(name, "gusto") {
            return Some(Processor::Gusto);
        }
        if str_eq(name, "adyen") {
            return Some(Processor::Adyen);
        }
        if str_eq(name, "atomic") {
            return Some(Processor::Atomic);
        }
        if str_eq(name, "i2c") {
            return Some(Processor::I2c);
        }
        if str_eq(name, "wepay") {
            return Some(Processor::Wepay);
        }
        if str_eq(name, "riskified") {
            return Some(Processor::Riskified);
        }
        if str_eq(name, "utb") {
            return Some(Processor::Utb);
        }
        if str_eq(name, "adp_roll") {
            return Some(Processor::AdpRoll);
        }
        if str_eq(name, "fortress_trust") {
            return Some(Processor::FortressTrust);
        }
        if str_eq(name, "bond") {
            return Some(Processor::Bond);
        }
        if str_eq(name, "bakkt") {
            return Some(Processor::Bakkt);
        }
        if str_eq(name, "teal") {
            return Some(Processor::Teal);
        }
        if str_eq(name, "zero_hash") {
            return Some(Processor::ZeroHash);
        }
        if str_eq(name, "taba_pay") {
            return Some(Processor::TabaPay);
        }
        if str_eq(name, "knot") {
            return Some(Processor::Knot);
        }
        if str_eq(name, "sardine") {
            return Some(Processor::Sardine);
        }
        if str_eq(name, "alloy") {
            return Some(Processor::Alloy);
        }
        if str_eq(name, "finix") {
            return Some(Processor::Finix);
        }
        if str_eq(name, "nuvei") {
            return Some(Processor::Nuvei);
        }
        if str_eq(name, "layer") {
            return Some(Processor::Layer);
        }
        if str_eq(name, "boom") {
            return Some(Processor::Boom);
        }
        if str_eq(name, "paynote") {
            return Some(Processor::Paynote);
        }
        if str_eq(name, "stake") {
            return Some(Processor::Stake);
        }
        None
    }

    /// A name that stands for a processor is the name that
    /// it is written as.
    pub proof fn lemma_named_is_wire(name: Seq<char>)
        ensures
            Processor::named(name) matches Some(found) ==> found.wire() == name,
    {
    }

    /// Every processor is found again by the name it is
    /// written as: no two of them share a name.
    pub proof fn lemma_wire_is_named(self)
        ensures
            Processor::named(self.wire()) == Some(self),
    {
        // Each name has a length of its own, or differs from the other names of its
        // length in the places shown.
        reveal_strlit("dwolla");
        assert("dwolla"@.len() == 6 && "dwolla"@[3] == 'l');
        reveal_strlit("galileo");
        assert("galileo"@.len() == 7 && "galileo"@[3] == 'i');
        reveal_strlit("modern_treasury");
        assert("modern_treasury"@.len() == 15);
        reveal_strlit("ocrolus");
        assert("ocrolus"@.len() == 7 && "ocrolus"@[3] == 'o');
        reveal_strlit("vesta");
        assert("vesta"@.len() == 5 && "vesta"@[0] == 'v' && "vesta"@[4] == 'a');
        reveal_strlit("drivewealth");
        assert("drivewealth"@.len() == 11);
        reveal_strlit("vopay");
        assert("vopay"@.len() == 5 && "vopay"@[0] == 'v' && "vopay"@[4] == 'y');
        reveal_strlit("achq");
        assert("achq"@.len() == 4 && "achq"@[0] == 'a' && "achq"@[2] == 'h');
        reveal_strlit("check");
        assert("check"@.len() == 5 && "check"@[0] == 'c' && "check"@[4] == 'k');
        reveal_strlit("checkbook");
        assert("checkbook"@.len() == 9 && "checkbook"@[0] == 'c');
        reveal_strlit("circle");
        assert("circle"@.len() == 6 && "circle"@[3] == 'c');
        reveal_strlit("sila_money");
        assert("sila_money"@.len() == 10);
        reveal_strlit("rize");
        assert("rize"@.len() == 4 && "rize"@[0] == 'r' && "rize"@[2] == 'z');
        reveal_strlit("svb_api");
        assert("svb_api"@.len() == 7 && "svb_api"@[3] == '_');
        reveal_strlit("unit");
        assert("unit"@.len() == 4 && "unit"@[0] == 'u' && "unit"@[2] == 'i');
        reveal_strlit("wyre");
        assert("wyre"@.len() == 4 && "wyre"@[0] == 'w' && "wyre"@[2] == 'r');
        reveal_strlit("lithic");
        assert("lithic"@.len() == 6 && "lithic"@[3] == 'h');
        reveal_strlit("alpaca");
        assert("alpaca"@.len() == 6 && "alpaca"@[3] == 'a');
        reveal_strlit("astra");
        assert("astra"@.len() == 5 && "astra"@[0] == 'a' && "astra"@[4] == 'a');
        reveal_strlit("moov");
        assert("moov"@.len() == 4 && "moov"@[0] == 'm' && "moov"@[2] == 'o');
        reveal_strlit("treasury_prime");
        assert("treasury_prime"@.len() == 14 && "treasury_prime"@[0] == 't');
        reveal_strlit("marqeta");
        assert("marqeta"@.len() == 7 && "marqeta"@[3] == 'q');
        reveal_strlit("checkout");
        assert("checkout"@.len() == 8 && "checkout"@[0] == 'c');
        reveal_strlit("solid");
        assert("solid"@.len() == 5 && "solid"@[0] == 's' && "solid"@[4] == 'd');
        reveal_strlit("highnote");
        assert("highnote"@.len() == 8 && "highnote"@[0] == 'h');
        reveal_strlit("gemini");
        assert("gemini"@.len() == 6 && "gemini"@[3] == 'i');
        reveal_strlit("apex_clearing");
        assert("apex_clearing"@.len() == 13);
        reveal_strlit("gusto");
        assert("gusto"@.len() == 5 && "gusto"@[0] == 'g' && "gusto"@[4] == 'o');
        reveal_strlit("adyen");
        assert("adyen"@.len() == 5 && "adyen"@[0] == 'a' && "adyen"@[4] == 'n');
        reveal_strlit("atomic");
        assert("atomic"@.len() == 6 && "atomic"@[3] == 'm');
        reveal_strlit("i2c");
        assert("i2c"@.len() == 3 && "i2c"@[0] == 'i');
        reveal_strlit("wepay");
        assert("wepay"@.len() == 5 && "wepay"@[0] == 'w' && "wepay"@[4] == 'y');
        reveal_strlit("riskified");
        assert("riskified"@.len() == 9 && "riskified"@[0] == 'r');
        reveal_strlit("utb");
        assert("utb"@.len() == 3 && "utb"@[0] == 'u');
        reveal_strlit("adp_roll");
        assert("adp_roll"@.len() == 8 && "adp_roll"@[0] == 'a');
        reveal_strlit("fortress_trust");
        assert("fortress_trust"@.len() == 14 && "fortress_trust"@[0] == 'f');
        reveal_strlit("bond");
        assert("bond"@.len() == 4 && "bond"@[0] == 'b' && "bond"@[2] == 'n');
        reveal_strlit("bakkt");
        assert("bakkt"@.len() == 5 && "bakkt"@[0] == 'b' && "bakkt"@[4] == 't');
        reveal_strlit("teal");
        assert("teal"@.len() == 4 && "teal"@[0] == 't' && "teal"@[2] == 'a');
        reveal_strlit("zero_hash");
        assert("zero_hash"@.len() == 9 && "zero_hash"@[0] == 'z');
        reveal_strlit("taba_pay");
        assert("taba_pay"@.len() == 8 && "taba_pay"@[0] == 't');
        reveal_strlit("knot");
        assert("knot"@.len() == 4 && "knot"@[0] == 'k' && "knot"@[2] == 'o');
        reveal_strlit("sardine");
        assert("sardine"@.len() == 7 && "sardine"@[3] == 'd');
        reveal_strlit("alloy");
        assert("alloy"@.len() == 5 && "alloy"@[0] == 'a' && "alloy"@[4] == 'y');
        reveal_strlit("finix");
        assert("finix"@.len() == 5 && "finix"@[0] == 'f' && "finix"@[4] == 'x');
        reveal_strlit("nuvei");
        assert("nuvei"@.len() == 5 && "nuvei"@[0] == 'n' && "nuvei"@[4] == 'i');
        reveal_strlit("layer");
        assert("layer"@.len() == 5 && "layer"@[0] == 'l' && "layer"@[4] == 'r');
        reveal_strlit("boom");
        assert("boom"@.len() == 4 && "boom"@[0] == 'b' && "boom"@[2] == 'o');
        reveal_strlit("paynote");
        assert("paynote"@.len() == 7 && "paynote"@[3] == 'n');
        reveal_strlit("stake");
        assert("stake"@.len() == 5 && "stake"@[0] == 's' && "stake"@[4] == 'e');
    }
}

impl ToJson for Processor {
    open spec fn json(&self) -> Option<Seq<char>> {
        quoted(self.wire())
    }

    fn to_json(&self) -> (text: Option<String>) {
        quote(self.wire_name())
    }
}

impl FromJson for Processor {
    open spec fn decodable(text: Seq<char>) -> bool {
        &&& string_value(text) matches Some(name)
        &&& Processor::named(name) is Some
    }

    open spec fn decodes(text: Seq<char>, value: Processor) -> bool {
        &&& string_value(text) matches Some(name)
        &&& Processor::named(name) == Some(value)
    }

    fn from_json(text: &str) -> (value: Option<Processor>) {
        match read_string(text) {
            Some(name) => Processor::from_wire_name(name.as_str()),
            None => None,
        }
    }
}

/// What is sent to have a processor token issued for one account.
#[derive(Debug, Clone, PartialEq, Eq)]
pub struct ProcessorTokenCreateRequest {
    pub client_id: String,
    pub secret: String,
    pub access_token: String,
    pub account_id: String,
    pub processor: Processor,
}

impl ToJson for ProcessorTokenCreateRequest {
    open spec fn json(&self) -> Option<Seq<char>> {
        let members = Some(Seq::<(Seq<char>, Seq<char>)>::empty());
        let members = with_member(members, "client_id"@, self.client_id.json());
        let members = with_member(members, "secret"@, self.secret.json());
        let members = with_member(members, "access_token"@, self.access_token.json());
        let members = with_member(members, "account_id"@, self.account_id.json());
        let members = with_member(members, "processor"@, self.processor.json());
        finished(members)
    }

    fn to_json(&self) -> (text: Option<String>) {
        let writer = ObjectWriter::new();
        let writer = writer.field("client_id", &self.client_id);
        let writer = writer.field("secret", &self.secret);
        let writer = writer.field("access_token", &self.access_token);
        let writer = writer.field("account_id", &self.account_id);
        let writer = writer.field("processor", &self.processor);
        writer.finish()
    }
}

/// What Plaid answers: the token to hand to the processor.
#[derive(Debug, Clone, PartialEq, Eq)]
pub struct ProcessorTokenCreateResponse {
    pub processor_token: String,
    pub request_id: String,
}

impl ToJson for ProcessorTokenCreateResponse {
    open spec fn json(&self) -> Option<Seq<char>> {
        let members = Some(Seq::<(Seq<char>, Seq<char>)>::empty());
        let members = with_member(members, "processor_token"@, self.processor_token.json());
        let members = with_member(members, "request_id"@, self.request_id.json());
        finished(members)
    }

    fn to_json(&self) -> (text: Option<String>) {
        let writer = ObjectWriter::new();
        let writer = writer.field("processor_token", &self.processor_token);
        let writer = writer.field("request_id", &self.request_id);
        writer.finish()
    }
}

impl FromJson for ProcessorTokenCreateResponse {
    open spec fn decodable(text: Seq<char>) -> bool {
        &&& object_members(text) matches Some(members)
        &&& has_required::<String>(members, "processor_token"@)
        &&& has_required::<String>(members, "request_id"@)
    }

    open spec fn decodes(text: Seq<char>, value: ProcessorTokenCreateResponse) -> bool {
        &&& object_members(text) matches Some(members)
        &&& required_is::<String>(members, "processor_token"@, value.processor_token)
        &&& required_is::<String>(members, "request_id"@, value.request_id)
    }

    fn from_json(text: &str) -> (value: Option<ProcessorTokenCreateResponse>) {
        let object = JsonObject::parse(text)?;
        let processor_token = object.required::<String>("processor_token")?;
        let request_id = object.required::<String>("request_id")?;
        Some(ProcessorTokenCreateResponse { processor_token, request_id })
    }
}

/// What is sent to have a Stripe bank account token issued for one account.
#[derive(Debug, Clone, PartialEq, Eq)]
pub struct ProcessorStripeBankAccountTokenCreateRequest {
    pub client_id: String,
    pub secret: String,
    pub access_token: String,
    pub account_id: String,
}

impl ToJson for ProcessorStripeBankAccountTokenCreateRequest {
    open spec fn json(&self) -> Option<Seq<char>> {
        let members = Some(Seq::<(Seq<char>, Seq<char>)>::empty());
        let members = with_member(members, "client_id"@, self.client_id.json());
        let members = with_member(members, "secret"@, self.secret.json());
        let members = with_member(members, "access_token"@, self.access_token.json());
        let members = with_member(members, "account_id"@, self.account_id.json());
        finished(members)
    }

    fn to_json(&self) -> (text: Option<String>) {
        let writer = ObjectWriter::new();
        let writer = writer.field("client_id", &self.client_id);
        let writer = writer.field("secret", &self.secret);
        let writer = writer.field("access_token", &self.access_token);
        let writer = writer.field("account_id", &self.account_id);
        writer.finish()
    }
}

/// What Plaid answers: the token to hand to Stripe.
#[derive(Debug, Clone, PartialEq, Eq)]
pub struct ProcessorStripeBankAccountTokenCreateResponse {
    pub stripe_bank_account_account_token: String,
    pub request_id: String,
}

impl ToJson for ProcessorStripeBankAccountTokenCreateResponse {
    open spec fn json(&self) -> Option<Seq<char>> {
        let members = Some(Seq::<(Seq<char>, Seq<char>)>::empty());
        let members = with_member(
            members,
            "stripe_bank_account_account_token"@,
            self.stripe_bank_account_account_token.json(),
        );
        let members = with_member(members, "request_id"@, self.request_id.json());
        finished(members)
    }

    fn to_json(&self) -> (text: Option<String>) {
        let writer = ObjectWriter::new();
        let writer = writer
            .field("stripe_bank_account_account_token", &self.stripe_bank_account_account_token);
        let writer = writer.field("request_id", &self.request_id);
        writer.finish()
    }
}

impl FromJson for ProcessorStripeBankAccountTokenCreateResponse {
    open spec fn decodable(text: Seq<char>) -> bool {
        &&& object_members(text) matches Some(members)
        &&& has_required::<String>(members, "stripe_bank_account_account_token"@)
        &&& has_required::<String>(members, "request_id"@)
    }

    open spec fn decodes(
        text: Seq<char>,
        value: ProcessorStripeBankAccountTokenCreateResponse,
    ) -> bool {
        &&& object_members(text) matches Some(members)
        &&& required_is::<String>(
            members,
            "stripe_bank_account_account_token"@,
            value.stripe_bank_account_account_token,
        )
        &&& required_is::<String>(members, "request_id"@, value.request_id)
    }

    fn from_json(text: &str) -> (value: Option<ProcessorStripeBankAccountTokenCreateResponse>) {
        let object = JsonObject::parse(text)?;
        let stripe_bank_account_account_token = object
            .required::<String>("stripe_bank_account_account_token")?;
        let request_id = object.required::<String>("request_id")?;
        Some(
            ProcessorStripeBankAccountTokenCreateResponse {
                stripe_bank_account_account_token,
                request_id,
            },
        )
    }
}

} // verus!
