//! The decisions of a small backend that stands between an app and Plaid:
//! which request an input asks for, what is written to the store once Plaid has
//! answered, and what the app is told. Listening, sending and storing are the
//! caller's.

use vstd::prelude::*;
use vstd::string::StringExecFns;
use crate::error::PlaidError;
use crate::json::finished;
use crate::json::has_required;
use crate::json::object_members;
use crate::json::required_is;
use crate::json::with_nullable;
use crate::json::FromJson;
use crate::json::JsonObject;
use crate::json::ObjectWriter;
use crate::json::ToJson;
use crate::model::accounts::AccountsBalanceGetRequest;
use crate::model::accounts::AccountsGetResponse;
use crate::model::common::Product;
use crate::model::error::PlaidErrorResponse;
use crate::model::items::ItemPublicTokenExchangeRequest;
use crate::model::items::ItemPublicTokenExchangeResponse;
use crate::model::link::CountryCode;
use crate::model::link::Language;
use crate::model::link::LinkTokenCreateRequest;
use crate::model::link::LinkTokenCreateResponse;
use crate::model::link::User;
use crate::text::str_eq;
use crate::Either;
use crate::PlaidClient;

verus! {

/// The name under which this backend opens Link.
pub const CLIENT_NAME: &'static str = "Plaid Tiny QuickStart - expo RN";

/// The address from which the app runs in a browser on the same machine, which
/// needs a redirect; from anywhere else it is the Android app.
pub const LOCAL_ADDRESS: &'static str = "localhost";

/// The status that an error of this backend is answered with when the input
/// was at fault.
pub const BAD_REQUEST: u16 = 400;

/// The status that every other error of this backend is answered with.
pub const INTERNAL_SERVER_ERROR: u16 = 500;

/// A row of the store: a user of the app and, once a public token was
/// exchanged, the access token of the user's item.
#[derive(Debug, Clone, PartialEq, Eq)]
pub struct Client {
    pub client_user_id: String,
    pub access_token: Option<String>,
}

/// A row that is about to be written.
#[derive(Debug, Clone, Copy, PartialEq, Eq)]
pub struct NewClient<'a> {
    pub client_user_id: &'a str,
    pub access_token: Option<&'a str>,
}

impl<'a> NewClient<'a> {
    /// The row of a user who has no access token yet.
    pub fn unlinked(client_user_id: &'a str) -> (row: NewClient<'a>)
        ensures
            row.client_user_id@ == client_user_id@,
            row.access_token is None,
    {
        NewClient { client_user_id, access_token: None }
    }
}

/// Why a request to this backend failed.
#[derive(Debug)]
pub enum Error {
    /// The call to Plaid failed, or a value was refused before it.
    PlaidError(PlaidError),
    /// Something else failed, the store for one; the text says what.
    GenericError(String),
}

impl Error {
    /// The status for each error: a refused value is the sender's fault,
    /// everything else is this side's.
    pub open spec fn status(&self) -> u16 {
        match self {
            Error::PlaidError(e) => if e.is_validation() {
                BAD_REQUEST
            } else {
                INTERNAL_SERVER_ERROR
            },
            Error::GenericError(_) => INTERNAL_SERVER_ERROR,
        }
    }

    /// The text a user is shown for this error.
    pub open spec fn message_text(&self) -> Seq<char> {
        match self {
            Error::PlaidError(e) => e.message_text(),
            Error::GenericError(fault) => fault@,
        }
    }

    pub fn message(&self) -> (text: String)
        ensures
            text@ == self.message_text(),
    {
        match self {
            Error::PlaidError(e) => e.message(),
            Error::GenericError(fault) => fault.clone(),
        }
    }

    pub fn status_code(&self) -> (status: u16)
        ensures
            status == self.status(),
    {
        match self {
            Error::PlaidError(e) => if e.validation() {
                BAD_REQUEST
            } else {
                INTERNAL_SERVER_ERROR
            },
            Error::GenericError(_) => INTERNAL_SERVER_ERROR,
        }
    }
}

impl From<PlaidError> for Error {
    fn from(error: PlaidError) -> (wrapped: Error) {
        Error::PlaidError(error)
    }
}

impl vstd::std_specs::convert::FromSpecImpl<PlaidError> for Error {
    open spec fn obeys_from_spec() -> bool {
        true
    }

    open spec fn from_spec(error: PlaidError) -> Error {
        Error::PlaidError(error)
    }
}

/// A write to the store.
#[derive(Debug, Clone, PartialEq, Eq)]
pub enum StoreWrite {
    /// A new row for the user, without an access token.
    InsertClient { client_user_id: String },
    /// The access token of the user's row.
    SetAccessToken { client_user_id: String, access_token: String },
}

/// What a handler does once Plaid has answered.
#[derive(Debug)]
pub enum Next<Output> {
    /// The store is written first; `then` is the answer if the write went well.
    Store { write: StoreWrite, then: Output },
    /// The answer is given at once.
    Answer(Output),
}

/// What the app sends to have a Link token created.
#[derive(Debug, Clone, PartialEq, Eq)]
pub struct CreateLinkTokenInput {
    pub client_user_id: String,
    pub address: String,
}

impl FromJson for CreateLinkTokenInput {
    open spec fn decodable(text: Seq<char>) -> bool {
        &&& object_members(text) matches Some(members)
        &&& has_required::<String>(members, "client_user_id"@)
        &&& has_required::<String>(members, "address"@)
    }

    open spec fn decodes(text: Seq<char>, value: CreateLinkTokenInput) -> bool {
        &&& object_members(text) matches Some(members)
        &&& required_is::<String>(members, "client_user_id"@, value.client_user_id)
        &&& required_is::<String>(members, "address"@, value.address)
    }

    fn from_json(text: &str) -> (value: Option<CreateLinkTokenInput>) {
        let object = JsonObject::parse(text)?;
        let client_user_id = object.required::<String>("client_user_id")?;
        let address = object.required::<String>("address")?;
        Some(CreateLinkTokenInput { client_user_id, address })
    }
}

/// What the app is told: the token, or why Plaid gave none.
#[derive(Debug, Clone, PartialEq, Eq)]
pub struct CreateLinkTokenOutput {
    pub link_token: Option<String>,
    pub failure: Option<PlaidErrorResponse>,
}

impl ToJson for CreateLinkTokenOutput {
    open spec fn json(&self) -> Option<Seq<char>> {
        let members = Some(Seq::<(Seq<char>, Seq<char>)>::empty());
        let members = with_nullable(members, "link_token"@, self.link_token);
        let members = with_nullable(members, "failure"@, self.failure);
        finished(members)
    }

    fn to_json(&self) -> (text: Option<String>) {
        let writer = ObjectWriter::new();
        let writer = writer.nullable("link_token", &self.link_token);
        let writer = writer.nullable("failure", &self.failure);
        writer.finish()
    }
}

/// What the app sends once Link has finished.
#[derive(Debug, Clone, PartialEq, Eq)]
pub struct ExchangePublicTokenInput {
    pub client_user_id: String,
    pub public_token: String,
}

impl FromJson for ExchangePublicTokenInput {
    open spec fn decodable(text: Seq<char>) -> bool {
        &&& object_members(text) matches Some(members)
        &&& has_required::<String>(members, "client_user_id"@)
        &&& has_required::<String>(members, "public_token"@)
    }

    open spec fn decodes(text: Seq<char>, value: ExchangePublicTokenInput) -> bool {
        &&& object_members(text) matches Some(members)
        &&& required_is::<String>(members, "client_user_id"@, value.client_user_id)
        &&& required_is::<String>(members, "public_token"@, value.public_token)
    }

    fn from_json(text: &str) -> (value: Option<ExchangePublicTokenInput>) {
        let object = JsonObject::parse(text)?;
        let client_user_id = object.required::<String>("client_user_id")?;
        let public_token = object.required::<String>("public_token")?;
        Some(ExchangePublicTokenInput { client_user_id, public_token })
    }
}

/// What the app is told: nothing, or why Plaid refused the exchange.
#[derive(Debug, Clone, PartialEq, Eq)]
pub struct ExchangePublicTokenOutput {
    pub failure: Option<PlaidErrorResponse>,
}

impl ToJson for ExchangePublicTokenOutput {
    open spec fn json(&self) -> Option<Seq<char>> {
        let members = Some(Seq::<(Seq<char>, Seq<char>)>::empty());
        let members = with_nullable(members, "failure"@, self.failure);
        finished(members)
    }

    fn to_json(&self) -> (text: Option<String>) {
        let writer = ObjectWriter::new();
        let writer = writer.nullable("failure", &self.failure);
        writer.finish()
    }
}

/// What the app sends to read balances.
#[derive(Debug, Clone, PartialEq, Eq)]
pub struct GetBalanceInput {
    pub client_user_id: String,
}

impl FromJson for GetBalanceInput {
    open spec fn decodable(text: Seq<char>) -> bool {
        &&& object_members(text) matches Some(members)
        &&& has_required::<String>(members, "client_user_id"@)
    }

    open spec fn decodes(text: Seq<char>, value: GetBalanceInput) -> bool {
        &&& object_members(text) matches Some(members)
        &&& required_is::<String>(members, "client_user_id"@, value.client_user_id)
    }

    fn from_json(text: &str) -> (value: Option<GetBalanceInput>) {
        let object = JsonObject::parse(text)?;
        let client_user_id = object.required::<String>("client_user_id")?;
        Some(GetBalanceInput { client_user_id })
    }
}

/// What the app is told: the accounts, or why Plaid gave none.
#[derive(Debug, Clone, PartialEq, Eq)]
pub struct GetBalanceOutput {
    pub balance: Option<AccountsGetResponse>,
    pub failure: Option<PlaidErrorResponse>,
}

impl ToJson for GetBalanceOutput {
    open spec fn json(&self) -> Option<Seq<char>> {
        let members = Some(Seq::<(Seq<char>, Seq<char>)>::empty());
        let members = with_nullable(members, "balance"@, self.balance);
        let members = with_nullable(members, "failure"@, self.failure);
        finished(members)
    }

    fn to_json(&self) -> (text: Option<String>) {
        let writer = ObjectWriter::new();
        let writer = writer.nullable("balance", &self.balance);
        let writer = writer.nullable("failure", &self.failure);
        writer.finish()
    }
}

/// The request for a Link token that an input asks for. From the local
/// address Link is to come back by the client's redirect; from any other it is
/// opened for the client's Android package.
pub fn link_token_request(client: &PlaidClient, input: &CreateLinkTokenInput) -> (request:
    LinkTokenCreateRequest)
    ensures
        request.client_id@ == client.plaid_client_id@,
        request.secret@ == client.plaid_secret@,
        request.client_name@ == CLIENT_NAME@,
        request.language == Language::English,
        request.country_codes@ == seq![CountryCode::Us],
        request.user.client_user_id@ == input.client_user_id@,
        request.user.legal_name is None,
        request.user.name is None,
        request.user.phone_number is None,
        request.products@ == seq![Product::Auth],
        request.required_if_supported_products is None,
        request.optional_products is None,
        request.additional_consented_products is None,
        request.webhook is None,
        request.access_token is None,
        request.link_customization_name is None,
        input.address@ == LOCAL_ADDRESS@ ==> (request.redirect_uri matches Some(uri) && uri@
            == client.plaid_redirect_uri@) && request.android_package_name is None,
        input.address@ != LOCAL_ADDRESS@ ==> (request.android_package_name matches Some(name)
            && name@ == client.plaid_android_package_name@) && request.redirect_uri is None,
        request.institution_data is None,
        request.account_filters is None,
{
    let local = str_eq(input.address.as_str(), LOCAL_ADDRESS);
    let mut country_codes: Vec<CountryCode> = Vec::new();
    country_codes.push(CountryCode::Us);
    let mut products: Vec<Product> = Vec::new();
    products.push(Product::Auth);
    LinkTokenCreateRequest {
        client_id: client.plaid_client_id.clone(),
        secret: client.plaid_secret.clone(),
        client_name: String::from_str(CLIENT_NAME),
        language: Language::English,
        country_codes,
        user: User {
            client_user_id: input.client_user_id.clone(),
            legal_name: None,
            name: None,
            phone_number: None,
        },
        products,
        required_if_supported_products: None,
        optional_products: None,
        additional_consented_products: None,
        webhook: None,
        access_token: None,
        link_customization_name: None,
        redirect_uri: if local {
            Some(client.plaid_redirect_uri.clone())
        } else {
            None
        },
        android_package_name: if local {
            None
        } else {
            Some(client.plaid_android_package_name.clone())
        },
        institution_data: None,
        account_filters: None,
    }
}

/// What follows Plaid's answer to a request for a Link token: with a token,
/// the user gets a row in the store and then the token; with a rejection, the
/// rejection is passed on and nothing is stored.
pub fn link_token_created(
    input: &CreateLinkTokenInput,
    outcome: Either<LinkTokenCreateResponse, PlaidErrorResponse>,
) -> (next: Next<CreateLinkTokenOutput>)
    ensures
        match outcome {
            Either::Left(created) => next matches Next::Store {
                write: StoreWrite::InsertClient { client_user_id },
                then,
            } && client_user_id@ == input.client_user_id@ && then.link_token == Some(
                created.link_token,
            ) && then.failure is None,
            Either::Right(rejected) => next matches Next::Answer(told) && told.link_token is None
                && told.failure == Some(rejected),
        },
{
    match outcome {
        Either::Left(created) => Next::Store {
            write: StoreWrite::InsertClient { client_user_id: input.client_user_id.clone() },
            then: CreateLinkTokenOutput { link_token: Some(created.link_token), failure: None },
        },
        Either::Right(rejected) => Next::Answer(
            CreateLinkTokenOutput { link_token: None, failure: Some(rejected) },
        ),
    }
}

/// The request that exchanges the public token of an input.
pub fn public_token_exchange_request(
    client: &PlaidClient,
    input: &ExchangePublicTokenInput,
) -> (request: ItemPublicTokenExchangeRequest)
    ensures
        request.client_id@ == client.plaid_client_id@,
        request.secret@ == client.plaid_secret@,
        request.public_token@ == input.public_token@,
{
    ItemPublicTokenExchangeRequest {
        client_id: client.plaid_client_id.clone(),
        secret: client.plaid_secret.clone(),
        public_token: input.public_token.clone(),
    }
}

/// What follows Plaid's answer to an exchange: the access token goes into the
/// user's row and the app is told nothing more; a rejection is passed on and
/// nothing is stored.
pub fn public_token_exchanged(
    input: &ExchangePublicTokenInput,
    outcome: Either<ItemPublicTokenExchangeResponse, PlaidErrorResponse>,
) -> (next: Next<ExchangePublicTokenOutput>)
    ensures
        match outcome {
            Either::Left(exchanged) => next matches Next::Store {
                write: StoreWrite::SetAccessToken { client_user_id, access_token },
                then,
            } && client_user_id@ == input.client_user_id@ && access_token
                == exchanged.access_token && then.failure is None,
            Either::Right(rejected) => next matches Next::Answer(told) && told.failure == Some(
                rejected,
            ),
        },
{
    match outcome {
        Either::Left(exchanged) => Next::Store {
            write: StoreWrite::SetAccessToken {
                client_user_id: input.client_user_id.clone(),
                access_token: exchanged.access_token,
            },
            then: ExchangePublicTokenOutput { failure: None },
        },
        Either::Right(rejected) => Next::Answer(
            ExchangePublicTokenOutput { failure: Some(rejected) },
        ),
    }
}

/// The request that reads the balances of a stored user, who has to have an
/// access token: without one there is nothing to ask Plaid for.
pub fn balance_request(client: &PlaidClient, stored: Client) -> (request: Option<
    AccountsBalanceGetRequest,
>)
    ensures
        request is Some <==> stored.access_token is Some,
        request matches Some(r) ==> r.client_id@ == client.plaid_client_id@ && r.secret@
            == client.plaid_secret@ && Some(r.access_token) == stored.access_token
            && r.options is None,
{
    match stored.access_token {
        Some(access_token) => Some(
            AccountsBalanceGetRequest {
                client_id: client.plaid_client_id.clone(),
                secret: client.plaid_secret.clone(),
                access_token,
                options: None,
            },
        ),
        None => None,
    }
}

/// What the app is told about balances: the accounts, or Plaid's rejection.
pub fn balance_read(outcome: Either<AccountsGetResponse, PlaidErrorResponse>) -> (told:
    GetBalanceOutput)
    ensures
        match outcome {
            Either::Left(accounts) => told.balance == Some(accounts) && told.failure is None,
            Either::Right(rejected) => told.balance is None && told.failure == Some(rejected),
        },
{
    match outcome {
        Either::Left(accounts) => GetBalanceOutput { balance: Some(accounts), failure: None },
        Either::Right(rejected) => GetBalanceOutput { balance: None, failure: Some(rejected) },
    }
}

/// What a handler answers once the store was written, or failed to be.
pub fn stored<Output>(written: Result<usize, String>, then: Output) -> (answer: Result<
    Output,
    Error,
>)
    ensures
        match written {
            Ok(_) => answer == Ok::<Output, Error>(then),
            Err(fault) => answer matches Err(Error::GenericError(told)) && told == fault,
        },
{
    match written {
        Ok(_) => Ok(then),
        Err(fault) => Err(Error::GenericError(fault)),
    }
}

} // verus!
