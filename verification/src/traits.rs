//! One call to Plaid, in the two halves that the network divides: writing the
//! request, and reading what came back. Sending is left to the caller, who
//! hands over the reply or the fault of the transport.

use vstd::prelude::*;
use vstd::string::StringExecFns;
use core::marker::PhantomData;
use crate::error::PlaidError;
use crate::json::FromJson;
use crate::json::ToJson;
use crate::model::accounts::AccountsBalanceGetRequest;
use crate::model::accounts::AccountsGetResponse;
use crate::model::error::PlaidErrorResponse;
use crate::model::items::ItemPublicTokenExchangeRequest;
use crate::model::items::ItemPublicTokenExchangeResponse;
use crate::model::link::LinkTokenCreateRequest;
use crate::model::link::LinkTokenCreateResponse;
use crate::model::processor::ProcessorStripeBankAccountTokenCreateRequest;
use crate::model::processor::ProcessorStripeBankAccountTokenCreateResponse;
use crate::model::processor::ProcessorTokenCreateRequest;
use crate::model::processor::ProcessorTokenCreateResponse;
use crate::text::concat;
use crate::Either;
use crate::PlaidResult;

verus! {

/// Every request goes out with this method.
pub const METHOD: &'static str = "POST";

/// Every request goes out with this content type.
pub const CONTENT_TYPE: &'static str = "application/json";

/// Where balances are read, below the host.
pub const ACCOUNTS_BALANCE_GET: &'static str = "accounts/balance/get";

/// Where a public token is exchanged, below the host.
pub const ITEM_PUBLIC_TOKEN_EXCHANGE: &'static str = "item/public_token/exchange";

/// Where a Link token is created, below the host.
pub const LINK_TOKEN_CREATE: &'static str = "link/token/create";

/// Where a processor token is created, below the host.
pub const PROCESSOR_TOKEN_CREATE: &'static str = "processor/token/create";

/// Where a Stripe bank account token is created, below the host.
pub const PROCESSOR_STRIPE_BANK_ACCOUNT_TOKEN_CREATE: &'static str =
    "processor/stripe/bank_account_token/create";

/// What is to be sent: `body` to `url`, by `method`, with a header that gives
/// `content_type` as the type of the body.
#[derive(Debug, Clone, PartialEq, Eq)]
pub struct HttpRequest {
    pub method: &'static str,
    pub url: String,
    pub content_type: &'static str,
    pub body: String,
}

/// What came back: the status line's number and the whole body.
#[derive(Debug, Clone, PartialEq, Eq)]
pub struct HttpReply {
    pub status: u16,
    pub body: String,
}

/// The statuses with which Plaid accepts a request: 200 to 299.
pub open spec fn is_success(status: u16) -> bool {
    200 <= status < 300
}

/// The address of an endpoint: the host, a slash, the path.
pub open spec fn endpoint_url(host: Seq<char>, path: Seq<char>) -> Seq<char> {
    host + "/"@ + path
}

/// Whether Plaid accepted the request that this status answers.
pub fn status_is_success(status: u16) -> (accepted: bool)
    ensures
        accepted == is_success(status),
{
    200 <= status && status < 300
}

/// The address of the endpoint at `path` on `host`.
pub fn endpoint(host: &str, path: &str) -> (url: String)
    ensures
        url@ == endpoint_url(host@, path@),
{
    let mut url = concat(host, "/");
    url.append(path);
    url
}

/// A call that was written and waits for its reply. It is used up by
/// [`PendingCall::complete`], so one request gets one reading of one reply.
pub struct PendingCall<Resp> {
    request: HttpRequest,
    expected: PhantomData<Resp>,
}

/// Whether `ready` is what writing `body` for `url` comes to: a POST of that
/// body, as JSON, to that address, or the serialization error where there is
/// no body.
pub open spec fn prepared<Resp>(
    ready: PlaidResult<PendingCall<Resp>>,
    url: Seq<char>,
    body: Option<Seq<char>>,
) -> bool {
    match body {
        Some(text) => {
            &&& ready matches Ok(call)
            &&& call.method() == METHOD@
            &&& call.url() == url
            &&& call.content_type() == CONTENT_TYPE@
            &&& call.body() == text
        },
        None => ready matches Err(e) && e is Serialization,
    }
}

/// Whether `outcome` is what a reply with this status and body is read as.
///
/// A reply with a status from 200 to 299 is read as a `Resp` and as nothing
/// else; any other reply is read as Plaid's error. A body that cannot be read
/// as it should is a deserialization error.
pub open spec fn read_as<Resp: FromJson>(
    status: u16,
    body: Seq<char>,
    outcome: PlaidResult<Either<Resp, PlaidErrorResponse>>,
) -> bool {
    if is_success(status) {
        if Resp::decodable(body) {
            outcome matches Ok(Either::Left(accepted)) && Resp::decodes(body, accepted)
        } else {
            outcome matches Err(e) && e is Deserialization
        }
    } else {
        if PlaidErrorResponse::decodable(body) {
            outcome matches Ok(Either::Right(rejected)) && PlaidErrorResponse::decodes(
                body,
                rejected,
            )
        } else {
            outcome matches Err(e) && e is Deserialization
        }
    }
}

/// Whether `outcome` is what the reply, or the want of one, comes to: a fault
/// of the transport is handed on as it is, a reply is read by its status.
pub open spec fn concluded<Resp: FromJson>(
    reply: Result<HttpReply, String>,
    outcome: PlaidResult<Either<Resp, PlaidErrorResponse>>,
) -> bool {
    match reply {
        Err(fault) => outcome matches Err(PlaidError::Transport(told)) && told@ == fault@,
        Ok(reply) => read_as(reply.status, reply.body@, outcome),
    }
}

/// Reads a reply by its status: an accepted request answers with a `Resp`,
/// a rejected one with Plaid's error.
pub fn read_reply<Resp: FromJson>(status: u16, body: &str) -> (outcome: PlaidResult<
    Either<Resp, PlaidErrorResponse>,
>)
    ensures
        read_as(status, body@, outcome),
{
    if status_is_success(status) {
        match Resp::from_json(body) {
            Some(accepted) => Ok(Either::Left(accepted)),
            None => Err(PlaidError::Deserialization),
        }
    } else {
        match PlaidErrorResponse::from_json(body) {
            Some(rejected) => Ok(Either::Right(rejected)),
            None => Err(PlaidError::Deserialization),
        }
    }
}

/// Ends a call with what the transport brought.
pub fn conclude<Resp: FromJson>(reply: Result<HttpReply, String>) -> (outcome: PlaidResult<
    Either<Resp, PlaidErrorResponse>,
>)
    ensures
        concluded(reply, outcome),
{
    match reply {
        Err(fault) => Err(PlaidError::Transport(fault)),
        Ok(reply) => read_reply(reply.status, reply.body.as_str()),
    }
}

impl<Resp> PendingCall<Resp> {
    /// How the request is sent.
    pub closed spec fn method(&self) -> Seq<char> {
        self.request.method@
    }

    /// Where the request goes.
    pub closed spec fn url(&self) -> Seq<char> {
        self.request.url@
    }

    /// What the body of the request is said to be.
    pub closed spec fn content_type(&self) -> Seq<char> {
        self.request.content_type@
    }

    /// What the request carries.
    pub closed spec fn body(&self) -> Seq<char> {
        self.request.body@
    }

    /// What is to be sent.
    pub fn request(&self) -> (request: &HttpRequest)
        ensures
            request.method@ == self.method(),
            request.url@ == self.url(),
            request.content_type@ == self.content_type(),
            request.body@ == self.body(),
    {
        &self.request
    }
}

impl<Resp: FromJson> PendingCall<Resp> {
    /// Ends the call with what the transport brought. Nothing is sent again,
    /// whatever came back.
    pub fn complete(self, reply: Result<HttpReply, String>) -> (outcome: PlaidResult<
        Either<Resp, PlaidErrorResponse>,
    >)
        ensures
            concluded(reply, outcome),
    {
        conclude(reply)
    }
}

/// Writes a call for `url` whose body is `req` as JSON.
pub fn prepare<Req: ToJson, Resp: FromJson>(req: &Req, url: &str) -> (ready: PlaidResult<
    PendingCall<Resp>,
>)
    ensures
        prepared(ready, url@, req.json()),
{
    match req.to_json() {
        Some(body) => Ok(
            PendingCall {
                request: HttpRequest {
                    method: METHOD,
                    url: String::from_str(url),
                    content_type: CONTENT_TYPE,
                    body,
                },
                expected: PhantomData,
            },
        ),
        None => Err(PlaidError::Serialization),
    }
}

/// Whether two calls ended alike: both accepted, both rejected, or both
/// failed in the same way.
pub open spec fn ended_alike<Resp>(
    one: PlaidResult<Either<Resp, PlaidErrorResponse>>,
    other: PlaidResult<Either<Resp, PlaidErrorResponse>>,
) -> bool {
    match (one, other) {
        (Ok(Either::Left(_)), Ok(Either::Left(_))) => true,
        (Ok(Either::Right(_)), Ok(Either::Right(_))) => true,
        (Err(PlaidError::Transport(a)), Err(PlaidError::Transport(b))) => a@ == b@,
        (Err(PlaidError::Deserialization), Err(PlaidError::Deserialization)) => true,
        _ => false,
    }
}

/// How a call ends is decided by what came back to it and by nothing else:
/// two calls that are brought the same reply, or the same fault, end alike,
/// and what either of them hands out is what the body of its own reply holds.
/// No call has a part in the outcome of another.
pub proof fn lemma_outcome_is_of_own_reply<Resp: FromJson>(
    one: Result<HttpReply, String>,
    other: Result<HttpReply, String>,
    first: PlaidResult<Either<Resp, PlaidErrorResponse>>,
    second: PlaidResult<Either<Resp, PlaidErrorResponse>>,
)
    requires
        concluded(one, first),
        concluded(other, second),
        match (one, other) {
            (Ok(a), Ok(b)) => a.status == b.status && a.body@ == b.body@,
            (Err(a), Err(b)) => a@ == b@,
            _ => false,
        },
    ensures
        ended_alike(first, second),
        first matches Ok(Either::Left(accepted)) ==> Resp::decodes(one->Ok_0.body@, accepted)
            && Resp::decodes(other->Ok_0.body@, second->Ok_0->Left_0),
        first matches Ok(Either::Right(rejected)) ==> PlaidErrorResponse::decodes(
            one->Ok_0.body@,
            rejected,
        ) && PlaidErrorResponse::decodes(other->Ok_0.body@, second->Ok_0->Right_0),
{
}

/// The one way every endpoint is called: the request is written as JSON for
/// the given address, and the reply is read by [`PendingCall::complete`].
pub trait PlaidApi<Req: ToJson, Resp: FromJson> {
    /// The host that the endpoints of this client are on.
    spec fn host(&self) -> Seq<char>;

    fn call(&self, req: &Req, url: &str) -> (ready: PlaidResult<PendingCall<Resp>>)
        ensures
            prepared(ready, url@, req.json()),
    {
        prepare(req, url)
    }
}

/// Opening Link.
pub trait LinkApi: PlaidApi<LinkTokenCreateRequest, LinkTokenCreateResponse> {
    fn link_token_create(&self, req: &LinkTokenCreateRequest) -> (ready: PlaidResult<
        PendingCall<LinkTokenCreateResponse>,
    >)
        ensures
            prepared(ready, endpoint_url(self.host(), LINK_TOKEN_CREATE@), req.json()),
    ;
}

/// Turning the public token of a finished Link session into an access token.
pub trait ItemsApi: PlaidApi<ItemPublicTokenExchangeRequest, ItemPublicTokenExchangeResponse> {
    fn item_public_token_exchange(&self, req: &ItemPublicTokenExchangeRequest) -> (ready:
        PlaidResult<PendingCall<ItemPublicTokenExchangeResponse>>)
        ensures
            prepared(ready, endpoint_url(self.host(), ITEM_PUBLIC_TOKEN_EXCHANGE@), req.json()),
    ;
}

/// Reading the balances of the accounts of an item.
pub trait AccountsApi: PlaidApi<AccountsBalanceGetRequest, AccountsGetResponse> {
    fn accounts_balance_get(&self, req: &AccountsBalanceGetRequest) -> (ready: PlaidResult<
        PendingCall<AccountsGetResponse>,
    >)
        ensures
            prepared(ready, endpoint_url(self.host(), ACCOUNTS_BALANCE_GET@), req.json()),
    ;
}

/// Having a token issued that a payment processor can use for one account.
pub trait ProcessorApi: PlaidApi<ProcessorTokenCreateRequest, ProcessorTokenCreateResponse> {
    fn processor_token_create(&self, req: &ProcessorTokenCreateRequest) -> (ready: PlaidResult<
        PendingCall<ProcessorTokenCreateResponse>,
    >)
        ensures
            prepared(ready, endpoint_url(self.host(), PROCESSOR_TOKEN_CREATE@), req.json()),
    ;
}

/// Having a bank account token issued that Stripe can use for one account.
pub trait ProcessorStripeApi: PlaidApi<
    ProcessorStripeBankAccountTokenCreateRequest,
    ProcessorStripeBankAccountTokenCreateResponse,
> {
    fn processor_stripe_bank_account_token_create(
        &self,
        req: &ProcessorStripeBankAccountTokenCreateRequest,
    ) -> (ready: PlaidResult<PendingCall<ProcessorStripeBankAccountTokenCreateResponse>>)
        ensures
            prepared(
                ready,
                endpoint_url(self.host(), PROCESSOR_STRIPE_BANK_ACCOUNT_TOKEN_CREATE@),
                req.json(),
            ),
    ;
}

/// Transfers; none can be called yet.
pub trait TransferApi {

}

} // verus!
