//! Issuing processor tokens.

use vstd::prelude::*;
use crate::model::processor::ProcessorStripeBankAccountTokenCreateRequest;
use crate::model::processor::ProcessorStripeBankAccountTokenCreateResponse;
use crate::model::processor::ProcessorTokenCreateRequest;
use crate::model::processor::ProcessorTokenCreateResponse;
use crate::traits::endpoint;
use crate::traits::PendingCall;
use crate::traits::PlaidApi;
use crate::traits::ProcessorApi;
use crate::traits::ProcessorStripeApi;
use crate::PlaidClient;
use crate::PlaidResult;

verus! {

impl PlaidApi<ProcessorTokenCreateRequest, ProcessorTokenCreateResponse> for PlaidClient {
    open spec fn host(&self) -> Seq<char> {
        self.plaid_env.base_url()
    }
}

impl ProcessorApi for PlaidClient {
    fn processor_token_create(&self, req: &ProcessorTokenCreateRequest) -> (ready: PlaidResult<
        PendingCall<ProcessorTokenCreateResponse>,
    >) {
        let url = endpoint(self.plaid_env.get_base_url(), crate::traits::PROCESSOR_TOKEN_CREATE);
        self.call(req, url.as_str())
    }
}

impl PlaidApi<
    ProcessorStripeBankAccountTokenCreateRequest,
    ProcessorStripeBankAccountTokenCreateResponse,
> for PlaidClient {
    open spec fn host(&self) -> Seq<char> {
        self.plaid_env.base_url()
    }
}

impl ProcessorStripeApi for PlaidClient {
    fn processor_stripe_bank_account_token_create(
        &self,
        req: &ProcessorStripeBankAccountTokenCreateRequest,
    ) -> (ready: PlaidResult<PendingCall<ProcessorStripeBankAccountTokenCreateResponse>>) {
        let url = endpoint(
            self.plaid_env.get_base_url(),
            crate::traits::PROCESSOR_STRIPE_BANK_ACCOUNT_TOKEN_CREATE,
        );
        self.call(req, url.as_str())
    }
}

} // verus!
