//! Creating a Link token.

use vstd::prelude::*;
use crate::model::link::LinkTokenCreateRequest;
use crate::model::link::LinkTokenCreateResponse;
use crate::traits::endpoint;
use crate::traits::LinkApi;
use crate::traits::PendingCall;
use crate::traits::PlaidApi;
use crate::PlaidClient;
use crate::PlaidResult;

verus! {

impl PlaidApi<LinkTokenCreateRequest, LinkTokenCreateResponse> for PlaidClient {
    open spec fn host(&self) -> Seq<char> {
        self.plaid_env.base_url()
    }
}

impl LinkApi for PlaidClient {
    fn link_token_create(&self, req: &LinkTokenCreateRequest) -> (ready: PlaidResult<
        PendingCall<LinkTokenCreateResponse>,
    >) {
        let url = endpoint(self.plaid_env.get_base_url(), crate::traits::LINK_TOKEN_CREATE);
        self.call(req, url.as_str())
    }
}

} // verus!
