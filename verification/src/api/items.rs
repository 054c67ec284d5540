//! Exchanging a public token.

use vstd::prelude::*;
use crate::model::items::ItemPublicTokenExchangeRequest;
use crate::model::items::ItemPublicTokenExchangeResponse;
use crate::traits::endpoint;
use crate::traits::ItemsApi;
use crate::traits::PendingCall;
use crate::traits::PlaidApi;
use crate::PlaidClient;
use crate::PlaidResult;

verus! {

impl PlaidApi<ItemPublicTokenExchangeRequest, ItemPublicTokenExchangeResponse> for PlaidClient {
    open spec fn host(&self) -> Seq<char> {
        self.plaid_env.base_url()
    }
}

impl ItemsApi for PlaidClient {
    fn item_public_token_exchange(&self, req: &ItemPublicTokenExchangeRequest) -> (ready:
        PlaidResult<PendingCall<ItemPublicTokenExchangeResponse>>) {
        let url = endpoint(
            self.plaid_env.get_base_url(),
            crate::traits::ITEM_PUBLIC_TOKEN_EXCHANGE,
        );
        self.call(req, url.as_str())
    }
}

} // verus!
