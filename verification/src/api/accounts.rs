//! Reading balances.

use vstd::prelude::*;
use crate::model::accounts::AccountsBalanceGetRequest;
use crate::model::accounts::AccountsGetResponse;
use crate::traits::endpoint;
use crate::traits::AccountsApi;
use crate::traits::PendingCall;
use crate::traits::PlaidApi;
use crate::PlaidClient;
use crate::PlaidResult;

verus! {

impl PlaidApi<AccountsBalanceGetRequest, AccountsGetResponse> for PlaidClient {
    open spec fn host(&self) -> Seq<char> {
        self.plaid_env.base_url()
    }
}

impl AccountsApi for PlaidClient {
    fn accounts_balance_get(&self, req: &AccountsBalanceGetRequest) -> (ready: PlaidResult<
        PendingCall<AccountsGetResponse>,
    >) {
        let url = endpoint(self.plaid_env.get_base_url(), crate::traits::ACCOUNTS_BALANCE_GET);
        self.call(req, url.as_str())
    }
}

} // verus!
