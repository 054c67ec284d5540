//! Exchanging a public token for an access token.

use vstd::prelude::*;
use crate::json::finished;
use crate::json::has_required;
use crate::json::object_members;
use crate::json::required_is;
use crate::json::with_member;
use crate::json::FromJson;
use crate::json::JsonObject;
use crate::json::ObjectWriter;
use crate::json::ToJson;

verus! {

/// What is sent to exchange the public token of a finished Link session.
#[derive(Debug, Clone, PartialEq, Eq)]
pub struct ItemPublicTokenExchangeRequest {
    pub client_id: String,
    pub secret: String,
    pub public_token: String,
}

impl ToJson for ItemPublicTokenExchangeRequest {
    open spec fn json(&self) -> Option<Seq<char>> {
        let members = Some(Seq::<(Seq<char>, Seq<char>)>::empty());
        let members = with_member(members, "client_id"@, self.client_id.json());
        let members = with_member(members, "secret"@, self.secret.json());
        let members = with_member(members, "public_token"@, self.public_token.json());
        finished(members)
    }

    fn to_json(&self) -> (text: Option<String>) {
        let writer = ObjectWriter::new();
        let writer = writer.field("client_id", &self.client_id);
        let writer = writer.field("secret", &self.secret);
        let writer = writer.field("public_token", &self.public_token);
        writer.finish()
    }
}

/// What Plaid answers: the access token of the item, for later calls.
#[derive(Debug, Clone, PartialEq)]
pub struct ItemPublicTokenExchangeResponse {
    pub access_token: String,
    pub item_id: String,
    pub request_id: String,
}

impl FromJson for ItemPublicTokenExchangeResponse {
    open spec fn decodable(text: Seq<char>) -> bool {
        &&& object_members(text) matches Some(members)
        &&& has_required::<String>(members, "access_token"@)
        &&& has_required::<String>(members, "item_id"@)
        &&& has_required::<String>(members, "request_id"@)
    }

    open spec fn decodes(text: Seq<char>, value: ItemPublicTokenExchangeResponse) -> bool {
        &&& object_members(text) matches Some(members)
        &&& required_is::<String>(members, "access_token"@, value.access_token)
        &&& required_is::<String>(members, "item_id"@, value.item_id)
        &&& required_is::<String>(members, "request_id"@, value.request_id)
    }

    fn from_json(text: &str) -> (value: Option<ItemPublicTokenExchangeResponse>) {
        let object = JsonObject::parse(text)?;
        let access_token = object.required::<String>("access_token")?;
        let item_id = object.required::<String>("item_id")?;
        let request_id = object.required::<String>("request_id")?;
        Some(ItemPublicTokenExchangeResponse { access_token, item_id, request_id })
    }
}

} // verus!
