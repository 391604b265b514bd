//! Requests, responses and call context of the contract, with identities
//! in their canonical byte form.

use vstd::prelude::*;

use crate::viewing_key::ViewingKey;

verus! {

/// The block a call runs in.
#[derive(Clone, Copy, Debug, PartialEq, Eq, Structural)]
pub struct BlockInfo {
    pub height: u64,
    /// Nanoseconds since the Unix epoch.
    pub time: u64,
}

/// Context of a call.
#[derive(Clone, Copy, Debug, PartialEq, Eq, Structural)]
pub struct Env {
    pub block: BlockInfo,
}

} // verus!

verus! {

/// Request to set up the contract.
#[derive(Clone, Debug, PartialEq)]
pub struct InstantiateMsg {
    pub serenity_seed: String,
}

/// Requests that change the state; identities are canonical.
#[derive(Clone, Debug, PartialEq)]
pub enum ExecuteMsg {
    UpdateStrongbox { strongbox: String },
    CreateViewingKey { viewer: Vec<u8>, entropy: String, padding: Option<String> },
    TransferOwnership { new_owner: Vec<u8> },
    RevokeViewingKey { viewer: Vec<u8> },
}

/// Read-only requests; identities are canonical.
#[derive(Clone, Debug, PartialEq)]
pub enum QueryMsg {
    /// Reads the strongbox on behalf of an identity that holds a viewing key.
    GetStrongbox { behalf: Vec<u8>, key: String },
}

impl QueryMsg {
    /// The identities a query may be authenticated as.
    pub open spec fn spec_identities(&self) -> Seq<Seq<u8>> {
        match self {
            QueryMsg::GetStrongbox { behalf, key: _ } => seq![behalf@],
        }
    }

    /// The viewing key text a query presents.
    pub open spec fn spec_key(&self) -> Seq<char> {
        match self {
            QueryMsg::GetStrongbox { behalf: _, key } => key@,
        }
    }

    /// The identities to try and the key to check them with.
    pub fn get_validation_params(&self) -> (r: (Vec<Vec<u8>>, ViewingKey))
        ensures
            r.0@.map_values(|a: Vec<u8>| a@) == self.spec_identities(),
            r.1.0@ == self.spec_key(),
    {
        match self {
            QueryMsg::GetStrongbox { behalf, key } => {
                let mut ids: Vec<Vec<u8>> = Vec::new();
                ids.push(vstd::slice::slice_to_vec(behalf.as_slice()));
                assert(ids@.map_values(|a: Vec<u8>| a@) =~= seq![behalf@]);
                (ids, ViewingKey(key.clone()))
            },
        }
    }
}

/// Answer to a successful strongbox query.
#[derive(Clone, Debug, PartialEq)]
pub struct StrongboxResponse {
    pub strongbox: String,
}

/// Answer to a successful state change: the minted key, if one was minted.
#[derive(Clone, Debug, PartialEq)]
pub struct Response {
    pub data: Option<ViewingKey>,
}

impl Response {
    /// The text of the key the response carries, if any.
    pub open spec fn spec_data(&self) -> Option<Seq<char>> {
        match self.data {
            Some(k) => Some(k.0@),
            None => None,
        }
    }
}

} // verus!
