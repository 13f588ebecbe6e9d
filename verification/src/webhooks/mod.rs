//! Webhooks: the signature check, and keeping the registered webhooks in
//! line with the wanted ones.

pub mod frameworks;
pub mod verify;
pub mod webhook;

use vstd::prelude::*;

verus! {

/// A webhook as the platform has it registered.
#[derive(Debug, Clone)]
pub struct ShopifyWebhook {
    pub id: u64,
    pub address: String,
    pub topic: String,
    pub created_at: String,
    pub updated_at: String,
    pub format: String,
    pub fields: Vec<String>,
    pub metafield_namespaces: Vec<String>,
    pub api_version: String,
    pub private_metafield_namespaces: Vec<String>,
}

} // verus!
