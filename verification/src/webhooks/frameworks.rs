//! Receiving a webhook: the signature check comes first, then the topic
//! says what kind of payload the body holds.

use crate::text::same_text;
use crate::webhooks::verify::expected_signature;
use crate::Shopify;
use vstd::prelude::*;

verus! {

/// The kinds of payload, by the topic of the webhook.
#[derive(Debug, Clone, Copy, PartialEq, Eq, Structural)]
pub enum WebhookTopic {
    InventoryItemCreate,
    InventoryItemUpdate,
    InventoryItemDelete,
    InventoryLevelConnect,
    InventoryLevelDisconnect,
    InventoryLevelUpdate,
    CustomersCreate,
    CustomersUpdate,
    OrdersCreate,
    OrdersUpdated,
    /// Any other topic; the body is then taken as a JSON document.
    Other,
}

/// The kind of payload that a topic announces.
pub open spec fn topic_kind(topic: Seq<char>) -> WebhookTopic {
    if topic == "inventory_items/create"@ {
        WebhookTopic::InventoryItemCreate
    } else if topic == "inventory_items/update"@ {
        WebhookTopic::InventoryItemUpdate
    } else if topic == "inventory_items/delete"@ {
        WebhookTopic::InventoryItemDelete
    } else if topic == "inventory_levels/connect"@ {
        WebhookTopic::InventoryLevelConnect
    } else if topic == "inventory_levels/disconnect"@ {
        WebhookTopic::InventoryLevelDisconnect
    } else if topic == "inventory_levels/update"@ {
        WebhookTopic::InventoryLevelUpdate
    } else if topic == "customers/create"@ {
        WebhookTopic::CustomersCreate
    } else if topic == "customers/update"@ {
        WebhookTopic::CustomersUpdate
    } else if topic == "orders/create"@ {
        WebhookTopic::OrdersCreate
    } else if topic == "orders/updated"@ {
        WebhookTopic::OrdersUpdated
    } else {
        WebhookTopic::Other
    }
}

impl WebhookTopic {
    /// The kind of payload that `topic` announces.
    pub fn of(topic: &str) -> (kind: WebhookTopic)
        ensures
            kind == topic_kind(topic@),
    {
        if same_text(topic, "inventory_items/create") {
            WebhookTopic::InventoryItemCreate
        } else if same_text(topic, "inventory_items/update") {
            WebhookTopic::InventoryItemUpdate
        } else if same_text(topic, "inventory_items/delete") {
            WebhookTopic::InventoryItemDelete
        } else if same_text(topic, "inventory_levels/connect") {
            WebhookTopic::InventoryLevelConnect
        } else if same_text(topic, "inventory_levels/disconnect") {
            WebhookTopic::InventoryLevelDisconnect
        } else if same_text(topic, "inventory_levels/update") {
            WebhookTopic::InventoryLevelUpdate
        } else if same_text(topic, "customers/create") {
            WebhookTopic::CustomersCreate
        } else if same_text(topic, "customers/update") {
            WebhookTopic::CustomersUpdate
        } else if same_text(topic, "orders/create") {
            WebhookTopic::OrdersCreate
        } else if same_text(topic, "orders/updated") {
            WebhookTopic::OrdersUpdated
        } else {
            WebhookTopic::Other
        }
    }
}

impl Shopify {
    /// Admits an incoming webhook: the kind of its payload where the
    /// signature header is the one expected for the body, and nothing where
    /// it is not.
    pub fn admit_webhook(&self, body: &[u8], hmac_header: &str, topic: &str) -> (res: Option<
        WebhookTopic,
    >)
        ensures
            res == match self@.shared_secret {
                Some(secret) => if expected_signature(secret, body@) == hmac_header@ {
                    Some(topic_kind(topic@))
                } else {
                    None
                },
                None => None,
            },
    {
        if self.verify_hmac(body, hmac_header) {
            Some(WebhookTopic::of(topic))
        } else {
            None
        }
    }
}

} // verus!
