use shopify_api::json::JsonValue;
use shopify_api::rest::RestMethod;
use shopify_api::utils::ReadJsonTreeSteps;
use shopify_api::webhooks::frameworks::WebhookTopic;
use shopify_api::webhooks::ShopifyWebhook;
use shopify_api::Shopify;

fn text(s: &str) -> JsonValue {
    JsonValue::String(s.to_string())
}

fn object(members: Vec<(&str, JsonValue)>) -> JsonValue {
    JsonValue::Object(members.into_iter().map(|(k, v)| (k.to_string(), v)).collect())
}

fn webhook(id: u64, address: &str, topic: &str, format: &str) -> ShopifyWebhook {
    ShopifyWebhook {
        id,
        address: address.to_string(),
        topic: topic.to_string(),
        created_at: String::from("2024-04-01T00:00:00Z"),
        updated_at: String::from("2024-04-01T00:00:00Z"),
        format: format.to_string(),
        fields: vec![],
        metafield_namespaces: vec![],
        api_version: String::from("2024-04"),
        private_metafield_namespaces: vec![],
    }
}

fn single_key(path: &Option<Vec<ReadJsonTreeSteps<'static>>>) -> Option<String> {
    match path {
        Some(steps) if steps.len() == 1 => match steps[0] {
            ReadJsonTreeSteps::Key(k) => Some(k.to_string()),
            ReadJsonTreeSteps::Index(_) => None,
        },
        _ => None,
    }
}

#[test]
fn signature_of_a_known_message() {
    let shopify = Shopify::new("s", "k", String::from("2024-04"), Some("key"));
    let body = b"The quick brown fox jumps over the lazy dog";
    assert!(shopify.verify_hmac(body, "97yD9DBThCSxMpjmqm+xQ+9NWaFJRhdZl0edvC0aPNg="));
    assert!(!shopify.verify_hmac(body, "97yD9DBThCSxMpjmqm+xQ+9NWaFJRhdZl0edvC0aPNg"));
    assert!(!shopify.verify_hmac(body, "f7bc83f430538424b13298e6aa6fb143ef4d59a14946175997479dbc2d1a3cd8"));
    assert!(!shopify.verify_hmac(b"The quick brown fox jumps over the lazy cog", "97yD9DBThCSxMpjmqm+xQ+9NWaFJRhdZl0edvC0aPNg="));
}

#[test]
fn signature_depends_on_the_secret() {
    let shopify = Shopify::new("s", "k", String::from("2024-04"), Some("my-shared-secret"));
    assert!(shopify.verify_hmac(b"{\"id\":1}", "MkkWCk/zipUf7CBFSza+fMSMt5DQw2J1/+1lQGoN/wc="));
    let other = Shopify::new("s", "k", String::from("2024-04"), Some("another-secret"));
    assert!(!other.verify_hmac(b"{\"id\":1}", "MkkWCk/zipUf7CBFSza+fMSMt5DQw2J1/+1lQGoN/wc="));
    let accented = Shopify::new("s", "k", String::from("2024-04"), Some("sécret"));
    assert!(accented.verify_hmac(b"abc", "F5XvMIRrHfJBq+OOvPC6l1I1Lu3cX3d9TqpYexEzv2Q="));
}

#[test]
fn empty_secret_and_empty_body_still_sign() {
    let shopify = Shopify::new("s", "k", String::from("2024-04"), Some(""));
    assert!(shopify.verify_hmac(b"", "thNnmggU2ex3L5XXeMNfxf8Wl8STcVZTxscSFEKSxa0="));
    assert!(!shopify.verify_hmac(b"", ""));
}

#[test]
fn client_without_secret_accepts_nothing() {
    let shopify = Shopify::new("s", "k", String::from("2024-04"), None);
    assert!(!shopify.verify_hmac(b"", "thNnmggU2ex3L5XXeMNfxf8Wl8STcVZTxscSFEKSxa0="));
    assert!(!shopify.verify_hmac(b"abc", ""));
    assert_eq!(shopify.admit_webhook(b"", "thNnmggU2ex3L5XXeMNfxf8Wl8STcVZTxscSFEKSxa0=", "orders/create"), None);
}

#[test]
fn admitted_webhook_is_classified_by_topic() {
    let shopify = Shopify::new("s", "k", String::from("2024-04"), Some("my-shared-secret"));
    let signature = "MkkWCk/zipUf7CBFSza+fMSMt5DQw2J1/+1lQGoN/wc=";
    assert_eq!(
        shopify.admit_webhook(b"{\"id\":1}", signature, "orders/create"),
        Some(WebhookTopic::OrdersCreate)
    );
    assert_eq!(
        shopify.admit_webhook(b"{\"id\":1}", signature, "products/update"),
        Some(WebhookTopic::Other)
    );
    assert_eq!(shopify.admit_webhook(b"{\"id\":2}", signature, "orders/create"), None);
}

#[test]
fn topics_name_their_payloads() {
    let table = [
        ("inventory_items/create", WebhookTopic::InventoryItemCreate),
        ("inventory_items/update", WebhookTopic::InventoryItemUpdate),
        ("inventory_items/delete", WebhookTopic::InventoryItemDelete),
        ("inventory_levels/connect", WebhookTopic::InventoryLevelConnect),
        ("inventory_levels/disconnect", WebhookTopic::InventoryLevelDisconnect),
        ("inventory_levels/update", WebhookTopic::InventoryLevelUpdate),
        ("customers/create", WebhookTopic::CustomersCreate),
        ("customers/update", WebhookTopic::CustomersUpdate),
        ("orders/create", WebhookTopic::OrdersCreate),
        ("orders/updated", WebhookTopic::OrdersUpdated),
        ("orders/update", WebhookTopic::Other),
        ("ORDERS/CREATE", WebhookTopic::Other),
        ("", WebhookTopic::Other),
    ];
    for (topic, kind) in table {
        assert_eq!(WebhookTopic::of(topic), kind, "{}", topic);
    }
}

#[test]
fn list_webhooks_call() {
    let call = Shopify::list_webhooks();
    assert_eq!(call.method, RestMethod::Get);
    assert_eq!(call.endpoint, "webhooks.json");
    assert!(call.body.is_none());
    assert_eq!(single_key(&call.json_finder).as_deref(), Some("webhooks"));
}

#[test]
fn add_webhook_call() {
    let call = Shopify::add_webhook("https://example.com/hook", "orders/create", "json");
    assert_eq!(call.method, RestMethod::Post);
    assert_eq!(call.endpoint, "webhooks.json");
    assert_eq!(
        call.body,
        Some(object(vec![(
            "webhook",
            object(vec![
                ("address", text("https://example.com/hook")),
                ("topic", text("orders/create")),
                ("format", text("json")),
            ])
        )]))
    );
    assert_eq!(single_key(&call.json_finder).as_deref(), Some("webhook"));
}

#[test]
fn edit_webhook_call() {
    let call = Shopify::edit_webhook(4759306, "https://example.com/new");
    assert_eq!(call.method, RestMethod::Put);
    assert_eq!(call.endpoint, "webhooks/4759306.json");
    assert_eq!(
        call.body,
        Some(object(vec![(
            "webhook",
            object(vec![
                ("id", JsonValue::Number(serde_json::Number::from(4759306u64))),
                ("address", text("https://example.com/new")),
            ])
        )]))
    );
    assert_eq!(single_key(&call.json_finder).as_deref(), Some("webhook"));
}

#[test]
fn delete_webhook_call() {
    let call = Shopify::delete_webhook(0);
    assert_eq!(call.method, RestMethod::Delete);
    assert_eq!(call.endpoint, "webhooks/0.json");
    assert!(call.body.is_none());
    assert!(call.json_finder.is_none());
    assert_eq!(Shopify::delete_webhook(u64::MAX).endpoint, "webhooks/18446744073709551615.json");
    assert_eq!(Shopify::delete_webhook(10).endpoint, "webhooks/10.json");
}

#[test]
fn plan_registers_what_is_missing_and_deletes_what_is_not_wanted() {
    let existing = vec![
        webhook(1, "https://a", "orders/create", "json"),
        webhook(2, "https://a", "orders/updated", "json"),
        webhook(3, "https://old", "customers/create", "json"),
    ];
    let desired = vec![
        ("https://a", "orders/updated", "json"),
        ("https://a", "customers/update", "json"),
        ("https://a", "orders/create", "xml"),
    ];
    let plan = Shopify::webhook_auto_config(&existing, desired);
    assert_eq!(plan.webhooks_to_delete, vec![1, 3]);
    assert_eq!(
        plan.webhooks_to_import,
        vec![("https://a", "customers/update", "json"), ("https://a", "orders/create", "xml")]
    );
}

#[test]
fn plan_for_matching_sets_changes_nothing() {
    let existing = vec![webhook(7, "https://a", "t1", "json"), webhook(8, "https://a", "t2", "json")];
    let plan =
        Shopify::webhook_auto_config(&existing, vec![("https://a", "t2", "json"), ("https://a", "t1", "json")]);
    assert!(plan.webhooks_to_delete.is_empty());
    assert!(plan.webhooks_to_import.is_empty());
}

#[test]
fn plan_keeps_only_the_first_of_two_equal_registrations() {
    let existing = vec![webhook(5, "https://a", "t", "json"), webhook(6, "https://a", "t", "json")];
    let plan = Shopify::webhook_auto_config(&existing, vec![("https://a", "t", "json")]);
    assert_eq!(plan.webhooks_to_delete, vec![6]);
    assert!(plan.webhooks_to_import.is_empty());
}

#[test]
fn plan_with_nothing_wanted_deletes_everything() {
    let existing = vec![webhook(5, "a", "t", "json"), webhook(9, "b", "t", "json")];
    let plan = Shopify::webhook_auto_config(&existing, vec![]);
    assert_eq!(plan.webhooks_to_delete, vec![5, 9]);
    let empty = Shopify::webhook_auto_config(&vec![], vec![("a", "t", "json"), ("a", "t", "json")]);
    assert!(empty.webhooks_to_delete.is_empty());
    assert_eq!(empty.webhooks_to_import, vec![("a", "t", "json"), ("a", "t", "json")]);
}
