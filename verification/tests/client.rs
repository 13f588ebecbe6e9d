use shopify_api::{Shopify, ACCESS_TOKEN_HEADER, CONTENT_TYPE_HEADER, VERSION};

#[test]
fn new_appends_the_domain_to_a_bare_shop_name() {
    let shopify = Shopify::new("myshop", "myapikey", String::from("2024-04"), Some("mysharedsecret"));
    assert_eq!(shopify.get_shop(), "myshop");
    assert_eq!(
        shopify.get_query_url(),
        "https://myshop.myshopify.com/admin/api/2024-04/graphql.json"
    );
    assert_eq!(shopify.rest_url(), "https://myshop.myshopify.com/admin/api/2024-04/");
    assert_eq!(shopify.api_version, "2024-04");
}

#[test]
fn new_keeps_a_full_domain() {
    let shopify = Shopify::new("myshop.myshopify.com", "key", String::from("2023-01"), None);
    assert_eq!(shopify.get_shop(), "myshop.myshopify.com");
    assert_eq!(
        shopify.get_query_url(),
        "https://myshop.myshopify.com/admin/api/2023-01/graphql.json"
    );
    assert_eq!(shopify.rest_url(), "https://myshop.myshopify.com/admin/api/2023-01/");
}

#[test]
fn get_shop_returns_the_name_as_given() {
    let shopify =
        Shopify::new("my-shop", "my-api-key", String::from("2024-04"), Some("my-shared-secret"));
    assert_eq!(shopify.get_shop(), "my-shop");
}

#[test]
fn get_api_endpoint_appends_to_the_rest_url() {
    let shopify = Shopify::new("myshop", "myapikey", String::from("2024-04"), Some("mysharedsecret"));
    assert_eq!(
        shopify.get_api_endpoint("products.json"),
        "https://myshop.myshopify.com/admin/api/2024-04/products.json"
    );
}

#[test]
fn set_api_key_refuses_an_empty_key() {
    let mut shopify = Shopify::new("myshop", "myapikey", String::from("2024-04"), None);
    let refused = shopify.set_api_key("").map(|_| ());
    assert_eq!(refused, Err(String::from("API key cannot be empty")));
    let post = shopify.graphql_query("{ shop { name } }", shopify_api::json::JsonValue::Null);
    assert_eq!(post.access_token, "myapikey");
}

#[test]
fn set_api_key_replaces_the_key() {
    let mut shopify = Shopify::new("myshop", "myapikey", String::from("2024-04"), None);
    assert!(shopify.set_api_key("newapikey").is_ok());
    let post = shopify.graphql_query("{ shop { name } }", shopify_api::json::JsonValue::Null);
    assert_eq!(post.access_token, "newapikey");
    assert_eq!(shopify.get_shop(), "myshop");
}

#[test]
fn set_api_key_can_be_chained() {
    let mut shopify = Shopify::new("myshop", "a", String::from("2024-04"), None);
    let client = shopify.set_api_key("b").unwrap();
    client.set_api_key("c").unwrap();
    let post = shopify.graphql_query("q", shopify_api::json::JsonValue::Null);
    assert_eq!(post.access_token, "c");
}

#[test]
fn version_names_the_client() {
    assert_eq!(VERSION, "shopify_api/0.7.0");
}

#[test]
fn header_names() {
    assert_eq!(CONTENT_TYPE_HEADER, "Content-Type");
    assert_eq!(ACCESS_TOKEN_HEADER, "X-Shopify-Access-Token");
}
