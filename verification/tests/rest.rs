use shopify_api::json::JsonValue;
use shopify_api::graphql::Received;
use shopify_api::rest::{
    classify_rest_attempt, classify_rest_response, find_rest_payload, RestMethod,
    ShopifyAPIRestType, REST_ATTEMPTS,
};
use shopify_api::utils::ReadJsonTreeSteps;
use shopify_api::{Shopify, ShopifyAPIError};
use std::collections::HashMap;

fn object(members: Vec<(&str, JsonValue)>) -> JsonValue {
    JsonValue::Object(members.into_iter().map(|(k, v)| (k.to_string(), v)).collect())
}

#[test]
fn get_call_has_no_body() {
    let shopify = Shopify::new("myshop", "token", String::from("2024-04"), None);
    let mut params = HashMap::new();
    params.insert("limit", "5");
    let call = shopify.rest_query(&ShopifyAPIRestType::Get("products.json", &params));
    assert_eq!(call.method, RestMethod::Get);
    assert_eq!(call.url, "https://myshop.myshopify.com/admin/api/2024-04/products.json");
    assert_eq!(call.content_type, "application/json");
    assert_eq!(call.access_token, "token");
    assert_eq!(call.query.get("limit"), Some(&"5"));
    assert_eq!(call.body, None);
}

#[test]
fn post_and_put_calls_carry_the_body_as_text() {
    let shopify = Shopify::new("myshop", "token", String::from("2024-04"), None);
    let params = HashMap::new();
    let body = object(vec![("webhook", object(vec![("topic", JsonValue::String(String::from("t")))]))]);
    let post = shopify.rest_query(&ShopifyAPIRestType::Post("webhooks.json", &params, &body));
    assert_eq!(post.method, RestMethod::Post);
    assert_eq!(post.body.as_deref(), Some("{\"webhook\":{\"topic\":\"t\"}}"));
    let put = shopify.rest_query(&ShopifyAPIRestType::Put("webhooks/1.json", &params, &body));
    assert_eq!(put.method, RestMethod::Put);
    assert_eq!(put.url, "https://myshop.myshopify.com/admin/api/2024-04/webhooks/1.json");
    assert_eq!(put.body.as_deref(), Some("{\"webhook\":{\"topic\":\"t\"}}"));
}

#[test]
fn delete_call_has_no_body() {
    let shopify = Shopify::new("myshop", "token", String::from("2024-04"), None);
    let params = HashMap::new();
    let call = shopify.rest_query(&ShopifyAPIRestType::Delete("webhooks/1.json", &params));
    assert_eq!(call.method, RestMethod::Delete);
    assert_eq!(call.body, None);
    assert!(call.query.is_empty());
}

#[test]
fn rest_response_with_a_path() {
    let finder = Some(vec![ReadJsonTreeSteps::Key("products"), ReadJsonTreeSteps::Index(0)]);
    let body = "{\"products\":[{\"id\":1,\"title\":\"Hello world product\"}]}";
    assert_eq!(
        classify_rest_response(body, &finder).unwrap(),
        "{\"id\":1,\"title\":\"Hello world product\"}"
    );
}

#[test]
fn rest_response_without_a_path_is_taken_whole() {
    assert_eq!(classify_rest_response(" { } ", &None).unwrap(), "{}");
    assert_eq!(classify_rest_response("[1, 2]", &None).unwrap(), "[1,2]");
}

#[test]
fn rest_response_that_is_not_json() {
    match classify_rest_response("Not Found", &None) {
        Err(ShopifyAPIError::NotJson(body)) => assert_eq!(body, "Not Found"),
        other => panic!("unexpected: {:?}", other),
    }
}

#[test]
fn rest_response_of_another_shape() {
    let finder = Some(vec![ReadJsonTreeSteps::Key("webhook")]);
    match classify_rest_response("{\"errors\": \"Not Found\"}", &finder) {
        Err(ShopifyAPIError::NotWantedJsonFormat(document)) => {
            assert_eq!(document, "{\"errors\":\"Not Found\"}")
        }
        other => panic!("unexpected: {:?}", other),
    }
}

#[test]
fn rest_does_not_look_for_the_throttle_marker() {
    let body = "{\"errors\":[{\"extensions\":{\"code\":\"THROTTLED\"}}],\"data\":1}";
    let finder = Some(vec![ReadJsonTreeSteps::Key("data")]);
    assert_eq!(classify_rest_response(body, &finder).unwrap(), "1");
}

#[test]
fn find_rest_payload_without_a_path_is_the_document() {
    let document = object(vec![("a", JsonValue::Null)]);
    let found = find_rest_payload(&document, &None).unwrap();
    assert!(std::ptr::eq(found, &document));
    let finder = Some(vec![ReadJsonTreeSteps::Key("a")]);
    assert_eq!(find_rest_payload(&document, &finder).unwrap(), &JsonValue::Null);
}

#[test]
fn rest_attempts_are_classified_by_what_came_back() {
    assert!(matches!(
        classify_rest_attempt(Received::Nothing, &None),
        Err(ShopifyAPIError::ConnectionFailed)
    ));
    assert!(matches!(
        classify_rest_attempt(Received::Unreadable, &None),
        Err(ShopifyAPIError::ResponseBroken)
    ));
    assert_eq!(classify_rest_attempt(Received::Body(String::from("[ ]")), &None).unwrap(), "[]");
}

#[test]
fn attempts_per_rest_call() {
    assert_eq!(REST_ATTEMPTS, 10);
}
