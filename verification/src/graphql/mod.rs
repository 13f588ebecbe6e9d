//! The transport layer of the GraphQL endpoint: what is sent for a query,
//! and how the raw response is classified.

pub mod bulk_mutation;
pub mod bulk_query;
pub mod composer;
pub mod types;

use crate::json::{
    json_parse, json_text, member, parse_json, print_json, JsonTree, JsonValue,
};
use crate::utils::{extract, path_view, read_json_tree, PathStep, ReadJsonTreeSteps};
use crate::{Shopify, ShopifyAPIError, ShopifyAPIErrorView};
use vstd::prelude::*;

verus! {

/// How often one GraphQL call is attempted before its last error is
/// returned.
pub const GRAPHQL_ATTEMPTS: u64 = 10;

/// The HTTP request of one GraphQL call: a POST of `body` to `url`.
pub struct GraphqlPost {
    pub url: String,
    /// The value of the header [`crate::CONTENT_TYPE_HEADER`].
    pub content_type: String,
    /// The value of the header [`crate::ACCESS_TOKEN_HEADER`].
    pub access_token: String,
    pub body: String,
}

/// One GraphQL operation: the document, its variables, and where in the
/// response the payload is found.
pub struct GraphqlRequest {
    pub query: String,
    pub variables: JsonValue,
    pub json_finder: Vec<ReadJsonTreeSteps<'static>>,
}

/// The document sent as the body of a GraphQL call.
pub open spec fn request_document(query: Seq<char>, variables: JsonTree) -> JsonTree {
    JsonTree::Object(seq![("query"@, JsonTree::String(query)), ("variables"@, variables)])
}

/// Where the platform puts its rate-limit marker: the code of the first
/// error.
pub open spec fn throttle_path() -> Seq<PathStep> {
    seq![
        PathStep::Key("errors"@),
        PathStep::Index(0),
        PathStep::Key("extensions"@),
        PathStep::Key("code"@),
    ]
}

/// Whether a response document carries the rate-limit marker.
pub open spec fn is_throttled(document: JsonTree) -> bool {
    extract(document, throttle_path()) == Some(JsonTree::String("THROTTLED"@))
}

/// What a parsed response amounts to: `Throttled` where the marker is
/// there, whatever else the document holds; else the node at the end of
/// `path`, or `NotWantedJsonFormat` with the whole document as text where
/// the path does not resolve.
pub open spec fn payload_of(document: JsonTree, path: Seq<PathStep>) -> Result<
    JsonTree,
    ShopifyAPIErrorView,
> {
    if is_throttled(document) {
        Err(ShopifyAPIErrorView::Throttled)
    } else {
        match extract(document, path) {
            Some(node) => Ok(node),
            None => Err(ShopifyAPIErrorView::NotWantedJsonFormat(json_text(document))),
        }
    }
}

/// What a response body amounts to: `NotJson` with the body where it does
/// not parse, else the text of the payload of the parsed document.
pub open spec fn classified(body: Seq<char>, path: Seq<PathStep>) -> Result<
    Seq<char>,
    ShopifyAPIErrorView,
> {
    match json_parse(body) {
        None => Err(ShopifyAPIErrorView::NotJson(body)),
        Some(document) => match payload_of(document, path) {
            Ok(node) => Ok(json_text(node)),
            Err(e) => Err(e),
        },
    }
}

/// Throttle detection: a body that parses to a document with the
/// rate-limit marker is classified as `Throttled`, whatever the path asked
/// for and whatever else the document holds.
pub proof fn lemma_throttled_whatever_the_path(body: Seq<char>, path: Seq<PathStep>)
    requires
        json_parse(body) matches Some(document) && is_throttled(document),
    ensures
        classified(body, path) == Err::<Seq<char>, ShopifyAPIErrorView>(
            ShopifyAPIErrorView::Throttled,
        ),
{
}

impl Shopify {
    /// The HTTP request of one GraphQL call: the query and its variables in
    /// one JSON body, posted to the client's GraphQL endpoint with the JSON
    /// content type and the client's access token.
    pub fn graphql_query(&self, graphql_query: &str, variables: JsonValue) -> (post: GraphqlPost)
        ensures
            post.url@ == self@.query_url,
            post.content_type@ == "application/json"@,
            post.access_token@ == self@.api_key,
            post.body@ == json_text(request_document(graphql_query@, variables@)),
    {
        let mut members: Vec<(String, JsonValue)> = Vec::new();
        members.push(member("query", JsonValue::string(graphql_query)));
        members.push(member("variables", variables));
        let document = JsonValue::object(members);
        proof {
            assert(document@->Object_0 =~= request_document(
                graphql_query@,
                variables@,
            )->Object_0);
        }
        GraphqlPost {
            url: String::from_str(self.get_query_url()),
            content_type: String::from_str("application/json"),
            access_token: String::from_str(self.api_key()),
            body: print_json(&document),
        }
    }
}

/// Whether a parsed response carries the rate-limit marker.
pub fn has_throttle_marker(document: &JsonValue) -> (res: bool)
    ensures
        res == is_throttled(document@),
{
    let mut path: Vec<ReadJsonTreeSteps> = Vec::new();
    path.push(ReadJsonTreeSteps::Key("errors"));
    path.push(ReadJsonTreeSteps::Index(0));
    path.push(ReadJsonTreeSteps::Key("extensions"));
    path.push(ReadJsonTreeSteps::Key("code"));
    proof {
        assert(path_view(path@) =~= throttle_path());
    }
    match read_json_tree(document, &path) {
        Ok(node) => match node.as_str() {
            Some(code) => crate::text::same_text(code, "THROTTLED"),
            None => false,
        },
        Err(_) => false,
    }
}

/// Finds the payload of a parsed response: the node at the end of
/// `json_finder`, unless the response is rate-limited or has another shape.
pub fn find_payload<'a>(document: &'a JsonValue, json_finder: &Vec<ReadJsonTreeSteps>) -> (res:
    Result<&'a JsonValue, ShopifyAPIError>)
    ensures
        match res {
            Ok(node) => payload_of(document@, path_view(json_finder@)) == Ok::<
                JsonTree,
                ShopifyAPIErrorView,
            >(node@),
            Err(e) => payload_of(document@, path_view(json_finder@)) == Err::<
                JsonTree,
                ShopifyAPIErrorView,
            >(e@),
        },
{
    if has_throttle_marker(document) {
        return Err(ShopifyAPIError::Throttled);
    }
    match read_json_tree(document, json_finder) {
        Ok(node) => Ok(node),
        Err(_) => Err(ShopifyAPIError::NotWantedJsonFormat(print_json(document))),
    }
}

/// Classifies the body of a response that was read as text, and returns the
/// payload as compact JSON text for decoding.
pub fn classify_response(body: &str, json_finder: &Vec<ReadJsonTreeSteps>) -> (res: Result<
    String,
    ShopifyAPIError,
>)
    ensures
        match res {
            Ok(payload) => classified(body@, path_view(json_finder@)) == Ok::<
                Seq<char>,
                ShopifyAPIErrorView,
            >(payload@),
            Err(e) => classified(body@, path_view(json_finder@)) == Err::<
                Seq<char>,
                ShopifyAPIErrorView,
            >(e@),
        },
{
    let document = match parse_json(body) {
        Ok(document) => document,
        Err(_) => {
            return Err(ShopifyAPIError::NotJson(String::from_str(body)));
        },
    };
    match find_payload(&document, json_finder) {
        Ok(node) => Ok(print_json(node)),
        Err(e) => Err(e),
    }
}

/// What came back from the HTTP call of one attempt.
pub enum Received {
    /// No response was obtained.
    Nothing,
    /// A response came, but its body could not be read as text.
    Unreadable,
    /// The body of the response, as text.
    Body(String),
}

/// What one attempt amounts to before decoding: `ConnectionFailed` without
/// a response, `ResponseBroken` for an unreadable one, else what the body
/// is classified as.
pub open spec fn attempt_outcome(received: Received, path: Seq<PathStep>) -> Result<
    Seq<char>,
    ShopifyAPIErrorView,
> {
    match received {
        Received::Nothing => Err(ShopifyAPIErrorView::ConnectionFailed),
        Received::Unreadable => Err(ShopifyAPIErrorView::ResponseBroken),
        Received::Body(body) => classified(body@, path),
    }
}

/// Classifies what came back from the HTTP call of one attempt, and returns
/// the payload as compact JSON text for decoding.
pub fn classify_attempt(received: Received, json_finder: &Vec<ReadJsonTreeSteps>) -> (res: Result<
    String,
    ShopifyAPIError,
>)
    ensures
        match res {
            Ok(payload) => attempt_outcome(received, path_view(json_finder@)) == Ok::<
                Seq<char>,
                ShopifyAPIErrorView,
            >(payload@),
            Err(e) => attempt_outcome(received, path_view(json_finder@)) == Err::<
                Seq<char>,
                ShopifyAPIErrorView,
            >(e@),
        },
{
    match received {
        Received::Nothing => Err(ShopifyAPIError::ConnectionFailed),
        Received::Unreadable => Err(ShopifyAPIError::ResponseBroken),
        Received::Body(body) => classify_response(body.as_str(), json_finder),
    }
}

/// Settles one attempt once the payload text went through the decoder:
/// the decoded value where there is one, else `NotWantedJsonFormat` with
/// the payload that did not decode.
pub fn decoded<T>(payload: String, value: Option<T>) -> (res: Result<T, ShopifyAPIError>)
    ensures
        match value {
            Some(v) => res == Ok::<T, ShopifyAPIError>(v),
            None => res == Err::<T, ShopifyAPIError>(ShopifyAPIError::NotWantedJsonFormat(payload)),
        },
{
    match value {
        Some(v) => Ok(v),
        None => Err(ShopifyAPIError::NotWantedJsonFormat(payload)),
    }
}

} // verus!
