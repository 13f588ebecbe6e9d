//! The transport layer of the REST endpoints: what is sent for a call, and
//! how the raw response is classified.

use crate::graphql::Received;
use crate::json::{json_parse, json_text, parse_json, print_json, JsonValue};
use crate::text::optional_string;
use crate::utils::{extract, path_view, read_json_tree, PathStep, ReadJsonTreeSteps};
use crate::{Shopify, ShopifyAPIError, ShopifyAPIErrorView};
use std::collections::HashMap;
use vstd::prelude::*;

verus! {

/// How often one REST call is attempted before its last error is returned.
pub const REST_ATTEMPTS: u64 = 10;

/// One REST call: the endpoint below the client's base URL, the query
/// parameters, and the JSON body of the verbs that have one.
pub enum ShopifyAPIRestType<'a> {
    Get(&'a str, &'a HashMap<&'a str, &'a str>),
    Post(&'a str, &'a HashMap<&'a str, &'a str>, &'a JsonValue),
    Put(&'a str, &'a HashMap<&'a str, &'a str>, &'a JsonValue),
    Delete(&'a str, &'a HashMap<&'a str, &'a str>),
}

/// The verb of a REST call.
#[derive(Debug, Clone, Copy, PartialEq, Eq, Structural)]
pub enum RestMethod {
    Get,
    Post,
    Put,
    Delete,
}

/// The HTTP request of one REST call.
pub struct RestCall<'a> {
    pub method: RestMethod,
    pub url: String,
    /// The value of the header [`crate::CONTENT_TYPE_HEADER`].
    pub content_type: String,
    /// The value of the header [`crate::ACCESS_TOKEN_HEADER`].
    pub access_token: String,
    pub query: &'a HashMap<&'a str, &'a str>,
    pub body: Option<String>,
}

impl<'a> ShopifyAPIRestType<'a> {
    /// The verb of the call.
    pub open spec fn method(self) -> RestMethod {
        match self {
            ShopifyAPIRestType::Get(..) => RestMethod::Get,
            ShopifyAPIRestType::Post(..) => RestMethod::Post,
            ShopifyAPIRestType::Put(..) => RestMethod::Put,
            ShopifyAPIRestType::Delete(..) => RestMethod::Delete,
        }
    }

    /// The endpoint of the call, below the base URL.
    pub open spec fn endpoint(self) -> Seq<char> {
        match self {
            ShopifyAPIRestType::Get(url, _) => url@,
            ShopifyAPIRestType::Post(url, _, _) => url@,
            ShopifyAPIRestType::Put(url, _, _) => url@,
            ShopifyAPIRestType::Delete(url, _) => url@,
        }
    }

    /// The query parameters of the call.
    pub open spec fn params(self) -> &'a HashMap<&'a str, &'a str> {
        match self {
            ShopifyAPIRestType::Get(_, params) => params,
            ShopifyAPIRestType::Post(_, params, _) => params,
            ShopifyAPIRestType::Put(_, params, _) => params,
            ShopifyAPIRestType::Delete(_, params) => params,
        }
    }

    /// The text of the body, for the verbs that send one.
    pub open spec fn body_text(self) -> Option<Seq<char>> {
        match self {
            ShopifyAPIRestType::Get(..) => None,
            ShopifyAPIRestType::Post(_, _, body) => Some(json_text(body@)),
            ShopifyAPIRestType::Put(_, _, body) => Some(json_text(body@)),
            ShopifyAPIRestType::Delete(..) => None,
        }
    }
}

/// What the body of a REST response amounts to: `NotJson` with the body
/// where it does not parse; else the text of the node at the end of the
/// path, or of the whole document where no path is given; and
/// `NotWantedJsonFormat` with the whole document as text where the path
/// does not resolve.
pub open spec fn rest_classified(body: Seq<char>, path: Option<Seq<PathStep>>) -> Result<
    Seq<char>,
    ShopifyAPIErrorView,
> {
    match json_parse(body) {
        None => Err(ShopifyAPIErrorView::NotJson(body)),
        Some(document) => match path {
            None => Ok(json_text(document)),
            Some(steps) => match extract(document, steps) {
                Some(node) => Ok(json_text(node)),
                None => Err(ShopifyAPIErrorView::NotWantedJsonFormat(json_text(document))),
            },
        },
    }
}

/// The steps of a path that may be missing, each by its view.
pub open spec fn optional_path_view(json_finder: Option<Vec<ReadJsonTreeSteps>>) -> Option<
    Seq<PathStep>,
> {
    match json_finder {
        Some(path) => Some(path_view(path@)),
        None => None,
    }
}

/// Finds the payload of a parsed REST response: the node at the end of
/// `json_finder`, or the whole document where there is no path.
pub fn find_rest_payload<'a>(
    document: &'a JsonValue,
    json_finder: &Option<Vec<ReadJsonTreeSteps>>,
) -> (res: Result<&'a JsonValue, ShopifyAPIError>)
    ensures
        match res {
            Ok(node) => match json_finder {
                Some(path) => extract(document@, path_view(path@)) == Some(node@),
                None => node == document,
            },
            Err(e) => {
                &&& json_finder matches Some(path)
                &&& extract(document@, path_view(path@)) is None
                &&& e@ == ShopifyAPIErrorView::NotWantedJsonFormat(json_text(document@))
            },
        },
{
    match json_finder {
        Some(path) => match read_json_tree(document, path) {
            Ok(node) => Ok(node),
            Err(_) => Err(ShopifyAPIError::NotWantedJsonFormat(print_json(document))),
        },
        None => Ok(document),
    }
}

/// Classifies the body of a REST response that was read as text, and
/// returns the payload as compact JSON text for decoding.
pub fn classify_rest_response(body: &str, json_finder: &Option<Vec<ReadJsonTreeSteps>>) -> (res:
    Result<String, ShopifyAPIError>)
    ensures
        match res {
            Ok(payload) => rest_classified(body@, optional_path_view(*json_finder)) == Ok::<
                Seq<char>,
                ShopifyAPIErrorView,
            >(payload@),
            Err(e) => rest_classified(body@, optional_path_view(*json_finder)) == Err::<
                Seq<char>,
                ShopifyAPIErrorView,
            >(e@),
        },
{
    let document = match parse_json(body) {
        Ok(document) => document,
        Err(_) => {
            return Err(ShopifyAPIError::NotJson(String::from_str(body)));
        },
    };
    match find_rest_payload(&document, json_finder) {
        Ok(node) => Ok(print_json(node)),
        Err(e) => Err(e),
    }
}

/// What one attempt of a REST call amounts to before decoding:
/// `ConnectionFailed` without a response, `ResponseBroken` for an
/// unreadable one, else what the body is classified as.
pub open spec fn rest_attempt_outcome(received: Received, path: Option<Seq<PathStep>>) -> Result<
    Seq<char>,
    ShopifyAPIErrorView,
> {
    match received {
        Received::Nothing => Err(ShopifyAPIErrorView::ConnectionFailed),
        Received::Unreadable => Err(ShopifyAPIErrorView::ResponseBroken),
        Received::Body(body) => rest_classified(body@, path),
    }
}

/// Classifies what came back from the HTTP call of one attempt of a REST
/// call, and returns the payload as compact JSON text for decoding.
pub fn classify_rest_attempt(
    received: Received,
    json_finder: &Option<Vec<ReadJsonTreeSteps>>,
) -> (res: Result<String, ShopifyAPIError>)
    ensures
        match res {
            Ok(payload) => rest_attempt_outcome(received, optional_path_view(*json_finder))
                == Ok::<Seq<char>, ShopifyAPIErrorView>(payload@),
            Err(e) => rest_attempt_outcome(received, optional_path_view(*json_finder)) == Err::<
                Seq<char>,
                ShopifyAPIErrorView,
            >(e@),
        },
{
    match received {
        Received::Nothing => Err(ShopifyAPIError::ConnectionFailed),
        Received::Unreadable => Err(ShopifyAPIError::ResponseBroken),
        Received::Body(body) => classify_rest_response(body.as_str(), json_finder),
    }
}

impl Shopify {
    /// The HTTP request of one REST call: the verb on the endpoint below
    /// the client's base URL, with the JSON content type, the client's
    /// access token, the query parameters as given and the body as compact
    /// JSON.
    pub fn rest_query<'a>(&self, rest_query: &ShopifyAPIRestType<'a>) -> (call: RestCall<'a>)
        ensures
            call.method == rest_query.method(),
            call.url@ == self@.rest_url + rest_query.endpoint(),
            call.content_type@ == "application/json"@,
            call.access_token@ == self@.api_key,
            call.query == rest_query.params(),
            optional_string(call.body) == rest_query.body_text(),
    {
        let content_type = String::from_str("application/json");
        let access_token = String::from_str(self.api_key());
        match rest_query {
            ShopifyAPIRestType::Get(url, params) => RestCall {
                method: RestMethod::Get,
                url: self.get_api_endpoint(url),
                content_type,
                access_token,
                query: params,
                body: None,
            },
            ShopifyAPIRestType::Post(url, params, body) => RestCall {
                method: RestMethod::Post,
                url: self.get_api_endpoint(url),
                content_type,
                access_token,
                query: params,
                body: Some(print_json(body)),
            },
            ShopifyAPIRestType::Put(url, params, body) => RestCall {
                method: RestMethod::Put,
                url: self.get_api_endpoint(url),
                content_type,
                access_token,
                query: params,
                body: Some(print_json(body)),
            },
            ShopifyAPIRestType::Delete(url, params) => RestCall {
                method: RestMethod::Delete,
                url: self.get_api_endpoint(url),
                content_type,
                access_token,
                query: params,
                body: None,
            },
        }
    }
}

} // verus!
