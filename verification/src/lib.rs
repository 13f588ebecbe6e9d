//! Client-side logic for a shop platform's admin APIs: bounded retry, JSON
//! path extraction, response classification and the bulk-operation workflow.
//!
//! The library decides and the caller performs. Every remote operation is
//! split into the request that is to be sent, which a function of this
//! library builds, and the answer that came back, which a function of this
//! library classifies; sending, waiting and decoding into the caller's own
//! types happen outside. Workflows that take several remote steps are state
//! machines: the caller reports what happened and is told what to do next.
//!
//! - [`utils`]: the retry executor and the path extractor.
//! - [`json`]: the document tree that responses are read into.
//! - [`graphql`]: the GraphQL transport, bulk operations and staged uploads.
//! - [`rest`]: the REST transport.
//! - [`webhooks`]: the signature of incoming webhooks and the upkeep of the
//!   registered ones.
//! - [`text`]: the line format of bulk payloads.

pub mod graphql;
pub mod json;
pub mod rest;
pub mod text;
pub mod utils;
pub mod webhooks;

use vstd::prelude::*;

verus! {

/// The client identifier sent with requests.
pub const VERSION: &'static str = "shopify_api/0.7.0";

/// The header that names the format of a request body.
pub const CONTENT_TYPE_HEADER: &'static str = "Content-Type";

/// The header that carries the client's API key.
pub const ACCESS_TOKEN_HEADER: &'static str = "X-Shopify-Access-Token";

/// What can go wrong in a remote call or in the workflow around it.
#[derive(Debug)]
pub enum ShopifyAPIError {
    /// No response was obtained.
    ConnectionFailed,
    /// A response came but could not be read as text.
    ResponseBroken,
    /// A response text, or a line of a result stream, is not JSON; the text
    /// is carried for diagnosis.
    NotJson(String),
    /// The response is JSON of another shape than the one asked for; the
    /// offending document is carried as text.
    NotWantedJsonFormat(String),
    /// The platform limited the rate of requests.
    Throttled,
    /// A failure decided by the workflow itself.
    Other(String),
}

/// The mathematical model of an error.
pub enum ShopifyAPIErrorView {
    ConnectionFailed,
    ResponseBroken,
    NotJson(Seq<char>),
    NotWantedJsonFormat(Seq<char>),
    Throttled,
    Other(Seq<char>),
}

impl View for ShopifyAPIError {
    type V = ShopifyAPIErrorView;

    open spec fn view(&self) -> ShopifyAPIErrorView {
        match self {
            ShopifyAPIError::ConnectionFailed => ShopifyAPIErrorView::ConnectionFailed,
            ShopifyAPIError::ResponseBroken => ShopifyAPIErrorView::ResponseBroken,
            ShopifyAPIError::NotJson(body) => ShopifyAPIErrorView::NotJson(body@),
            ShopifyAPIError::NotWantedJsonFormat(document) => ShopifyAPIErrorView::NotWantedJsonFormat(
                document@,
            ),
            ShopifyAPIError::Throttled => ShopifyAPIErrorView::Throttled,
            ShopifyAPIError::Other(message) => ShopifyAPIErrorView::Other(message@),
        }
    }
}

/// The configuration of one client: the shop it talks to, its credentials
/// and the two endpoint URLs derived from them.
#[derive(Clone, Debug)]
pub struct Shopify {
    pub api_version: String,
    shared_secret: Option<String>,
    api_key: String,
    query_url: String,
    rest_url: String,
    shop: String,
}

/// The mathematical model of a client configuration.
pub struct ShopifyView {
    pub api_version: Seq<char>,
    pub shared_secret: Option<Seq<char>>,
    pub api_key: Seq<char>,
    pub query_url: Seq<char>,
    pub rest_url: Seq<char>,
    pub shop: Seq<char>,
}

/// The host name of a shop: the name itself where it already ends in the
/// platform's domain, else the name with that domain appended.
pub open spec fn shop_domain(shop: Seq<char>) -> Seq<char> {
    if ".myshopify.com"@.is_suffix_of(shop) {
        shop
    } else {
        shop + ".myshopify.com"@
    }
}

/// The GraphQL endpoint of a shop for an API version.
pub open spec fn query_url_of(shop: Seq<char>, api_version: Seq<char>) -> Seq<char> {
    "https://"@ + shop_domain(shop) + "/admin/api/"@ + api_version + "/graphql.json"@
}

/// The base of the REST endpoints of a shop for an API version.
pub open spec fn rest_url_of(shop: Seq<char>, api_version: Seq<char>) -> Seq<char> {
    "https://"@ + shop_domain(shop) + "/admin/api/"@ + api_version + "/"@
}

impl View for Shopify {
    type V = ShopifyView;

    closed spec fn view(&self) -> ShopifyView {
        ShopifyView {
            api_version: self.api_version@,
            shared_secret: crate::text::optional_string(self.shared_secret),
            api_key: self.api_key@,
            query_url: self.query_url@,
            rest_url: self.rest_url@,
            shop: self.shop@,
        }
    }
}

impl Shopify {
    /// A client for `shop`, which may be given with or without the
    /// platform's domain; both endpoint URLs are fixed here.
    pub fn new(shop: &str, api_key: &str, api_version: String, shared_secret: Option<&str>) -> (client:
        Shopify)
        ensures
            client@ == (ShopifyView {
                api_version: api_version@,
                shared_secret: crate::text::optional_text(shared_secret),
                api_key: api_key@,
                query_url: query_url_of(shop@, api_version@),
                rest_url: rest_url_of(shop@, api_version@),
                shop: shop@,
            }),
    {
        let mut shop_domain = String::from_str(shop);
        if !crate::text::ends_with(shop, ".myshopify.com") {
            shop_domain.append(".myshopify.com");
        }
        let mut query_url = String::from_str("https://");
        query_url.append(shop_domain.as_str());
        query_url.append("/admin/api/");
        query_url.append(api_version.as_str());
        query_url.append("/graphql.json");

        let mut rest_url = String::from_str("https://");
        rest_url.append(shop_domain.as_str());
        rest_url.append("/admin/api/");
        rest_url.append(api_version.as_str());
        rest_url.append("/");

        let shared_secret = match shared_secret {
            Some(secret) => Some(String::from_str(secret)),
            None => None,
        };
        Shopify {
            api_version,
            shared_secret,
            api_key: String::from_str(api_key),
            query_url,
            rest_url,
            shop: String::from_str(shop),
        }
    }

    /// The API key, for the authentication header.
    pub(crate) fn api_key(&self) -> (key: &str)
        ensures
            key@ == self@.api_key,
    {
        self.api_key.as_str()
    }

    /// The shared secret that signs webhooks, where there is one.
    pub(crate) fn shared_secret(&self) -> (secret: Option<&str>)
        ensures
            match secret {
                Some(s) => self@.shared_secret == Some(s@),
                None => self@.shared_secret is None,
            },
    {
        match &self.shared_secret {
            Some(secret) => Some(secret.as_str()),
            None => None,
        }
    }

    /// The shop name as it was given.
    pub fn get_shop(&self) -> (shop: &str)
        ensures
            shop@ == self@.shop,
    {
        self.shop.as_str()
    }

    /// Replaces the API key; an empty key is refused and leaves the client
    /// as it was.
    pub fn set_api_key(&mut self, api_key: &str) -> (res: Result<&mut Shopify, String>)
        ensures
            match res {
                Ok(client) => api_key@.len() > 0 && client@ == (ShopifyView {
                    api_key: api_key@,
                    ..old(self)@
                }) && *final(self) == *final(client),
                Err(message) => api_key@.len() == 0 && message@ == "API key cannot be empty"@
                    && *final(self) == *old(self),
            },
    {
        if api_key.is_empty() {
            return Err(String::from_str("API key cannot be empty"));
        }
        self.api_key = String::from_str(api_key);
        Ok(self)
    }

    /// The GraphQL endpoint.
    pub fn get_query_url(&self) -> (url: &str)
        ensures
            url@ == self@.query_url,
    {
        self.query_url.as_str()
    }

    /// The base of the REST endpoints.
    pub fn rest_url(&self) -> (url: &str)
        ensures
            url@ == self@.rest_url,
    {
        self.rest_url.as_str()
    }

    /// The URL of one REST endpoint: the base followed by `endpoint`.
    pub fn get_api_endpoint(&self, endpoint: &str) -> (url: String)
        ensures
            url@ == self@.rest_url + endpoint@,
    {
        let mut url = String::from_str(self.rest_url());
        url.append(endpoint);
        url
    }
}

} // verus!
