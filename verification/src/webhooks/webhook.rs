//! The REST calls that manage webhooks, and the plan that brings the
//! registered webhooks in line with the wanted ones.

use crate::json::{json_number, member, number_from, JsonTree, JsonValue};
use crate::rest::RestMethod;
use crate::text::{decimal, decimal_text, same_text};
use crate::utils::{path_view, PathStep, ReadJsonTreeSteps};
use crate::webhooks::ShopifyWebhook;
use crate::Shopify;
use vstd::prelude::*;

verus! {

/// One REST call on the webhooks of a shop, without query parameters.
pub struct WebhookCall {
    pub method: RestMethod,
    pub endpoint: String,
    pub body: Option<JsonValue>,
    pub json_finder: Option<Vec<ReadJsonTreeSteps<'static>>>,
}

/// The endpoint of one webhook.
pub open spec fn webhook_endpoint(webhook_id: u64) -> Seq<char> {
    "webhooks/"@ + decimal(webhook_id as nat) + ".json"@
}

/// The path of one key.
pub open spec fn key_path(key: Seq<char>) -> Seq<PathStep> {
    seq![PathStep::Key(key)]
}

/// The document that wraps the fields of a webhook.
pub open spec fn webhook_document(fields: Seq<(Seq<char>, JsonTree)>) -> JsonTree {
    JsonTree::Object(seq![("webhook"@, JsonTree::Object(fields))])
}

/// The path of one key.
fn path_of_key(key: &'static str) -> (path: Vec<ReadJsonTreeSteps<'static>>)
    ensures
        path_view(path@) == key_path(key@),
{
    let mut path: Vec<ReadJsonTreeSteps<'static>> = Vec::new();
    path.push(ReadJsonTreeSteps::Key(key));
    path
}

/// The endpoint of one webhook.
fn endpoint_of(webhook_id: u64) -> (endpoint: String)
    ensures
        endpoint@ == webhook_endpoint(webhook_id),
{
    let mut endpoint = String::from_str("webhooks/");
    endpoint.append(decimal_text(webhook_id).as_str());
    endpoint.append(".json");
    endpoint
}

/// Wraps the fields of a webhook into the document that the platform takes.
fn wrap_webhook(fields: Vec<(String, JsonValue)>) -> (document: JsonValue)
    ensures
        document@ is Object,
        document@->Object_0.len() == 1,
        document@->Object_0[0].0 == "webhook"@,
        document@->Object_0[0].1 is Object,
        document@->Object_0[0].1->Object_0.len() == fields@.len(),
        forall|j: int|
            0 <= j < fields@.len() ==> (#[trigger] document@->Object_0[0].1->Object_0[j]) == (
                fields@[j].0@,
                fields@[j].1@,
            ),
{
    let inner = JsonValue::object(fields);
    let mut members: Vec<(String, JsonValue)> = Vec::new();
    members.push(member("webhook", inner));
    JsonValue::object(members)
}

/// Whether a registered webhook is the wanted one: same address, topic and
/// format.
pub open spec fn is_wanted(webhook: ShopifyWebhook, wanted: (&str, &str, &str)) -> bool {
    &&& webhook.address@ == wanted.0@
    &&& webhook.topic@ == wanted.1@
    &&& webhook.format@ == wanted.2@
}

/// The position of the first registered webhook that is the wanted one.
pub open spec fn first_match(existing: Seq<ShopifyWebhook>, wanted: (&str, &str, &str)) -> Option<
    int,
>
    decreases existing.len(),
{
    if existing.len() == 0 {
        None
    } else if is_wanted(existing[0], wanted) {
        Some(0)
    } else {
        match first_match(existing.drop_first(), wanted) {
            Some(i) => Some(i + 1),
            None => None,
        }
    }
}

/// The ids of the registered webhooks that a wanted one was found in: for
/// each wanted webhook, in order, its first match.
pub open spec fn treated_ids(existing: Seq<ShopifyWebhook>, desired: Seq<(&str, &str, &str)>) -> Seq<
    u64,
>
    decreases desired.len(),
{
    if desired.len() == 0 {
        Seq::empty()
    } else {
        let before = treated_ids(existing, desired.drop_last());
        match first_match(existing, desired.last()) {
            Some(i) => before.push(existing[i].id),
            None => before,
        }
    }
}

/// The wanted webhooks that are not registered yet, in order.
pub open spec fn to_import<'a>(
    existing: Seq<ShopifyWebhook>,
    desired: Seq<(&'a str, &'a str, &'a str)>,
) -> Seq<(&'a str, &'a str, &'a str)>
    decreases desired.len(),
{
    if desired.len() == 0 {
        Seq::empty()
    } else {
        let before = to_import(existing, desired.drop_last());
        match first_match(existing, desired.last()) {
            Some(_) => before,
            None => before.push(desired.last()),
        }
    }
}

/// The ids of the registered webhooks that are not among `treated`, in
/// order.
pub open spec fn to_delete(existing: Seq<ShopifyWebhook>, treated: Seq<u64>) -> Seq<u64>
    decreases existing.len(),
{
    if existing.len() == 0 {
        Seq::empty()
    } else {
        let before = to_delete(existing.drop_last(), treated);
        if treated.contains(existing.last().id) {
            before
        } else {
            before.push(existing.last().id)
        }
    }
}

/// A webhook at position `i` that is the wanted one, with none before it,
/// is the first match.
pub proof fn lemma_first_match_found(
    existing: Seq<ShopifyWebhook>,
    wanted: (&str, &str, &str),
    i: int,
)
    requires
        0 <= i < existing.len(),
        is_wanted(existing[i], wanted),
        forall|k: int| 0 <= k < i ==> !is_wanted(#[trigger] existing[k], wanted),
    ensures
        first_match(existing, wanted) == Some(i),
    decreases i,
{
    if i > 0 {
        let rest = existing.drop_first();
        lemma_first_match_found(rest, wanted, i - 1);
    }
}

/// Where no registered webhook is the wanted one, there is no first match.
pub proof fn lemma_first_match_none(existing: Seq<ShopifyWebhook>, wanted: (&str, &str, &str))
    requires
        forall|k: int| 0 <= k < existing.len() ==> !is_wanted(#[trigger] existing[k], wanted),
    ensures
        first_match(existing, wanted) is None,
    decreases existing.len(),
{
    if existing.len() > 0 {
        let rest = existing.drop_first();
        lemma_first_match_none(rest, wanted);
    }
}

/// What has to change so that the wanted webhooks are the registered ones.
pub struct WebhookPlan<'a> {
    /// The registered webhooks to delete, by id; they go first.
    pub webhooks_to_delete: Vec<u64>,
    /// The wanted webhooks to register, as address, topic and format.
    pub webhooks_to_import: Vec<(&'a str, &'a str, &'a str)>,
}

/// Whether `id` occurs in `ids`.
fn contains_id(ids: &Vec<u64>, id: u64) -> (res: bool)
    ensures
        res == ids@.contains(id),
{
    let mut i: usize = 0;
    while i < ids.len()
        invariant
            i <= ids.len(),
            forall|k: int| 0 <= k < i ==> ids@[k] != id,
        decreases ids.len() - i,
    {
        if ids[i] == id {
            return true;
        }
        i = i + 1;
    }
    false
}

/// The position of the first registered webhook that is the wanted one.
fn find_first_match(existing: &Vec<ShopifyWebhook>, wanted: (&str, &str, &str)) -> (res: Option<
    usize,
>)
    ensures
        match res {
            Some(i) => first_match(existing@, wanted) == Some(i as int) && i < existing@.len(),
            None => first_match(existing@, wanted) is None,
        },
{
    let mut i: usize = 0;
    while i < existing.len()
        invariant
            i <= existing.len(),
            forall|k: int| 0 <= k < i ==> !is_wanted(#[trigger] existing@[k], wanted),
        decreases existing.len() - i,
    {
        let webhook = &existing[i];
        if same_text(webhook.address.as_str(), wanted.0) && same_text(
            webhook.topic.as_str(),
            wanted.1,
        ) && same_text(webhook.format.as_str(), wanted.2) {
            proof {
                lemma_first_match_found(existing@, wanted, i as int);
            }
            return Some(i);
        }
        i = i + 1;
    }
    proof {
        lemma_first_match_none(existing@, wanted);
    }
    None
}

impl Shopify {
    /// The call that lists the registered webhooks.
    pub fn list_webhooks() -> (call: WebhookCall)
        ensures
            call.method == RestMethod::Get,
            call.endpoint@ == "webhooks.json"@,
            call.body is None,
            call.json_finder matches Some(path) && path_view(path@) == key_path("webhooks"@),
    {
        WebhookCall {
            method: RestMethod::Get,
            endpoint: String::from_str("webhooks.json"),
            body: None,
            json_finder: Some(path_of_key("webhooks")),
        }
    }

    /// The call that registers a webhook.
    pub fn add_webhook(address: &str, topic: &str, format: &str) -> (call: WebhookCall)
        ensures
            call.method == RestMethod::Post,
            call.endpoint@ == "webhooks.json"@,
            call.body matches Some(body) && body@ == webhook_document(
                seq![
                    ("address"@, JsonTree::String(address@)),
                    ("topic"@, JsonTree::String(topic@)),
                    ("format"@, JsonTree::String(format@)),
                ],
            ),
            call.json_finder matches Some(path) && path_view(path@) == key_path("webhook"@),
    {
        let mut fields: Vec<(String, JsonValue)> = Vec::new();
        fields.push(member("address", JsonValue::string(address)));
        fields.push(member("topic", JsonValue::string(topic)));
        fields.push(member("format", JsonValue::string(format)));
        let body = wrap_webhook(fields);
        proof {
            let wanted = seq![
                ("address"@, JsonTree::String(address@)),
                ("topic"@, JsonTree::String(topic@)),
                ("format"@, JsonTree::String(format@)),
            ];
            assert(body@->Object_0[0].1->Object_0 =~= wanted);
            assert(body@->Object_0 =~= seq![("webhook"@, JsonTree::Object(wanted))]);
        }
        WebhookCall {
            method: RestMethod::Post,
            endpoint: String::from_str("webhooks.json"),
            body: Some(body),
            json_finder: Some(path_of_key("webhook")),
        }
    }

    /// The call that gives a registered webhook a new address.
    pub fn edit_webhook(webhook_id: u64, new_address: &str) -> (call: WebhookCall)
        ensures
            call.method == RestMethod::Put,
            call.endpoint@ == webhook_endpoint(webhook_id),
            call.body matches Some(body) && body@ == webhook_document(
                seq![
                    ("id"@, JsonTree::Number(json_number(webhook_id))),
                    ("address"@, JsonTree::String(new_address@)),
                ],
            ),
            call.json_finder matches Some(path) && path_view(path@) == key_path("webhook"@),
    {
        let mut fields: Vec<(String, JsonValue)> = Vec::new();
        fields.push(member("id", JsonValue::Number(number_from(webhook_id))));
        fields.push(member("address", JsonValue::string(new_address)));
        let body = wrap_webhook(fields);
        proof {
            let wanted = seq![
                ("id"@, JsonTree::Number(json_number(webhook_id))),
                ("address"@, JsonTree::String(new_address@)),
            ];
            assert(body@->Object_0[0].1->Object_0 =~= wanted);
            assert(body@->Object_0 =~= seq![("webhook"@, JsonTree::Object(wanted))]);
        }
        WebhookCall {
            method: RestMethod::Put,
            endpoint: endpoint_of(webhook_id),
            body: Some(body),
            json_finder: Some(path_of_key("webhook")),
        }
    }

    /// The call that deletes a registered webhook; its answer is taken
    /// whole.
    pub fn delete_webhook(webhook_id: u64) -> (call: WebhookCall)
        ensures
            call.method == RestMethod::Delete,
            call.endpoint@ == webhook_endpoint(webhook_id),
            call.body is None,
            call.json_finder is None,
    {
        WebhookCall {
            method: RestMethod::Delete,
            endpoint: endpoint_of(webhook_id),
            body: None,
            json_finder: None,
        }
    }

    /// Plans the changes that make the wanted webhooks the registered ones.
    ///
    /// A wanted webhook is registered already when some registered one has
    /// its address, topic and format; the first such webhook then counts as
    /// treated. Every wanted webhook without one is to be registered, and
    /// every registered webhook whose id is not among the treated ones is
    /// to be deleted.
    pub fn webhook_auto_config<'a>(
        existing_webhooks: &Vec<ShopifyWebhook>,
        desired_webhooks: Vec<(&'a str, &'a str, &'a str)>,
    ) -> (plan: WebhookPlan<'a>)
        ensures
            plan.webhooks_to_import@ == to_import(existing_webhooks@, desired_webhooks@),
            plan.webhooks_to_delete@ == to_delete(
                existing_webhooks@,
                treated_ids(existing_webhooks@, desired_webhooks@),
            ),
    {
        let mut webhooks_to_import: Vec<(&'a str, &'a str, &'a str)> = Vec::new();
        let mut webhooks_to_delete: Vec<u64> = Vec::new();
        let mut webhooks_treated: Vec<u64> = Vec::new();

        let mut d: usize = 0;
        while d < desired_webhooks.len()
            invariant
                d <= desired_webhooks.len(),
                webhooks_to_import@ == to_import(
                    existing_webhooks@,
                    desired_webhooks@.take(d as int),
                ),
                webhooks_treated@ == treated_ids(
                    existing_webhooks@,
                    desired_webhooks@.take(d as int),
                ),
            decreases desired_webhooks.len() - d,
        {
            let wanted = desired_webhooks[d];
            proof {
                assert(desired_webhooks@.take(d + 1).drop_last() =~= desired_webhooks@.take(
                    d as int,
                ));
            }
            match find_first_match(existing_webhooks, wanted) {
                Some(i) => {
                    webhooks_treated.push(existing_webhooks[i].id);
                },
                None => {
                    webhooks_to_import.push(wanted);
                },
            }
            d = d + 1;
        }
        proof {
            assert(desired_webhooks@.take(desired_webhooks@.len() as int) =~= desired_webhooks@);
        }

        let mut e: usize = 0;
        while e < existing_webhooks.len()
            invariant
                e <= existing_webhooks.len(),
                webhooks_to_delete@ == to_delete(
                    existing_webhooks@.take(e as int),
                    webhooks_treated@,
                ),
            decreases existing_webhooks.len() - e,
        {
            proof {
                assert(existing_webhooks@.take(e + 1).drop_last() =~= existing_webhooks@.take(
                    e as int,
                ));
            }
            if !contains_id(&webhooks_treated, existing_webhooks[e].id) {
                webhooks_to_delete.push(existing_webhooks[e].id);
            }
            e = e + 1;
        }
        proof {
            assert(existing_webhooks@.take(existing_webhooks@.len() as int)
                =~= existing_webhooks@);
        }
        WebhookPlan { webhooks_to_delete, webhooks_to_import }
    }
}

} // verus!
