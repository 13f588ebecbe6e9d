//! Bulk operations: the requests that submit and fetch them, the polling
//! decision, the staged upload of their input, and the reading of their
//! result stream.

use crate::graphql::GraphqlRequest;
use crate::json::{
    has_unique_keys, json_number, json_parse, json_text, member, number_from, parse_json,
    print_json, JsonTree, JsonValue,
};
use crate::text::{join_lines, nonempty_lines, split_lines, split_nonempty_lines, texts_of};
use crate::utils::{path_view, PathStep, ReadJsonTreeSteps};
use crate::{Shopify, ShopifyAPIError, ShopifyAPIErrorView};
use vstd::prelude::*;

verus! {

/// The document that fetches a bulk operation by its id.
pub const BULK_BY_ID_QUERY: &'static str = r#"
                query($id: ID!) {
                    node(id: $id) {
                        ... on BulkOperation {
                            id
                            url
                            partialDataUrl
                            status
                        }
                    }
                }
            "#;

/// What stands before the query in the document that submits a bulk query.
pub const BULK_QUERY_PREFIX: &'static str = r#"
            mutation {
                bulkOperationRunQuery(
                    query: """
                    "#;

/// What stands after the query in the document that submits a bulk query.
pub const BULK_QUERY_SUFFIX: &'static str = r#"
                    """
                ) {
                    bulkOperation {
                        id
                        url
                        partialDataUrl
                        status
                    }
                    userErrors {
                        field
                        message
                    }
                }
            }"#;

/// The document that submits a bulk mutation.
pub const BULK_MUTATION_QUERY: &'static str = r#"
            mutation bulkOperationRunMutation($mutation: String!, $stagedUploadPath: String!) {
                bulkOperationRunMutation(
                    mutation: $mutation,
                    stagedUploadPath: $stagedUploadPath,
                ) {
                    bulkOperation {
                        id
                        url
                        partialDataUrl
                        status
                    }
                    userErrors {
                        field
                        message
                    }
                }
            }"#;

/// The document that asks for upload slots.
pub const STAGED_UPLOADS_QUERY: &'static str = r#"
        mutation stagedUploadsCreate($input: [StagedUploadInput!]!) {
            stagedUploadsCreate(input: $input) {
              stagedTargets {
                url
                resourceUrl
                parameters {
                  name
                  value
                }
              }
              userErrors {
                field
                message
              }
            }
          }
          "#;

/// The kind of resource that an upload slot is asked for.
#[derive(Debug, Clone, Copy)]
pub enum StagedUploadTargetGenerateUploadResourceInput {
    BulkMutationVariables,
    CollectionImage,
    File,
    Image,
    Model3D,
    ProductImage,
    ReturnLabel,
    UrlRedirectImport,
    Video,
}

impl StagedUploadTargetGenerateUploadResourceInput {
    /// The name of the kind on the wire.
    pub open spec fn wire_name(self) -> Seq<char> {
        match self {
            Self::BulkMutationVariables => "BULK_MUTATION_VARIABLES"@,
            Self::CollectionImage => "COLLECTION_IMAGE"@,
            Self::File => "FILE"@,
            Self::Image => "IMAGE"@,
            Self::Model3D => "MODEL_3D"@,
            Self::ProductImage => "PRODUCT_IMAGE"@,
            Self::ReturnLabel => "RETURN_LABEL"@,
            Self::UrlRedirectImport => "URL_REDIRECT_IMPORT"@,
            Self::Video => "VIDEO"@,
        }
    }

    /// The name of the kind on the wire.
    pub fn as_wire(&self) -> (name: &'static str)
        ensures
            name@ == self.wire_name(),
    {
        match self {
            Self::BulkMutationVariables => "BULK_MUTATION_VARIABLES",
            Self::CollectionImage => "COLLECTION_IMAGE",
            Self::File => "FILE",
            Self::Image => "IMAGE",
            Self::Model3D => "MODEL_3D",
            Self::ProductImage => "PRODUCT_IMAGE",
            Self::ReturnLabel => "RETURN_LABEL",
            Self::UrlRedirectImport => "URL_REDIRECT_IMPORT",
            Self::Video => "VIDEO",
        }
    }
}

/// One signed form field of an upload slot.
#[derive(Debug, Clone)]
pub struct StagedUploadParameter {
    pub name: String,
    pub value: String,
}

/// An upload slot: where to send the payload, and the form fields that
/// must go with it unchanged.
#[derive(Debug, Clone)]
pub struct StagedMediaUploadTarget {
    pub parameters: Vec<StagedUploadParameter>,
    pub resource_url: String,
    pub url: String,
}

/// A validation failure that the platform attaches to a request.
#[derive(Debug, Clone)]
pub struct ShopifyUserError {
    pub field: Vec<String>,
    pub message: String,
}

/// The answer to a request for upload slots.
#[derive(Debug, Clone)]
pub struct ShopifyStagedUploadsCreateInputQuery {
    pub staged_targets: Option<Vec<StagedMediaUploadTarget>>,
    pub user_errors: Option<Vec<ShopifyUserError>>,
}

/// What is asked of the platform for one upload slot.
#[derive(Debug, Clone)]
pub struct StagedUploadsCreateInput {
    pub file_size: Option<u64>,
    pub filename: String,
    pub http_method: Option<String>,
    pub mime_type: String,
    pub resource: StagedUploadTargetGenerateUploadResourceInput,
}

/// Why a bulk operation failed.
#[derive(Debug, Clone, Copy)]
pub enum ShopifyBulkErrorCode {
    AccessDenied,
    InternalServerError,
    Timeout,
}

/// Where a bulk operation stands in its life cycle.
#[derive(Debug, Clone, Copy, PartialEq, Eq, Structural)]
pub enum ShopifyBulkStatus {
    Canceled,
    Canceling,
    Completed,
    Created,
    Expired,
    Failed,
    Running,
}

impl ShopifyBulkStatus {
    /// The states in which the platform is done with the operation.
    pub open spec fn is_terminal(self) -> bool {
        self is Completed || self is Failed || self is Expired || self is Canceled
    }
}

/// A bulk operation as the platform reports it.
#[derive(Debug)]
pub struct ShopifyBulk {
    pub id: Option<String>,
    pub url: Option<String>,
    pub partial_data_url: Option<String>,
    pub status: ShopifyBulkStatus,
    pub error_code: Option<ShopifyBulkErrorCode>,
}

impl ShopifyBulk {
    /// Where the results can be downloaded: the URL of an operation that is
    /// `Completed`, and nothing in any other state.
    pub fn result_url(&self) -> (res: Option<&str>)
        ensures
            match res {
                Some(url) => self.status is Completed && (self.url matches Some(u) && url@ == u@),
                None => !(self.status is Completed) || self.url is None,
            },
    {
        match self.status {
            ShopifyBulkStatus::Completed => match &self.url {
                Some(url) => Some(url.as_str()),
                None => None,
            },
            _ => None,
        }
    }

    /// Why the operation failed: the error code of an operation that is
    /// `Failed`, and nothing in any other state.
    pub fn failure_code(&self) -> (res: Option<ShopifyBulkErrorCode>)
        ensures
            res == if self.status is Failed {
                self.error_code
            } else {
                None
            },
    {
        match self.status {
            ShopifyBulkStatus::Failed => self.error_code,
            _ => None,
        }
    }
}

/// The answer to the submission of a bulk operation.
#[derive(Debug)]
pub struct ShopifyBulkOperationRunQuery {
    pub bulk_operation: Option<ShopifyBulk>,
    pub user_errors: Option<Vec<ShopifyUserError>>,
}

/// Whether a list of user errors that may be missing holds any.
pub open spec fn has_user_errors(user_errors: Option<Vec<ShopifyUserError>>) -> bool {
    user_errors matches Some(errors) && errors@.len() > 0
}

impl ShopifyBulkOperationRunQuery {
    /// The operation that the submission created: none where the platform
    /// reported user errors, whatever else the answer holds.
    pub fn created_operation(&self) -> (res: Option<&ShopifyBulk>)
        ensures
            match res {
                Some(operation) => !has_user_errors(self.user_errors) && self.bulk_operation
                    == Some(*operation),
                None => has_user_errors(self.user_errors) || self.bulk_operation is None,
            },
    {
        if let Some(errors) = &self.user_errors {
            if errors.len() > 0 {
                return None;
            }
        }
        match &self.bulk_operation {
            Some(operation) => Some(operation),
            None => None,
        }
    }
}

/// The JSON form of a request for one upload slot.
pub open spec fn upload_input_json(
    file_size: Option<u64>,
    filename: Seq<char>,
    http_method: Option<Seq<char>>,
    mime_type: Seq<char>,
    resource: StagedUploadTargetGenerateUploadResourceInput,
) -> JsonTree {
    JsonTree::Object(
        seq![
            (
                "fileSize"@,
                match file_size {
                    Some(n) => JsonTree::Number(json_number(n)),
                    None => JsonTree::Null,
                },
            ),
            ("filename"@, JsonTree::String(filename)),
            (
                "httpMethod"@,
                match http_method {
                    Some(m) => JsonTree::String(m),
                    None => JsonTree::Null,
                },
            ),
            ("mimeType"@, JsonTree::String(mime_type)),
            ("resource"@, JsonTree::String(resource.wire_name())),
        ],
    )
}

impl StagedUploadsCreateInput {
    /// The JSON form of this request.
    pub open spec fn json_spec(&self) -> JsonTree {
        upload_input_json(
            self.file_size,
            self.filename@,
            match self.http_method {
                Some(m) => Some(m@),
                None => None,
            },
            self.mime_type@,
            self.resource,
        )
    }

    /// The JSON form of this request, as it goes into the variables of the
    /// call.
    pub fn to_json(&self) -> (res: JsonValue)
        ensures
            res@ == self.json_spec(),
    {
        let file_size = match self.file_size {
            Some(n) => JsonValue::Number(number_from(n)),
            None => JsonValue::Null,
        };
        let http_method = match &self.http_method {
            Some(m) => JsonValue::string(m.as_str()),
            None => JsonValue::Null,
        };
        let mut members: Vec<(String, JsonValue)> = Vec::new();
        members.push(member("fileSize", file_size));
        members.push(member("filename", JsonValue::string(self.filename.as_str())));
        members.push(member("httpMethod", http_method));
        members.push(member("mimeType", JsonValue::string(self.mime_type.as_str())));
        members.push(member("resource", JsonValue::string(self.resource.as_wire())));
        let res = JsonValue::object(members);
        proof {
            assert(res@->Object_0 =~= self.json_spec()->Object_0);
        }
        res
    }
}

/// The JSON forms of a list of requests for upload slots.
pub open spec fn inputs_json(params: Seq<StagedUploadsCreateInput>) -> Seq<JsonTree> {
    Seq::new(params.len(), |i: int| params[i].json_spec())
}

/// The compact JSON texts of a list of documents.
pub open spec fn json_texts(items: Seq<JsonValue>) -> Seq<Seq<char>> {
    Seq::new(items.len(), |i: int| json_text(items[i]@))
}

/// The name and value of each parameter, in order.
pub open spec fn parameters_view(parameters: Seq<StagedUploadParameter>) -> Seq<
    (Seq<char>, Seq<char>),
> {
    Seq::new(parameters.len(), |i: int| (parameters[i].name@, parameters[i].value@))
}

/// The name and value of each form field, in order.
pub open spec fn fields_view(fields: Seq<(String, String)>) -> Seq<(Seq<char>, Seq<char>)> {
    Seq::new(fields.len(), |i: int| (fields[i].0@, fields[i].1@))
}

/// The set of names among pairs of name and value.
pub open spec fn names_of(pairs: Seq<(Seq<char>, Seq<char>)>) -> Set<Seq<char>> {
    Set::new(|name: Seq<char>| exists|i: int| 0 <= i < pairs.len() && (#[trigger] pairs[i]).0 == name)
}

/// The key of the uploaded object: the value of the last parameter named
/// `key`, and the empty text where there is none.
pub open spec fn upload_key(parameters: Seq<StagedUploadParameter>) -> Seq<char>
    decreases parameters.len(),
{
    if parameters.len() == 0 {
        Seq::empty()
    } else if parameters.last().name@ == "key"@ {
        parameters.last().value@
    } else {
        upload_key(parameters.drop_last())
    }
}

/// The field of the multipart form that carries the payload.
pub const FILE_FIELD: &'static str = "file";

/// A multipart form upload: text fields, then one file field with the
/// payload.
#[derive(Debug)]
pub struct UploadForm {
    pub url: String,
    pub fields: Vec<(String, String)>,
    pub file_field: String,
    pub file_name: String,
    pub mime_type: String,
    pub content: String,
}

/// The upload of a payload to a slot, and the key under which the payload
/// is then known.
#[derive(Debug)]
pub struct StagedUpload {
    pub form: UploadForm,
    pub key: String,
}

/// Writes each document as one line of compact JSON, with a line feed
/// between lines and none at the end.
///
/// Every line is a non-empty text without line feeds, so the line splitter
/// finds in the result exactly these lines again, and the text of one or
/// more documents has exactly one piece per document.
pub fn encode_jsonl(items: &Vec<JsonValue>) -> (res: String)
    ensures
        res@ == join_lines(json_texts(items@)),
        nonempty_lines(res@) == json_texts(items@),
        items@.len() > 0 ==> split_lines(res@) == json_texts(items@),
{
    let mut out = String::new();
    let mut i: usize = 0;
    let ghost texts = json_texts(items@);
    while i < items.len()
        invariant
            i <= items.len(),
            texts == json_texts(items@),
            out@ == join_lines(texts.take(i as int)),
            forall|j: int| 0 <= j < i ==> (#[trigger] texts[j]).len() > 0,
            forall|j: int| 0 <= j < i ==> !(#[trigger] texts[j]).contains('\n'),
        decreases items.len() - i,
    {
        let line = print_json(&items[i]);
        proof {
            reveal_strlit("\n");
            assert(texts.take(i + 1).drop_last() =~= texts.take(i as int));
        }
        if i > 0 {
            out.append("\n");
        }
        out.append(line.as_str());
        i = i + 1;
    }
    proof {
        assert(texts.take(items@.len() as int) =~= texts);
        crate::text::lemma_lines_round_trip(texts);
        if texts.len() > 0 {
            crate::text::lemma_split_join(texts);
        }
    }
    out
}

/// Takes the upload slot out of the platform's answer: the first slot
/// listed, unless the answer carries user errors or no slot at all.
pub fn staged_upload_target(response: ShopifyStagedUploadsCreateInputQuery) -> (res: Result<
    StagedMediaUploadTarget,
    ShopifyAPIError,
>)
    ensures
        match res {
            Ok(target) => !has_user_errors(response.user_errors) && (response.staged_targets matches Some(
                targets,
            ) && targets@.len() > 0 && target == targets@[0]),
            Err(e) => if has_user_errors(response.user_errors) {
                e@ == ShopifyAPIErrorView::Other("Error while creating staged upload URL"@)
            } else {
                &&& e@ == ShopifyAPIErrorView::Other("no staged target"@)
                &&& response.staged_targets matches Some(targets) ==> targets@.len() == 0
            },
        },
{
    if let Some(errors) = &response.user_errors {
        if errors.len() > 0 {
            return Err(
                ShopifyAPIError::Other(String::from_str("Error while creating staged upload URL")),
            );
        }
    }
    if let Some(mut targets) = response.staged_targets {
        if targets.len() > 0 {
            return Ok(targets.swap_remove(0));
        }
    }
    Err(ShopifyAPIError::Other(String::from_str("no staged target")))
}

/// The form fields that replay the parameters of an upload slot: one field
/// per parameter, in order, names and values unchanged.
pub fn replay_parameters(parameters: &Vec<StagedUploadParameter>) -> (fields: Vec<(String, String)>)
    ensures
        fields_view(fields@) == parameters_view(parameters@),
        names_of(fields_view(fields@)) == names_of(parameters_view(parameters@)),
{
    let mut fields: Vec<(String, String)> = Vec::new();
    let mut i: usize = 0;
    while i < parameters.len()
        invariant
            i <= parameters.len(),
            fields@.len() == i,
            forall|j: int|
                0 <= j < i ==> (#[trigger] fields@[j]).0@ == parameters@[j].name@ && fields@[j].1@
                    == parameters@[j].value@,
        decreases parameters.len() - i,
    {
        fields.push((parameters[i].name.clone(), parameters[i].value.clone()));
        i = i + 1;
    }
    fields
}

/// Finds the key of the uploaded object among the parameters of its slot.
pub fn find_upload_key(parameters: &Vec<StagedUploadParameter>) -> (key: String)
    ensures
        key@ == upload_key(parameters@),
{
    let mut key = String::new();
    let mut i: usize = 0;
    while i < parameters.len()
        invariant
            i <= parameters.len(),
            key@ == upload_key(parameters@.take(i as int)),
        decreases parameters.len() - i,
    {
        proof {
            assert(parameters@.take(i + 1).drop_last() =~= parameters@.take(i as int));
        }
        if crate::text::same_text(parameters[i].name.as_str(), "key") {
            key = parameters[i].value.clone();
        }
        i = i + 1;
    }
    proof {
        assert(parameters@.take(parameters@.len() as int) =~= parameters@);
    }
    key
}

/// What the caller of the polling loop does after a fetch.
#[derive(Debug)]
pub enum BulkPoll {
    /// Stop, with this result.
    Return(Result<ShopifyBulk, ShopifyAPIError>),
    /// Sleep for [`POLL_INTERVAL_SECS`], then fetch the operation again.
    SleepAndFetch,
}

/// The pause between two fetches of a running operation, in seconds.
pub const POLL_INTERVAL_SECS: u64 = 1;

/// Whether the polling loop goes on after this fetch: only while the fetch
/// succeeds and the operation is there and `Running`.
pub open spec fn keeps_polling(fetched: Result<Option<ShopifyBulk>, ShopifyAPIError>) -> bool {
    fetched matches Ok(Some(bulk)) && bulk.status is Running
}

/// How many fetches the polling loop makes when its `i`-th fetch yields
/// `schedule[i]`: up to and including the first that ends the loop, or all
/// of the schedule where none does.
pub open spec fn fetches_made(schedule: Seq<Result<Option<ShopifyBulk>, ShopifyAPIError>>) -> nat
    decreases schedule.len(),
{
    if schedule.len() == 0 {
        0
    } else if keeps_polling(schedule[0]) {
        1 + fetches_made(schedule.drop_first())
    } else {
        1
    }
}

/// Polling stops at the latest with the first fetch that does not show a
/// running operation: no fetch is made after it.
pub proof fn lemma_no_fetch_after_settled(schedule: Seq<Result<Option<ShopifyBulk>, ShopifyAPIError>>, k: int)
    requires
        0 <= k < schedule.len(),
        !keeps_polling(schedule[k]),
    ensures
        fetches_made(schedule) <= k + 1,
    decreases schedule.len(),
{
    if keeps_polling(schedule[0]) {
        let rest = schedule.drop_first();
        lemma_no_fetch_after_settled(rest, k - 1);
    }
}

/// Every fetch but the last one made showed a running operation.
pub proof fn lemma_fetches_before_last_ran(schedule: Seq<Result<Option<ShopifyBulk>, ShopifyAPIError>>, i: int)
    requires
        0 <= i < fetches_made(schedule) - 1,
    ensures
        i < schedule.len(),
        keeps_polling(schedule[i]),
    decreases schedule.len(),
{
    if schedule.len() > 0 && keeps_polling(schedule[0]) && i > 0 {
        let rest = schedule.drop_first();
        lemma_fetches_before_last_ran(rest, i - 1);
    }
}

/// Termination of the polling loop: when the `k`-th fetch is the first to
/// show a terminal status, after running ones only, it is the last fetch
/// made.
pub proof fn lemma_wait_ends_at_terminal(schedule: Seq<Result<Option<ShopifyBulk>, ShopifyAPIError>>, k: int)
    requires
        0 <= k < schedule.len(),
        forall|i: int| 0 <= i < k ==> keeps_polling(#[trigger] schedule[i]),
        schedule[k] matches Ok(Some(bulk)) && bulk.status.is_terminal(),
    ensures
        fetches_made(schedule) == k + 1,
    decreases k,
{
    if k > 0 {
        let rest = schedule.drop_first();
        lemma_wait_ends_at_terminal(rest, k - 1);
    }
}

/// The path to the payload under `data`, by the name of the operation's
/// field.
pub open spec fn data_path(field: Seq<char>) -> Seq<PathStep> {
    seq![PathStep::Key("data"@), PathStep::Key(field)]
}

/// The path to the payload under `data`, by the name of the operation's
/// field.
pub(crate) fn path_under_data(field: &'static str) -> (path: Vec<ReadJsonTreeSteps<'static>>)
    ensures
        path_view(path@) == data_path(field@),
{
    let mut path: Vec<ReadJsonTreeSteps<'static>> = Vec::new();
    path.push(ReadJsonTreeSteps::Key("data"));
    path.push(ReadJsonTreeSteps::Key(field));
    path
}

impl Shopify {
    /// The request that fetches the bulk operation with this id.
    pub fn get_bulk_by_id(id: &str) -> (request: GraphqlRequest)
        ensures
            request.query@ == BULK_BY_ID_QUERY@,
            request.variables@ == JsonTree::Object(seq![("id"@, JsonTree::String(id@))]),
            path_view(request.json_finder@) == data_path("node"@),
    {
        let mut members: Vec<(String, JsonValue)> = Vec::new();
        members.push(member("id", JsonValue::string(id)));
        let variables = JsonValue::object(members);
        proof {
            assert(variables@->Object_0 =~= seq![("id"@, JsonTree::String(id@))]);
        }
        GraphqlRequest {
            query: String::from_str(BULK_BY_ID_QUERY),
            variables,
            json_finder: path_under_data("node"),
        }
    }

    /// The request that submits `query` as a bulk query: the query is set
    /// into the submission document as it stands.
    pub fn make_bulk_query(query: &str) -> (request: GraphqlRequest)
        ensures
            request.query@ == BULK_QUERY_PREFIX@ + query@ + BULK_QUERY_SUFFIX@,
            request.variables@ == JsonTree::Object(Seq::empty()),
            path_view(request.json_finder@) == data_path("bulkOperationRunQuery"@),
    {
        let mut document = String::from_str(BULK_QUERY_PREFIX);
        document.append(query);
        document.append(BULK_QUERY_SUFFIX);
        let variables = JsonValue::object(Vec::new());
        proof {
            assert(variables@->Object_0 =~= Seq::empty());
        }
        GraphqlRequest {
            query: document,
            variables,
            json_finder: path_under_data("bulkOperationRunQuery"),
        }
    }

    /// The request that submits a bulk mutation over the payload uploaded
    /// under `staged_upload_path`.
    pub fn make_bulk_mutation(mutation_string: &str, staged_upload_path: &str) -> (request:
        GraphqlRequest)
        ensures
            request.query@ == BULK_MUTATION_QUERY@,
            request.variables@ == JsonTree::Object(
                seq![
                    ("mutation"@, JsonTree::String(mutation_string@)),
                    ("stagedUploadPath"@, JsonTree::String(staged_upload_path@)),
                ],
            ),
            path_view(request.json_finder@) == data_path("bulkOperationRunMutation"@),
    {
        let mut members: Vec<(String, JsonValue)> = Vec::new();
        members.push(member("mutation", JsonValue::string(mutation_string)));
        members.push(member("stagedUploadPath", JsonValue::string(staged_upload_path)));
        let variables = JsonValue::object(members);
        proof {
            assert(variables@->Object_0 =~= seq![
                ("mutation"@, JsonTree::String(mutation_string@)),
                ("stagedUploadPath"@, JsonTree::String(staged_upload_path@)),
            ]);
        }
        GraphqlRequest {
            query: String::from_str(BULK_MUTATION_QUERY),
            variables,
            json_finder: path_under_data("bulkOperationRunMutation"),
        }
    }

    /// Reads the result stream of a bulk operation from the body that was
    /// downloaded: every line that is not empty is one JSON document, and
    /// one line that is none fails the whole call, with `NotJson` and the
    /// first such line.
    pub fn download_bulk(body: &str) -> (res: Result<Vec<JsonValue>, ShopifyAPIError>)
        ensures
            match res {
                Ok(values) => {
                    &&& values@.len() == nonempty_lines(body@).len()
                    &&& forall|i: int|
                        0 <= i < values@.len() ==> json_parse(#[trigger] nonempty_lines(body@)[i])
                            == Some(values@[i]@)
                    &&& forall|i: int|
                        0 <= i < values@.len() ==> has_unique_keys((#[trigger] values@[i])@)
                },
                Err(e) => exists|i: int|
                    {
                        &&& 0 <= i < nonempty_lines(body@).len()
                        &&& json_parse(#[trigger] nonempty_lines(body@)[i]) is None
                        &&& forall|j: int|
                            0 <= j < i ==> json_parse(#[trigger] nonempty_lines(body@)[j]) is Some
                        &&& e@ == ShopifyAPIErrorView::NotJson(nonempty_lines(body@)[i])
                    },
            },
    {
        let lines = split_nonempty_lines(body);
        let mut values: Vec<JsonValue> = Vec::new();
        let mut i: usize = 0;
        while i < lines.len()
            invariant
                i <= lines.len(),
                texts_of(lines@) == nonempty_lines(body@),
                values@.len() == i,
                forall|j: int|
                    0 <= j < i ==> json_parse(#[trigger] nonempty_lines(body@)[j]) == Some(
                        values@[j]@,
                    ),
                forall|j: int| 0 <= j < i ==> has_unique_keys((#[trigger] values@[j])@),
            decreases lines.len() - i,
        {
            proof {
                assert(texts_of(lines@)[i as int] == lines@[i as int]@);
            }
            match parse_json(lines[i].as_str()) {
                Ok(value) => {
                    values.push(value);
                },
                Err(_) => {
                    return Err(ShopifyAPIError::NotJson(lines[i].clone()));
                },
            }
            i = i + 1;
        }
        Ok(values)
    }

    /// The request that asks the platform for one upload slot per entry of
    /// `params`.
    pub fn stage_upload_prepare(params: &Vec<StagedUploadsCreateInput>) -> (request: GraphqlRequest)
        ensures
            request.query@ == STAGED_UPLOADS_QUERY@,
            request.variables@ == JsonTree::Object(
                seq![("input"@, JsonTree::Array(inputs_json(params@)))],
            ),
            path_view(request.json_finder@) == data_path("stagedUploadsCreate"@),
    {
        let mut inputs: Vec<JsonValue> = Vec::new();
        let mut i: usize = 0;
        while i < params.len()
            invariant
                i <= params.len(),
                inputs@.len() == i,
                forall|j: int| 0 <= j < i ==> (#[trigger] inputs@[j])@ == params@[j].json_spec(),
            decreases params.len() - i,
        {
            inputs.push(params[i].to_json());
            i = i + 1;
        }
        let input = JsonValue::array(inputs);
        proof {
            assert(input@->Array_0 =~= inputs_json(params@));
        }
        let mut members: Vec<(String, JsonValue)> = Vec::new();
        members.push(member("input", input));
        let variables = JsonValue::object(members);
        proof {
            assert(variables@->Object_0 =~= seq![("input"@, JsonTree::Array(inputs_json(params@)))]);
        }
        GraphqlRequest {
            query: String::from_str(STAGED_UPLOADS_QUERY),
            variables,
            json_finder: path_under_data("stagedUploadsCreate"),
        }
    }

    /// The request that asks for the one upload slot of a bulk mutation's
    /// variables: a POST upload of a file with this name and MIME type, of
    /// no stated size.
    pub fn generate_staged_upload_url(filename: &str, mime_type: &str) -> (request: GraphqlRequest)
        ensures
            request.query@ == STAGED_UPLOADS_QUERY@,
            request.variables@ == JsonTree::Object(
                seq![
                    (
                        "input"@,
                        JsonTree::Array(
                            seq![
                                upload_input_json(
                                    None,
                                    filename@,
                                    Some("POST"@),
                                    mime_type@,
                                    StagedUploadTargetGenerateUploadResourceInput::BulkMutationVariables,
                                ),
                            ],
                        ),
                    ),
                ],
            ),
            path_view(request.json_finder@) == data_path("stagedUploadsCreate"@),
    {
        let staged_upload_input = StagedUploadsCreateInput {
            file_size: None,
            filename: String::from_str(filename),
            http_method: Some(String::from_str("POST")),
            mime_type: String::from_str(mime_type),
            resource: StagedUploadTargetGenerateUploadResourceInput::BulkMutationVariables,
        };
        let mut params: Vec<StagedUploadsCreateInput> = Vec::new();
        params.push(staged_upload_input);
        proof {
            assert(inputs_json(params@) =~= seq![
                upload_input_json(
                    None,
                    filename@,
                    Some("POST"@),
                    mime_type@,
                    StagedUploadTargetGenerateUploadResourceInput::BulkMutationVariables,
                ),
            ]);
        }
        Shopify::stage_upload_prepare(&params)
    }

    /// The upload of `data` to the slot `target`: the documents as lines of
    /// JSON in a file field, behind the slot's own parameters as text
    /// fields, and the key under which the platform will know the payload.
    pub fn stage_upload_json(target: &StagedMediaUploadTarget, data: &Vec<JsonValue>) -> (upload:
        StagedUpload)
        ensures
            upload.form.url@ == target.url@,
            fields_view(upload.form.fields@) == parameters_view(target.parameters@),
            names_of(fields_view(upload.form.fields@)) == names_of(
                parameters_view(target.parameters@),
            ),
            upload.form.file_field@ == FILE_FIELD@,
            upload.form.file_name@ == "bulk_op_vars"@,
            upload.form.mime_type@ == "application/jsonl"@,
            upload.form.content@ == join_lines(json_texts(data@)),
            nonempty_lines(upload.form.content@) == json_texts(data@),
            upload.key@ == upload_key(target.parameters@),
    {
        let form = UploadForm {
            url: target.url.clone(),
            fields: replay_parameters(&target.parameters),
            file_field: String::from_str(FILE_FIELD),
            file_name: String::from_str("bulk_op_vars"),
            mime_type: String::from_str("application/jsonl"),
            content: encode_jsonl(data),
        };
        StagedUpload { form, key: find_upload_key(&target.parameters) }
    }

    /// One step of waiting for a bulk operation, after a fetch by its id.
    ///
    /// A fetch that failed ends the wait with its error; an operation that
    /// is not there ends it with the error `Other("not found")`; one that
    /// is `Running` is fetched again after the pause; one in any other
    /// state is returned at once.
    pub fn wait_for_bulk(fetched: Result<Option<ShopifyBulk>, ShopifyAPIError>) -> (step: BulkPoll)
        ensures
            match fetched {
                Err(e) => step == BulkPoll::Return(Err(e)),
                Ok(None) => step matches BulkPoll::Return(Err(e)) && e@
                    == ShopifyAPIErrorView::Other("not found"@),
                Ok(Some(bulk)) => if bulk.status is Running {
                    step is SleepAndFetch
                } else {
                    step == BulkPoll::Return(Ok(bulk))
                },
            },
            (step is SleepAndFetch) == keeps_polling(fetched),
    {
        match fetched {
            Err(e) => BulkPoll::Return(Err(e)),
            Ok(None) => BulkPoll::Return(
                Err(ShopifyAPIError::Other(String::from_str("not found"))),
            ),
            Ok(Some(bulk)) => {
                if bulk.status == ShopifyBulkStatus::Running {
                    BulkPoll::SleepAndFetch
                } else {
                    BulkPoll::Return(Ok(bulk))
                }
            },
        }
    }
}

} // verus!
