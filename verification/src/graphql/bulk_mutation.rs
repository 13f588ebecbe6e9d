//! Bulk mutations: the staged upload of the mutation's input and the
//! pipeline that leads from an upload slot to the submitted job.

use crate::graphql::bulk_query::{
    data_path, fields_view, has_user_errors, names_of, parameters_view, path_under_data,
    replay_parameters, ShopifyBulk, ShopifyBulkOperationRunQuery, ShopifyUserError, UploadForm,
    FILE_FIELD, STAGED_UPLOADS_QUERY,
};
pub use crate::graphql::bulk_query::StagedUploadParameter;
use crate::graphql::GraphqlRequest;
use crate::json::{json_number, json_text, member, number_from, JsonTree, JsonValue};
use crate::text::{join_lines, nonempty_lines, optional_string, optional_text, split_lines};
use crate::utils::{path_view, PathStep, ReadJsonTreeSteps};
use crate::{Shopify, ShopifyAPIError, ShopifyAPIErrorView};
use vstd::prelude::*;

verus! {

/// The document that submits a bulk mutation.
pub const RUN_MUTATION_QUERY: &'static str = r#"mutation bulkOperationRunMutation($mutation: String!, $stagedUploadPath: String!) {
            bulkOperationRunMutation(mutation: $mutation, stagedUploadPath: $stagedUploadPath) {
              bulkOperation {
                id
                url
                partialDataUrl
                status
              }
              userErrors {
                field
                message
              }
            }
          }"#;

/// The payload of a bulk mutation as text: one JSON document per line.
pub struct AutoStringJSONL {
    pub value: String,
}

/// Whether a document is an array whose items are all objects.
pub open spec fn is_object_array(tree: JsonTree) -> bool {
    tree matches JsonTree::Array(items) && forall|i: int|
        0 <= i < items.len() ==> (#[trigger] items[i]) is Object
}

/// The compact JSON text of each document of a list.
pub open spec fn tree_texts(items: Seq<JsonTree>) -> Seq<Seq<char>> {
    Seq::new(items.len(), |i: int| json_text(items[i]))
}

impl AutoStringJSONL {
    /// Whether `value` is an array of objects, the one shape of document
    /// that can be turned into lines.
    pub fn accepts(value: &JsonValue) -> (res: bool)
        ensures
            res == is_object_array(value@),
    {
        match value {
            JsonValue::Array(items) => {
                proof {
                    crate::json::lemma_array_view(items);
                }
                let mut i: usize = 0;
                while i < items.len()
                    invariant
                        i <= items.len(),
                        value@ is Array,
                        value@->Array_0.len() == items@.len(),
                        forall|j: int|
                            0 <= j < items@.len() ==> (#[trigger] value@->Array_0[j])
                                == items@[j]@,
                        forall|j: int| 0 <= j < i ==> (#[trigger] value@->Array_0[j]) is Object,
                    decreases items.len() - i,
                {
                    match &items[i] {
                        JsonValue::Object(_) => {},
                        _ => {
                            proof {
                                assert(!(value@->Array_0[i as int] is Object));
                            }
                            return false;
                        },
                    }
                    i = i + 1;
                }
                true
            },
            _ => false,
        }
    }

    /// The lines of an array of objects: each item as compact JSON, joined
    /// by line feeds.
    pub fn from_json(value: &JsonValue) -> (res: AutoStringJSONL)
        requires
            is_object_array(value@),
        ensures
            res.value@ == join_lines(tree_texts(value@->Array_0)),
            nonempty_lines(res.value@) == tree_texts(value@->Array_0),
            value@->Array_0.len() > 0 ==> split_lines(res.value@) == tree_texts(value@->Array_0),
    {
        match value {
            JsonValue::Array(items) => {
                proof {
                    crate::json::lemma_array_view(items);
                    assert(crate::graphql::bulk_query::json_texts(items@) =~= tree_texts(
                        value@->Array_0,
                    ));
                }
                AutoStringJSONL { value: crate::graphql::bulk_query::encode_jsonl(items) }
            },
            _ => AutoStringJSONL { value: String::new() },
        }
    }
}

impl From<String> for AutoStringJSONL {
    fn from(value: String) -> (res: AutoStringJSONL) {
        AutoStringJSONL { value }
    }
}

impl vstd::std_specs::convert::FromSpecImpl<String> for AutoStringJSONL {
    open spec fn obeys_from_spec() -> bool {
        true
    }

    open spec fn from_spec(value: String) -> AutoStringJSONL {
        AutoStringJSONL { value }
    }
}

impl<'a> From<&'a str> for AutoStringJSONL {
    fn from(value: &'a str) -> (res: AutoStringJSONL)
        ensures
            res.value@ == value@,
    {
        AutoStringJSONL { value: String::from_str(value) }
    }
}

impl<'a> vstd::std_specs::convert::FromSpecImpl<&'a str> for AutoStringJSONL {
    open spec fn obeys_from_spec() -> bool {
        false
    }

    open spec fn from_spec(value: &'a str) -> AutoStringJSONL {
        arbitrary()
    }
}

/// The kind of resource that an upload slot is asked for.
#[derive(Debug, Clone, Copy)]
pub enum StagedUploadTargetGenerateUploadResource {
    BulkMutationVariables,
    CollectionImage,
    File,
    Image,
    Model3D,
    ProductImage,
    ReturnLabel,
    ShopImage,
    UrlRedirectImport,
    Video,
}

impl StagedUploadTargetGenerateUploadResource {
    /// The name of the kind on the wire.
    pub open spec fn wire_name(self) -> Seq<char> {
        match self {
            Self::BulkMutationVariables => "BULK_MUTATION_VARIABLES"@,
            Self::CollectionImage => "COLLECTION_IMAGE"@,
            Self::File => "FILE"@,
            Self::Image => "IMAGE"@,
            Self::Model3D => "MODEL_3D"@,
            Self::ProductImage => "PRODUCT_IMAGE"@,
            Self::ReturnLabel => "RETURN_LABEL"@,
            Self::ShopImage => "SHOP_IMAGE"@,
            Self::UrlRedirectImport => "URL_REDIRECT_IMPORT"@,
            Self::Video => "VIDEO"@,
        }
    }

    /// The name of the kind on the wire.
    pub fn as_wire(&self) -> (name: &'static str)
        ensures
            name@ == self.wire_name(),
    {
        match self {
            Self::BulkMutationVariables => "BULK_MUTATION_VARIABLES",
            Self::CollectionImage => "COLLECTION_IMAGE",
            Self::File => "FILE",
            Self::Image => "IMAGE",
            Self::Model3D => "MODEL_3D",
            Self::ProductImage => "PRODUCT_IMAGE",
            Self::ReturnLabel => "RETURN_LABEL",
            Self::ShopImage => "SHOP_IMAGE",
            Self::UrlRedirectImport => "URL_REDIRECT_IMPORT",
            Self::Video => "VIDEO",
        }
    }
}

/// The HTTP method of an upload.
#[derive(Debug, Clone, Copy)]
pub enum StagedUploadHttpMethodType {
    Post,
    Put,
}

impl StagedUploadHttpMethodType {
    /// The name of the method on the wire.
    pub open spec fn wire_name(self) -> Seq<char> {
        match self {
            Self::Post => "POST"@,
            Self::Put => "PUT"@,
        }
    }

    /// The name of the method on the wire.
    pub fn as_wire(&self) -> (name: &'static str)
        ensures
            name@ == self.wire_name(),
    {
        match self {
            Self::Post => "POST",
            Self::Put => "PUT",
        }
    }
}

/// What is asked of the platform for one upload slot.
#[derive(Debug)]
pub struct StagedUploadInput {
    /// The size of the file in bytes; the platform wants it for videos and
    /// 3D models.
    pub file_size: Option<u64>,
    pub filename: String,
    pub http_method: Option<StagedUploadHttpMethodType>,
    pub resource: StagedUploadTargetGenerateUploadResource,
    pub mime_type: String,
}

impl StagedUploadInput {
    /// The JSON form of this request.
    pub open spec fn json_spec(&self) -> JsonTree {
        JsonTree::Object(
            seq![
                (
                    "fileSize"@,
                    match self.file_size {
                        Some(n) => JsonTree::Number(json_number(n)),
                        None => JsonTree::Null,
                    },
                ),
                ("filename"@, JsonTree::String(self.filename@)),
                (
                    "httpMethod"@,
                    match self.http_method {
                        Some(m) => JsonTree::String(m.wire_name()),
                        None => JsonTree::Null,
                    },
                ),
                ("resource"@, JsonTree::String(self.resource.wire_name())),
                ("mimeType"@, JsonTree::String(self.mime_type@)),
            ],
        )
    }

    /// The JSON form of this request, as it goes into the variables of the
    /// call.
    pub fn to_json(&self) -> (res: JsonValue)
        ensures
            res@ == self.json_spec(),
    {
        let file_size = match self.file_size {
            Some(n) => JsonValue::Number(number_from(n)),
            None => JsonValue::Null,
        };
        let http_method = match &self.http_method {
            Some(m) => JsonValue::string(m.as_wire()),
            None => JsonValue::Null,
        };
        let mut members: Vec<(String, JsonValue)> = Vec::new();
        members.push(member("fileSize", file_size));
        members.push(member("filename", JsonValue::string(self.filename.as_str())));
        members.push(member("httpMethod", http_method));
        members.push(member("resource", JsonValue::string(self.resource.as_wire())));
        members.push(member("mimeType", JsonValue::string(self.mime_type.as_str())));
        let res = JsonValue::object(members);
        proof {
            assert(res@->Object_0 =~= self.json_spec()->Object_0);
        }
        res
    }
}

/// An upload slot as the platform hands it out.
#[derive(Debug)]
pub struct StagedTargets {
    pub parameters: Vec<StagedUploadParameter>,
    pub resource_url: Option<String>,
    pub url: Option<String>,
}

/// The answer to a request for the upload slots of a bulk mutation.
#[derive(Debug)]
pub struct ShopifyStagedUploadsCreate {
    pub staged_targets: Option<Vec<StagedTargets>>,
    pub user_errors: Option<Vec<ShopifyUserError>>,
}

/// The slot that an answer offers for the upload: the first one listed,
/// where the answer carries no user errors and that slot has a URL.
pub open spec fn offered_slot(answer: ShopifyStagedUploadsCreate) -> Option<StagedTargets> {
    if has_user_errors(answer.user_errors) {
        None
    } else {
        match answer.staged_targets {
            Some(targets) => if targets@.len() > 0 && targets@[0].url is Some {
                Some(targets@[0])
            } else {
                None
            },
            None => None,
        }
    }
}

/// What an answer without a usable slot is reported as: the user errors
/// where there are any, else the lack of a slot.
pub open spec fn slot_failure(answer: ShopifyStagedUploadsCreate) -> ShopifyAPIErrorView {
    if has_user_errors(answer.user_errors) {
        ShopifyAPIErrorView::Other("Error while creating staged upload URL"@)
    } else {
        ShopifyAPIErrorView::Other("no staged target"@)
    }
}

/// Takes the upload slot out of the platform's answer: the first slot
/// listed. User errors come first; an answer without any slot, or whose
/// first slot names no URL, has no staged target.
pub fn first_staged_target(answer: ShopifyStagedUploadsCreate) -> (res: Result<
    StagedTargets,
    ShopifyAPIError,
>)
    ensures
        match res {
            Ok(target) => offered_slot(answer) == Some(target),
            Err(e) => offered_slot(answer) is None && e@ == slot_failure(answer),
        },
{
    if let Some(errors) = &answer.user_errors {
        if errors.len() > 0 {
            return Err(
                ShopifyAPIError::Other(String::from_str("Error while creating staged upload URL")),
            );
        }
    }
    if let Some(mut targets) = answer.staged_targets {
        if targets.len() > 0 {
            let target = targets.swap_remove(0);
            if target.url.is_some() {
                return Ok(target);
            }
        }
    }
    Err(ShopifyAPIError::Other(String::from_str("no staged target")))
}

/// The answer to the submission of a bulk mutation.
#[derive(Debug)]
pub struct ShopifyBulkOperationRunMutation {
    pub bulk_operation: Option<ShopifyBulk>,
    pub user_errors: Option<Vec<ShopifyUserError>>,
}

/// The JSON forms of a list of requests for upload slots.
pub open spec fn staged_inputs_json(args: Seq<StagedUploadInput>) -> Seq<JsonTree> {
    Seq::new(args.len(), |i: int| args[i].json_spec())
}

/// The variables of the call that submits a bulk mutation.
pub open spec fn run_mutation_variables(
    mutation: Seq<char>,
    staged_upload_path: Seq<char>,
    client_identifier: Option<Seq<char>>,
) -> JsonTree {
    JsonTree::Object(
        seq![
            ("mutation"@, JsonTree::String(mutation)),
            ("stagedUploadPath"@, JsonTree::String(staged_upload_path)),
            (
                "clientMutationId"@,
                match client_identifier {
                    Some(id) => JsonTree::String(id),
                    None => JsonTree::Null,
                },
            ),
        ],
    )
}

/// The path to the answer of a submitted bulk mutation.
pub open spec fn run_mutation_path() -> Seq<PathStep> {
    seq![PathStep::Key("data"@), PathStep::Key("bulkOperationRunMutation"@)]
}

impl Shopify {
    /// The request that asks the platform for one upload slot per entry of
    /// `args`.
    pub fn staged_uploads_create(args: &Vec<StagedUploadInput>) -> (request: GraphqlRequest)
        ensures
            request.query@ == STAGED_UPLOADS_QUERY@,
            request.variables@ == JsonTree::Object(
                seq![("input"@, JsonTree::Array(staged_inputs_json(args@)))],
            ),
            path_view(request.json_finder@) == data_path("stagedUploadsCreate"@),
    {
        let mut inputs: Vec<JsonValue> = Vec::new();
        let mut i: usize = 0;
        while i < args.len()
            invariant
                i <= args.len(),
                inputs@.len() == i,
                forall|j: int| 0 <= j < i ==> (#[trigger] inputs@[j])@ == args@[j].json_spec(),
            decreases args.len() - i,
        {
            inputs.push(args[i].to_json());
            i = i + 1;
        }
        let input = JsonValue::array(inputs);
        proof {
            assert(input@->Array_0 =~= staged_inputs_json(args@));
        }
        let mut members: Vec<(String, JsonValue)> = Vec::new();
        members.push(member("input", input));
        let variables = JsonValue::object(members);
        proof {
            assert(variables@->Object_0 =~= seq![
                ("input"@, JsonTree::Array(staged_inputs_json(args@))),
            ]);
        }
        GraphqlRequest {
            query: String::from_str(STAGED_UPLOADS_QUERY),
            variables,
            json_finder: path_under_data("stagedUploadsCreate"),
        }
    }

    /// The request that submits a bulk mutation over the payload uploaded
    /// under `staged_upload_path`, with the caller's own identifier for the
    /// submission where there is one.
    pub fn make_identified_bulk_mutation(
        mutation: &str,
        staged_upload_path: &str,
        client_identifier: Option<&str>,
    ) -> (request: GraphqlRequest)
        ensures
            request.query@ == RUN_MUTATION_QUERY@,
            request.variables@ == run_mutation_variables(
                mutation@,
                staged_upload_path@,
                optional_text(client_identifier),
            ),
            path_view(request.json_finder@) == run_mutation_path(),
    {
        let mut members: Vec<(String, JsonValue)> = Vec::new();
        members.push(member("mutation", JsonValue::string(mutation)));
        members.push(member("stagedUploadPath", JsonValue::string(staged_upload_path)));
        members.push(member("clientMutationId", JsonValue::optional_string(client_identifier)));
        let variables = JsonValue::object(members);
        proof {
            assert(variables@->Object_0 =~= run_mutation_variables(
                mutation@,
                staged_upload_path@,
                optional_text(client_identifier),
            )->Object_0);
        }
        let mut json_finder: Vec<ReadJsonTreeSteps<'static>> = Vec::new();
        json_finder.push(ReadJsonTreeSteps::Key("data"));
        json_finder.push(ReadJsonTreeSteps::Key("bulkOperationRunMutation"));
        GraphqlRequest { query: String::from_str(RUN_MUTATION_QUERY), variables, json_finder }
    }

    /// The upload of the payload `content` to the slot at `url`, behind the
    /// slot's own parameters as text fields.
    pub fn staged_uploads_submit_file_jsonl(
        url: &str,
        parameters: &Vec<StagedUploadParameter>,
        content: AutoStringJSONL,
    ) -> (form: UploadForm)
        ensures
            form.url@ == url@,
            fields_view(form.fields@) == parameters_view(parameters@),
            names_of(fields_view(form.fields@)) == names_of(parameters_view(parameters@)),
            form.file_field@ == FILE_FIELD@,
            form.file_name@ == "content.jsonl"@,
            form.mime_type@ == "text/jsonl"@,
            form.content == content.value,
    {
        UploadForm {
            url: String::from_str(url),
            fields: replay_parameters(parameters),
            file_field: String::from_str(FILE_FIELD),
            file_name: String::from_str("content.jsonl"),
            mime_type: String::from_str("text/jsonl"),
            content: content.value,
        }
    }
}

/// Where a bulk mutation stands on its way from upload slot to job.
#[derive(Debug, Clone, Copy, PartialEq, Eq, Structural)]
pub enum MutationStage {
    /// The upload slot was asked for.
    CreatingTarget,
    /// The payload is on its way into the slot.
    Uploading,
    /// The job was submitted.
    Submitting,
    /// The pipeline is over.
    Done,
}

/// What the remote side answered to the last action of the pipeline.
pub enum MutationEvent {
    /// The answer to the request for an upload slot.
    TargetsCreated(Result<ShopifyStagedUploadsCreate, ShopifyAPIError>),
    /// The outcome of the upload.
    FileUploaded(Result<(), ShopifyAPIError>),
    /// The answer to the submission of the job.
    MutationSubmitted(Result<ShopifyBulkOperationRunQuery, ShopifyAPIError>),
}

/// What the caller of the pipeline does next.
pub enum MutationAction {
    /// Perform this GraphQL call and report its answer.
    Call(GraphqlRequest),
    /// Perform this upload and report its outcome.
    Upload(UploadForm),
    /// Stop, with this result.
    Finish(Result<ShopifyBulkOperationRunQuery, ShopifyAPIError>),
}

/// One run of the bulk mutation pipeline: slot, upload, submission.
///
/// A failure of the first or the second step ends the run at once, so that
/// no job is submitted; nothing is undone on the remote side.
pub struct BulkMutationRun {
    stage: MutationStage,
    mutation: String,
    payload: String,
    client_identifier: Option<String>,
    staged_upload_path: Option<String>,
}

impl BulkMutationRun {
    /// While the upload is under way, the URL of its slot is known.
    #[verifier::type_invariant]
    spec fn slot_is_known(&self) -> bool {
        self.stage is Uploading ==> self.staged_upload_path is Some
    }

    /// The step whose answer the run waits for.
    pub closed spec fn stage(&self) -> MutationStage {
        self.stage
    }

    /// The mutation that the job will run.
    pub closed spec fn mutation(&self) -> Seq<char> {
        self.mutation@
    }

    /// The payload that is uploaded for the job.
    pub closed spec fn payload(&self) -> Seq<char> {
        self.payload@
    }

    /// The caller's own identifier for the submission.
    pub closed spec fn client_identifier(&self) -> Option<Seq<char>> {
        optional_string(self.client_identifier)
    }

    /// The URL of the slot taken, once there is one.
    pub closed spec fn staged_upload_path(&self) -> Option<Seq<char>> {
        optional_string(self.staged_upload_path)
    }

    /// Whether `event` is the answer that the run waits for.
    pub open spec fn expects(&self, event: MutationEvent) -> bool {
        match event {
            MutationEvent::TargetsCreated(_) => self.stage() is CreatingTarget,
            MutationEvent::FileUploaded(_) => self.stage() is Uploading,
            MutationEvent::MutationSubmitted(_) => self.stage() is Submitting,
        }
    }

    /// The step whose answer the run waits for.
    pub fn current_stage(&self) -> (stage: MutationStage)
        ensures
            stage == self.stage(),
    {
        self.stage
    }

    /// Takes the answer to the last action and decides the next one.
    ///
    /// - An error at any step ends the run with that error.
    /// - An answer to the request for a slot that carries user errors ends
    ///   it with `Other("Error while creating staged upload URL")`; one
    ///   without any slot, or whose first slot names no URL, with
    ///   `Other("no staged target")`.
    /// - The first slot listed is the one used: the payload is uploaded to
    ///   its URL, with its parameters replayed as form fields.
    /// - After the upload the job is submitted with the slot's URL as the
    ///   path of the staged payload, and the answer to that is the result.
    pub fn advance(&mut self, event: MutationEvent) -> (action: MutationAction)
        requires
            old(self).expects(event),
        ensures
            final(self).mutation() == old(self).mutation(),
            final(self).payload() == old(self).payload(),
            final(self).client_identifier() == old(self).client_identifier(),
            match event {
                MutationEvent::TargetsCreated(Err(e)) => {
                    &&& action == MutationAction::Finish(Err(e))
                    &&& final(self).stage() is Done
                },
                MutationEvent::TargetsCreated(Ok(answer)) => match offered_slot(answer) {
                    None => {
                        &&& action matches MutationAction::Finish(Err(e))
                        &&& e@ == slot_failure(answer)
                        &&& final(self).stage() is Done
                    },
                    Some(slot) => {
                        &&& action matches MutationAction::Upload(form)
                        &&& form.url@ == slot.url->0@
                        &&& fields_view(form.fields@) == parameters_view(slot.parameters@)
                        &&& names_of(fields_view(form.fields@)) == names_of(
                            parameters_view(slot.parameters@),
                        )
                        &&& form.file_field@ == FILE_FIELD@
                        &&& form.file_name@ == "content.jsonl"@
                        &&& form.mime_type@ == "text/jsonl"@
                        &&& form.content@ == old(self).payload()
                        &&& final(self).stage() is Uploading
                        &&& final(self).staged_upload_path() == Some(slot.url->0@)
                    },
                },
                MutationEvent::FileUploaded(Err(e)) => {
                    &&& action == MutationAction::Finish(Err(e))
                    &&& final(self).stage() is Done
                },
                MutationEvent::FileUploaded(Ok(_)) => {
                    &&& old(self).staged_upload_path() is Some
                    &&& action matches MutationAction::Call(request)
                    &&& request.query@ == RUN_MUTATION_QUERY@
                    &&& request.variables@ == run_mutation_variables(
                        old(self).mutation(),
                        old(self).staged_upload_path()->0,
                        old(self).client_identifier(),
                    )
                    &&& path_view(request.json_finder@) == run_mutation_path()
                    &&& final(self).stage() is Submitting
                },
                MutationEvent::MutationSubmitted(answer) => {
                    &&& action == MutationAction::Finish(answer)
                    &&& final(self).stage() is Done
                },
            },
    {
        proof {
            use_type_invariant(&*self);
        }
        match event {
            MutationEvent::TargetsCreated(Err(e)) => {
                self.stage = MutationStage::Done;
                MutationAction::Finish(Err(e))
            },
            MutationEvent::TargetsCreated(Ok(answer)) => {
                match first_staged_target(answer) {
                    Err(e) => {
                        self.stage = MutationStage::Done;
                        MutationAction::Finish(Err(e))
                    },
                    Ok(slot) => {
                        let url = match &slot.url {
                            Some(url) => url.clone(),
                            None => String::new(),
                        };
                        let content = AutoStringJSONL { value: self.payload.clone() };
                        let form = Shopify::staged_uploads_submit_file_jsonl(
                            url.as_str(),
                            &slot.parameters,
                            content,
                        );
                        self.staged_upload_path = Some(url);
                        self.stage = MutationStage::Uploading;
                        MutationAction::Upload(form)
                    },
                }
            },
            MutationEvent::FileUploaded(Err(e)) => {
                self.stage = MutationStage::Done;
                MutationAction::Finish(Err(e))
            },
            MutationEvent::FileUploaded(Ok(_)) => {
                let client_identifier = match &self.client_identifier {
                    Some(id) => Some(id.as_str()),
                    None => None,
                };
                let staged_upload_path = match &self.staged_upload_path {
                    Some(path) => path.as_str(),
                    None => "",
                };
                let request = Shopify::make_identified_bulk_mutation(
                    self.mutation.as_str(),
                    staged_upload_path,
                    client_identifier,
                );
                self.stage = MutationStage::Submitting;
                MutationAction::Call(request)
            },
            MutationEvent::MutationSubmitted(answer) => {
                self.stage = MutationStage::Done;
                MutationAction::Finish(answer)
            },
        }
    }
}

impl Shopify {
    /// Starts the pipeline of a bulk mutation over `payload`: the run, and
    /// its first action, the request for exactly one upload slot.
    pub fn prepare_execute_bulk_mutation(
        mutation: &str,
        payload: AutoStringJSONL,
        staged_upload_inputs: StagedUploadInput,
        client_identifier: Option<&str>,
    ) -> (start: (BulkMutationRun, GraphqlRequest))
        ensures
            start.0.stage() is CreatingTarget,
            start.0.mutation() == mutation@,
            start.0.payload() == payload.value@,
            start.0.client_identifier() == optional_text(client_identifier),
            start.0.staged_upload_path() is None,
            start.1.query@ == STAGED_UPLOADS_QUERY@,
            start.1.variables@ == JsonTree::Object(
                seq![("input"@, JsonTree::Array(seq![staged_upload_inputs.json_spec()]))],
            ),
            path_view(start.1.json_finder@) == data_path("stagedUploadsCreate"@),
    {
        let run = BulkMutationRun {
            stage: MutationStage::CreatingTarget,
            mutation: String::from_str(mutation),
            payload: payload.value,
            client_identifier: match client_identifier {
                Some(id) => Some(String::from_str(id)),
                None => None,
            },
            staged_upload_path: None,
        };
        let mut args: Vec<StagedUploadInput> = Vec::new();
        args.push(staged_upload_inputs);
        proof {
            assert(staged_inputs_json(args@) =~= seq![staged_upload_inputs.json_spec()]);
        }
        (run, Shopify::staged_uploads_create(&args))
    }
}

} // verus!
