use shopify_api::graphql::bulk_mutation::{
    first_staged_target, AutoStringJSONL, MutationAction, MutationEvent, MutationStage,
    ShopifyStagedUploadsCreate, StagedTargets, StagedUploadHttpMethodType, StagedUploadInput,
    StagedUploadParameter, StagedUploadTargetGenerateUploadResource, RUN_MUTATION_QUERY,
};
use shopify_api::graphql::bulk_query::{
    ShopifyBulk, ShopifyBulkOperationRunQuery, ShopifyBulkStatus, ShopifyUserError,
    STAGED_UPLOADS_QUERY,
};
use shopify_api::json::JsonValue;
use shopify_api::utils::ReadJsonTreeSteps;
use shopify_api::{Shopify, ShopifyAPIError};

fn number(n: u64) -> JsonValue {
    JsonValue::Number(serde_json::Number::from(n))
}

fn text(s: &str) -> JsonValue {
    JsonValue::String(s.to_string())
}

fn object(members: Vec<(&str, JsonValue)>) -> JsonValue {
    JsonValue::Object(members.into_iter().map(|(k, v)| (k.to_string(), v)).collect())
}

fn input() -> StagedUploadInput {
    StagedUploadInput {
        file_size: None,
        filename: String::from("content.jsonl"),
        http_method: Some(StagedUploadHttpMethodType::Post),
        resource: StagedUploadTargetGenerateUploadResource::BulkMutationVariables,
        mime_type: String::from("text/jsonl"),
    }
}

fn slot(url: Option<&str>, key: &str) -> StagedTargets {
    StagedTargets {
        parameters: vec![
            StagedUploadParameter { name: String::from("key"), value: key.to_string() },
            StagedUploadParameter { name: String::from("policy"), value: String::from("p0l1cy") },
        ],
        resource_url: None,
        url: url.map(|u| u.to_string()),
    }
}

fn keys(path: &Vec<ReadJsonTreeSteps<'static>>) -> Vec<String> {
    path.iter()
        .map(|step| match step {
            ReadJsonTreeSteps::Key(k) => k.to_string(),
            ReadJsonTreeSteps::Index(i) => format!("#{}", i),
        })
        .collect()
}

fn answer(slots: Vec<StagedTargets>) -> ShopifyStagedUploadsCreate {
    ShopifyStagedUploadsCreate { staged_targets: Some(slots), user_errors: Some(vec![]) }
}

fn payload() -> AutoStringJSONL {
    AutoStringJSONL::from("{\"input\":{\"id\":1}}\n{\"input\":{\"id\":2}}")
}

#[test]
fn payload_from_text_is_taken_as_it_is() {
    assert_eq!(AutoStringJSONL::from("{\"a\":1}\n{\"a\":2}").value, "{\"a\":1}\n{\"a\":2}");
    assert_eq!(AutoStringJSONL::from(String::from("raw text")).value, "raw text");
    assert_eq!(AutoStringJSONL::from("").value, "");
}

#[test]
fn payload_from_an_array_of_objects_is_one_line_per_item() {
    let array = JsonValue::Array(vec![
        object(vec![("id", number(1))]),
        object(vec![("name", text("two"))]),
        object(vec![]),
    ]);
    assert!(AutoStringJSONL::accepts(&array));
    assert_eq!(AutoStringJSONL::from_json(&array).value, "{\"id\":1}\n{\"name\":\"two\"}\n{}");
    let empty = JsonValue::Array(vec![]);
    assert!(AutoStringJSONL::accepts(&empty));
    assert_eq!(AutoStringJSONL::from_json(&empty).value, "");
}

#[test]
fn payload_is_not_made_from_other_documents() {
    assert!(!AutoStringJSONL::accepts(&object(vec![])));
    assert!(!AutoStringJSONL::accepts(&JsonValue::Null));
    assert!(!AutoStringJSONL::accepts(&JsonValue::Array(vec![object(vec![]), number(1)])));
    assert!(!AutoStringJSONL::accepts(&JsonValue::Array(vec![text("x")])));
}

#[test]
fn staged_input_has_its_json_form() {
    let mut video = input();
    video.file_size = Some(77);
    video.http_method = Some(StagedUploadHttpMethodType::Put);
    video.resource = StagedUploadTargetGenerateUploadResource::ShopImage;
    assert_eq!(
        video.to_json(),
        object(vec![
            ("fileSize", number(77)),
            ("filename", text("content.jsonl")),
            ("httpMethod", text("PUT")),
            ("resource", text("SHOP_IMAGE")),
            ("mimeType", text("text/jsonl")),
        ])
    );
    let mut bare = input();
    bare.http_method = None;
    assert_eq!(bare.to_json().get_key("httpMethod"), Some(&JsonValue::Null));
    assert_eq!(bare.to_json().get_key("fileSize"), Some(&JsonValue::Null));
}

#[test]
fn staged_uploads_create_request() {
    let request = Shopify::staged_uploads_create(&vec![input()]);
    assert_eq!(request.query, STAGED_UPLOADS_QUERY);
    assert!(request.query.contains("userErrors"));
    assert_eq!(
        request.variables,
        object(vec![("input", JsonValue::Array(vec![input().to_json()]))])
    );
    assert_eq!(keys(&request.json_finder), vec!["data", "stagedUploadsCreate"]);
}

#[test]
fn identified_mutation_request() {
    let request = Shopify::make_identified_bulk_mutation("mutation { m }", "https://slot", Some("client-1"));
    assert_eq!(request.query, RUN_MUTATION_QUERY);
    assert_eq!(
        request.variables,
        object(vec![
            ("mutation", text("mutation { m }")),
            ("stagedUploadPath", text("https://slot")),
            ("clientMutationId", text("client-1")),
        ])
    );
    assert_eq!(keys(&request.json_finder), vec!["data", "bulkOperationRunMutation"]);
    let anonymous = Shopify::make_identified_bulk_mutation("m", "p", None);
    assert_eq!(anonymous.variables.get_key("clientMutationId"), Some(&JsonValue::Null));
}

#[test]
fn submit_file_goes_to_the_slot_and_replays_the_parameters() {
    let parameters = slot(None, "k").parameters;
    let form = Shopify::staged_uploads_submit_file_jsonl(
        "https://upload.example/slot-9",
        &parameters,
        AutoStringJSONL::from("line"),
    );
    assert_eq!(form.url, "https://upload.example/slot-9");
    assert_eq!(
        form.fields,
        vec![
            (String::from("key"), String::from("k")),
            (String::from("policy"), String::from("p0l1cy"))
        ]
    );
    assert_eq!(form.file_field, "file");
    assert_eq!(form.file_name, "content.jsonl");
    assert_eq!(form.mime_type, "text/jsonl");
    assert_eq!(form.content, "line");
}

#[test]
fn first_staged_target_takes_the_first_slot_with_its_url() {
    let taken =
        first_staged_target(answer(vec![slot(Some("https://a"), "one"), slot(Some("https://b"), "two")]))
            .unwrap();
    assert_eq!(taken.url.as_deref(), Some("https://a"));
    assert_eq!(taken.parameters[0].value, "one");
}

#[test]
fn first_staged_target_needs_a_slot_with_a_url() {
    let cases = vec![
        ShopifyStagedUploadsCreate { staged_targets: None, user_errors: None },
        answer(vec![]),
        answer(vec![slot(None, "k")]),
        answer(vec![slot(None, "k"), slot(Some("https://second"), "k2")]),
    ];
    for case in cases {
        match first_staged_target(case) {
            Err(ShopifyAPIError::Other(message)) => assert_eq!(message, "no staged target"),
            other => panic!("unexpected: {:?}", other),
        }
    }
}

#[test]
fn first_staged_target_reports_user_errors_first() {
    let case = ShopifyStagedUploadsCreate {
        staged_targets: Some(vec![slot(Some("https://a"), "k")]),
        user_errors: Some(vec![ShopifyUserError {
            field: vec![String::from("input"), String::from("0")],
            message: String::from("Filename is invalid"),
        }]),
    };
    match first_staged_target(case) {
        Err(ShopifyAPIError::Other(message)) => {
            assert_eq!(message, "Error while creating staged upload URL")
        }
        other => panic!("unexpected: {:?}", other),
    }
}

#[test]
fn pipeline_runs_from_slot_to_submitted_job() {
    let (mut run, first) =
        Shopify::prepare_execute_bulk_mutation("mutation { m }", payload(), input(), Some("me"));
    assert_eq!(run.current_stage(), MutationStage::CreatingTarget);
    assert_eq!(first.query, STAGED_UPLOADS_QUERY);
    assert_eq!(first.variables, object(vec![("input", JsonValue::Array(vec![input().to_json()]))]));
    assert_eq!(keys(&first.json_finder), vec!["data", "stagedUploadsCreate"]);

    let targets = vec![slot(Some("https://slot/1"), "one"), slot(Some("https://slot/2"), "two")];
    match run.advance(MutationEvent::TargetsCreated(Ok(answer(targets)))) {
        MutationAction::Upload(form) => {
            assert_eq!(form.url, "https://slot/1");
            assert_eq!(
                form.fields,
                vec![
                    (String::from("key"), String::from("one")),
                    (String::from("policy"), String::from("p0l1cy"))
                ]
            );
            assert_eq!(form.file_field, "file");
            assert_eq!(form.file_name, "content.jsonl");
            assert_eq!(form.mime_type, "text/jsonl");
            assert_eq!(form.content, "{\"input\":{\"id\":1}}\n{\"input\":{\"id\":2}}");
        }
        _ => panic!("an upload was expected"),
    }
    assert_eq!(run.current_stage(), MutationStage::Uploading);

    match run.advance(MutationEvent::FileUploaded(Ok(()))) {
        MutationAction::Call(request) => {
            assert_eq!(request.query, RUN_MUTATION_QUERY);
            assert_eq!(
                request.variables,
                object(vec![
                    ("mutation", text("mutation { m }")),
                    ("stagedUploadPath", text("https://slot/1")),
                    ("clientMutationId", text("me")),
                ])
            );
        }
        _ => panic!("a call was expected"),
    }
    assert_eq!(run.current_stage(), MutationStage::Submitting);

    let submitted = ShopifyBulkOperationRunQuery {
        bulk_operation: Some(ShopifyBulk {
            id: Some(String::from("gid://1")),
            url: None,
            partial_data_url: None,
            status: ShopifyBulkStatus::Created,
            error_code: None,
        }),
        user_errors: None,
    };
    match run.advance(MutationEvent::MutationSubmitted(Ok(submitted))) {
        MutationAction::Finish(Ok(result)) => {
            assert_eq!(result.bulk_operation.unwrap().id.as_deref(), Some("gid://1"))
        }
        _ => panic!("the result was expected"),
    }
    assert_eq!(run.current_stage(), MutationStage::Done);
}

#[test]
fn pipeline_uploads_the_payload_not_the_mutation() {
    let lines = AutoStringJSONL::from_json(&JsonValue::Array(vec![
        object(vec![("id", number(1))]),
        object(vec![("id", number(2))]),
    ]));
    let (mut run, _) = Shopify::prepare_execute_bulk_mutation("mutation { m }", lines, input(), None);
    match run.advance(MutationEvent::TargetsCreated(Ok(answer(vec![slot(Some("https://s"), "k")])))) {
        MutationAction::Upload(form) => assert_eq!(form.content, "{\"id\":1}\n{\"id\":2}"),
        _ => panic!("an upload was expected"),
    }
}

#[test]
fn pipeline_stops_when_no_slot_is_returned() {
    let (mut run, _) = Shopify::prepare_execute_bulk_mutation("m", payload(), input(), None);
    match run.advance(MutationEvent::TargetsCreated(Ok(answer(vec![])))) {
        MutationAction::Finish(Err(ShopifyAPIError::Other(message))) => {
            assert_eq!(message, "no staged target")
        }
        _ => panic!("a failure was expected"),
    }
    assert_eq!(run.current_stage(), MutationStage::Done);
}

#[test]
fn pipeline_stops_before_the_upload_when_the_slot_has_no_url() {
    let (mut run, _) = Shopify::prepare_execute_bulk_mutation("m", payload(), input(), None);
    match run.advance(MutationEvent::TargetsCreated(Ok(answer(vec![slot(None, "k")])))) {
        MutationAction::Finish(Err(ShopifyAPIError::Other(message))) => {
            assert_eq!(message, "no staged target")
        }
        _ => panic!("a failure was expected"),
    }
    assert_eq!(run.current_stage(), MutationStage::Done);
}

#[test]
fn pipeline_stops_on_user_errors() {
    let (mut run, _) = Shopify::prepare_execute_bulk_mutation("m", payload(), input(), None);
    let refused = ShopifyStagedUploadsCreate {
        staged_targets: Some(vec![slot(Some("https://s"), "k")]),
        user_errors: Some(vec![ShopifyUserError { field: vec![], message: String::from("bad") }]),
    };
    match run.advance(MutationEvent::TargetsCreated(Ok(refused))) {
        MutationAction::Finish(Err(ShopifyAPIError::Other(message))) => {
            assert_eq!(message, "Error while creating staged upload URL")
        }
        _ => panic!("a failure was expected"),
    }
    assert_eq!(run.current_stage(), MutationStage::Done);
}

#[test]
fn pipeline_stops_when_the_slot_request_fails() {
    let (mut run, _) = Shopify::prepare_execute_bulk_mutation("m", payload(), input(), None);
    let action = run.advance(MutationEvent::TargetsCreated(Err(ShopifyAPIError::Throttled)));
    assert!(matches!(action, MutationAction::Finish(Err(ShopifyAPIError::Throttled))));
    assert_eq!(run.current_stage(), MutationStage::Done);
}

#[test]
fn pipeline_stops_when_the_upload_fails() {
    let (mut run, _) = Shopify::prepare_execute_bulk_mutation("m", payload(), input(), None);
    let upload = run.advance(MutationEvent::TargetsCreated(Ok(answer(vec![slot(Some("u"), "k")]))));
    assert!(matches!(upload, MutationAction::Upload(_)));
    let action = run.advance(MutationEvent::FileUploaded(Err(ShopifyAPIError::ConnectionFailed)));
    assert!(matches!(action, MutationAction::Finish(Err(ShopifyAPIError::ConnectionFailed))));
    assert_eq!(run.current_stage(), MutationStage::Done);
}

#[test]
fn pipeline_hands_an_unreadable_response_back() {
    let (mut run, _) = Shopify::prepare_execute_bulk_mutation("m", payload(), input(), None);
    let action = run.advance(MutationEvent::TargetsCreated(Err(ShopifyAPIError::ResponseBroken)));
    assert!(matches!(action, MutationAction::Finish(Err(ShopifyAPIError::ResponseBroken))));
}

#[test]
fn pipeline_hands_a_failed_submission_back() {
    let (mut run, _) = Shopify::prepare_execute_bulk_mutation("m", payload(), input(), None);
    run.advance(MutationEvent::TargetsCreated(Ok(answer(vec![slot(Some("u"), "k")]))));
    run.advance(MutationEvent::FileUploaded(Ok(())));
    let failure = ShopifyAPIError::NotWantedJsonFormat(String::from("{}"));
    match run.advance(MutationEvent::MutationSubmitted(Err(failure))) {
        MutationAction::Finish(Err(ShopifyAPIError::NotWantedJsonFormat(document))) => {
            assert_eq!(document, "{}")
        }
        _ => panic!("the failure was expected"),
    }
}
