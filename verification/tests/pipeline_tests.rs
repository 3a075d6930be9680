use backup_tags::commands::{
    create_bucket_invocation, endpoint_override, list_objects_invocation, put_tagging_invocation,
    EndpointOverride,
};
use backup_tags::listing::{list_object_keys, ListParseError};
use backup_tags::pipeline::{
    distributed_plan, distributed_start, distributed_step, streamed_plan, streamed_start,
    streamed_step, DistributedAction, DistributedState, ProcessOutcome, StreamedAction,
    StreamedState,
};

// 2025-07-01T04:30:00Z as a UTC timestamp.
const NOW: i64 = 1751328000 + 4 * 3600 + 30 * 60;

fn outcome(success: bool, stdout: &str, stderr: &str) -> ProcessOutcome {
    ProcessOutcome {
        success,
        stdout: stdout.as_bytes().to_vec(),
        stderr: String::from(stderr),
    }
}

fn some_endpoint() -> Option<EndpointOverride> {
    endpoint_override(
        String::from("http://store.local:9000"),
        String::from("id"),
        String::from("secret"),
    )
}

#[test]
fn blank_override_fields_mean_ambient_credentials() {
    assert!(endpoint_override(String::new(), String::new(), String::new()).is_none());
    assert!(endpoint_override(
        String::from("http://store.local"),
        String::from("  "),
        String::from("secret"),
    )
    .is_none());
    assert!(endpoint_override(
        String::from(" \t\n"),
        String::from("id"),
        String::from("secret"),
    )
    .is_none());
    assert!(some_endpoint().is_some());
}

#[test]
fn default_endpoint_issues_plain_commands() {
    let e = None;
    let create = create_bucket_invocation("/opt", "backups", &e);
    assert_eq!(create.program, "/opt/bin/aws");
    assert_eq!(
        create.args,
        vec!["s3api", "create-bucket", "--bucket", "backups", "--output", "json"]
    );
    assert!(create.env.is_empty());

    let list = list_objects_invocation("/opt", "backups", "tikv/x", &e);
    assert_eq!(
        list.args,
        vec!["s3api", "list-objects", "--bucket", "backups", "--prefix", "tikv/x", "--output", "json"]
    );
    assert!(list.env.is_empty());

    let tag = put_tagging_invocation("/opt", "backups", "k", "{\"TagSet\":[]}", &e);
    assert_eq!(
        tag.args,
        vec!["s3api", "put-object-tagging", "--bucket", "backups", "--tagging", "{\"TagSet\":[]}", "--key", "k"]
    );
    assert!(tag.env.is_empty());
}

#[test]
fn endpoint_override_adds_url_and_credentials() {
    let e = some_endpoint();
    let create = create_bucket_invocation("/opt", "backups", &e);
    assert_eq!(
        create.args,
        vec![
            "s3api",
            "create-bucket",
            "--endpoint-url",
            "http://store.local:9000",
            "--bucket",
            "backups",
            "--output",
            "json"
        ]
    );
    assert_eq!(
        create.env,
        vec![
            (String::from("AWS_ACCESS_KEY_ID"), String::from("id")),
            (String::from("AWS_SECRET_ACCESS_KEY"), String::from("secret")),
        ]
    );
}

#[test]
fn streamed_plan_builds_key_and_pipeline() {
    let plan = streamed_plan(
        NOW,
        "/opt",
        "backups",
        "ns",
        "db",
        "db.local:8000",
        "pw",
        "{\"TagSet\":[]}",
        "+%Y-%m-%d.%H-%M",
        None,
    )
    .unwrap();
    assert_eq!(plan.storage_key, "surrealdb/ns/2025-07-01.04-30.zst");
    assert_eq!(plan.upload.program, "/opt/bin/aws");
    assert_eq!(
        plan.upload.args,
        vec!["s3", "cp", "-", "s3://backups/surrealdb/ns/2025-07-01.04-30.zst"]
    );
    assert_eq!(plan.compress.program, "/opt/bin/zstd");
    assert_eq!(
        plan.compress.args,
        vec!["--force", "--stdout", "--adapt", "--rm", "-"]
    );
    assert_eq!(plan.export.program, "/opt/bin/surreal");
    assert_eq!(
        plan.export.args,
        vec![
            "export",
            "-e",
            "http://db.local:8000",
            "-u",
            "root",
            "-p",
            "pw",
            "--namespace",
            "ns",
            "--database",
            "db",
            "-"
        ]
    );
    assert_eq!(
        plan.tagging.args,
        vec![
            "s3api",
            "put-object-tagging",
            "--bucket",
            "backups",
            "--tagging",
            "{\"TagSet\":[]}",
            "--key",
            "surrealdb/ns/2025-07-01.04-30.zst"
        ]
    );
}

#[test]
fn distributed_plan_builds_key_and_backup_command() {
    let plan = distributed_plan(NOW, "/opt", "backups", "pd.local:2379", "+%Y-%m-%d.%H-%M", None)
        .unwrap();
    assert_eq!(plan.storage_key, "tikv/+2025-07-01.04-30");
    assert_eq!(plan.backup.program, "/opt/bin/tikv-br");
    assert_eq!(
        plan.backup.args,
        vec![
            "backup",
            "raw",
            "--pd=pd.local:2379",
            "--send-credentials-to-tikv=false",
            "--storage=s3://backups/tikv/+2025-07-01.04-30"
        ]
    );
    let plan = distributed_plan(
        NOW,
        "/opt",
        "backups",
        "pd.local:2379",
        "+%Y-%m-%d.%H-%M",
        some_endpoint(),
    )
    .unwrap();
    assert_eq!(
        plan.backup.args,
        vec![
            "backup",
            "raw",
            "--pd=pd.local:2379",
            "--send-credentials-to-tikv=true",
            "--s3.endpoint=http://store.local:9000",
            "--storage=s3://backups/tikv/+2025-07-01.04-30?access-key=id&secret-access-key=secret"
        ]
    );
}

#[test]
fn rejected_timestamp_pattern_is_reported() {
    assert!(streamed_plan(
        NOW,
        "/opt",
        "b",
        "ns",
        "db",
        "a",
        "p",
        "{}",
        "%Q",
        None,
    )
    .is_err());
}

#[test]
fn bucket_failure_does_not_stop_streamed_backup() {
    let state = streamed_start();
    let (state, action) = streamed_step(state, outcome(false, "", "denied"));
    assert_eq!(state, StreamedState::Piping);
    assert_eq!(action, StreamedAction::RunPipeline);
}

#[test]
fn bucket_failure_does_not_stop_distributed_backup() {
    let state = distributed_start();
    let (state, action) = distributed_step(state, outcome(false, "", "denied"));
    assert_eq!(state, DistributedState::BackingUp);
    assert_eq!(action, DistributedAction::RunBackup);
}

#[test]
fn streamed_pipeline_failure_skips_tagging() {
    let (state, action) = streamed_step(StreamedState::Piping, outcome(false, "", "broken pipe"));
    match state {
        StreamedState::Failed { error } => {
            let text = format!("{:?}", error);
            assert!(text.contains("broken pipe"));
        }
        other => panic!("unexpected state: {:?}", other),
    }
    assert_eq!(action, StreamedAction::Finish);
}

#[test]
fn streamed_run_tags_exactly_one_key() {
    let (state, action) = streamed_step(StreamedState::Piping, outcome(true, "", ""));
    assert_eq!(state, StreamedState::Tagging);
    assert_eq!(action, StreamedAction::ApplyTagging);
    let (state, action) = streamed_step(state, outcome(true, "", ""));
    assert_eq!(state, StreamedState::Done);
    assert_eq!(action, StreamedAction::Finish);
}

#[test]
fn tagging_failure_does_not_stop_remaining_keys() {
    let listing = "{\"Contents\":[{\"Key\":\"a\"},{\"Key\":\"b\"},{\"Key\":\"c\"}]}";
    let (state, action) = distributed_step(DistributedState::Listing, outcome(true, listing, ""));
    assert_eq!(
        action,
        DistributedAction::RunTagging { key: String::from("a") }
    );
    // The tagging of key "b" fails; "c" is still attempted.
    let (state, action) = distributed_step(state, outcome(true, "", ""));
    assert_eq!(
        action,
        DistributedAction::RunTagging { key: String::from("b") }
    );
    let (state, action) = distributed_step(state, outcome(false, "", "refused"));
    assert_eq!(
        action,
        DistributedAction::RunTagging { key: String::from("c") }
    );
    let (state, action) = distributed_step(state, outcome(true, "", ""));
    assert_eq!(action, DistributedAction::Finish);
    assert_eq!(
        state,
        DistributedState::Done { failed: vec![String::from("b")] }
    );
}

#[test]
fn empty_listing_ends_without_tagging() {
    let (state, action) = distributed_step(DistributedState::Listing, outcome(true, "{}", ""));
    assert_eq!(state, DistributedState::Done { failed: Vec::new() });
    assert_eq!(action, DistributedAction::Finish);
    let (state, action) = distributed_step(
        DistributedState::Listing,
        outcome(true, "{\"Contents\":[]}", ""),
    );
    assert_eq!(state, DistributedState::Done { failed: Vec::new() });
    assert_eq!(action, DistributedAction::Finish);
}

#[test]
fn backup_failure_carries_its_stderr() {
    let (state, action) = distributed_step(
        DistributedState::BackingUp,
        outcome(false, "", "pd unreachable"),
    );
    assert_eq!(action, DistributedAction::Finish);
    match state {
        DistributedState::Failed { error } => {
            let text = format!("{:?}", error);
            assert!(text.contains("pd unreachable"));
        }
        other => panic!("unexpected state: {:?}", other),
    }
}

#[test]
fn listing_keys_follow_document_order() {
    let keys =
        list_object_keys(b"{\"Contents\":[{\"Key\":\"z\"},{\"Key\":\"a\"}],\"Extra\":3}".to_vec())
            .unwrap();
    assert_eq!(keys, vec!["z", "a"]);
}

#[test]
fn listing_tolerates_extra_entry_fields() {
    let keys = list_object_keys(
        b"{\"Contents\":[{\"Key\":\"k\",\"Size\":12,\"StorageClass\":\"STANDARD\"}]}".to_vec(),
    )
    .unwrap();
    assert_eq!(keys, vec!["k"]);
}

#[test]
fn listing_rejects_invalid_utf8() {
    let r = list_object_keys(vec![0xff, 0xfe]);
    assert_eq!(r.unwrap_err(), ListParseError::InvalidUtf8);
}

#[test]
fn listing_rejects_malformed_documents() {
    assert_eq!(
        list_object_keys(b"not json".to_vec()).unwrap_err(),
        ListParseError::MalformedDocument
    );
    assert_eq!(
        list_object_keys(b"[]".to_vec()).unwrap_err(),
        ListParseError::MalformedDocument
    );
    assert_eq!(
        list_object_keys(b"{\"Contents\":5}".to_vec()).unwrap_err(),
        ListParseError::MalformedDocument
    );
    assert_eq!(
        list_object_keys(b"{\"Contents\":[{\"Key\":5}]}".to_vec()).unwrap_err(),
        ListParseError::MalformedDocument
    );
    assert_eq!(
        list_object_keys(b"{\"Contents\":[{\"Name\":\"x\"}]}".to_vec()).unwrap_err(),
        ListParseError::MalformedDocument
    );
}

#[test]
fn streamed_plan_with_endpoint_carries_credentials() {
    let plan = streamed_plan(
        NOW,
        "/opt",
        "backups",
        "ns",
        "db",
        "db.local:8000",
        "pw",
        "{\"TagSet\":[]}",
        "+%Y-%m-%d.%H-%M",
        some_endpoint(),
    )
    .unwrap();
    let env = vec![
        (String::from("AWS_ACCESS_KEY_ID"), String::from("id")),
        (String::from("AWS_SECRET_ACCESS_KEY"), String::from("secret")),
    ];
    assert_eq!(plan.upload.env, env);
    assert_eq!(plan.tagging.env, env);
    assert!(plan.upload.args.contains(&String::from("--endpoint-url")));
    assert!(plan.tagging.args.contains(&String::from("--endpoint-url")));
    // The compressor and the export tool are local and get no credentials.
    assert!(plan.compress.env.is_empty());
    assert!(plan.export.env.is_empty());
}

#[test]
fn single_key_listing_tags_once_and_finishes() {
    let (state, action) = distributed_step(
        DistributedState::Listing,
        outcome(true, "{\"Contents\":[{\"Key\":\"only\"}]}", ""),
    );
    assert_eq!(
        action,
        DistributedAction::RunTagging { key: String::from("only") }
    );
    let (state, action) = distributed_step(state, outcome(true, "", ""));
    assert_eq!(state, DistributedState::Done { failed: Vec::new() });
    assert_eq!(action, DistributedAction::Finish);
}

#[test]
fn listing_exit_status_is_ignored_when_output_parses() {
    // Only the listing document decides; the process exit status of the
    // listing command is not consulted.
    let (state, action) = distributed_step(DistributedState::Listing, outcome(false, "{}", ""));
    assert_eq!(state, DistributedState::Done { failed: Vec::new() });
    assert_eq!(action, DistributedAction::Finish);
}
