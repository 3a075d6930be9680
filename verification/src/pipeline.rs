//! The backup pipeline orchestrator: two short-lived state machines, one
//! per backup kind. The streamed export pipes the database export through
//! the compressor into the upload command and then tags the one produced
//! object; the distributed raw backup lets the backup tool write any
//! number of object parts, lists them, and tags each one independently.
//!
//! The machines decide; running a process and handing its outcome back is
//! the caller's part. Bucket creation is attempted first in both kinds
//! and its outcome never stops the run.

use vstd::prelude::*;

use std::fmt::Write;

use crate::commands::{
    create_bucket_invocation, compress_invocation, export_invocation, list_objects_invocation,
    put_tagging_invocation, raw_backup_invocation, upload_invocation, spec_compress_args,
    spec_create_bucket_args, spec_endpoint_env, spec_export_args, spec_list_objects_args,
    spec_put_tagging_args, spec_raw_backup_args, spec_tool_path, spec_upload_args,
    spec_env_pairs, EndpointOverride, Invocation,
};
use crate::evaluate::valid_instant;
use crate::listing::{list_object_keys, spec_list_keys, ListParseError};
use crate::text::{spec_str_views, spec_without_plus, without_plus};

verus! {

/// What the formatter produces for an instant under a timestamp pattern,
/// or `None` when the pattern is rejected. The result is fixed by the
/// instant and the pattern alone.
pub uninterp spec fn formatted_timestamp_of(t: int, pattern: Seq<char>) -> Option<Seq<char>>;

/// Relies on chrono's strftime-style formatting of a UTC timestamp: the
/// text is a function of the instant and the pattern alone, and a pattern
/// with an invalid specifier is reported as a formatting error.
#[verifier::external_body]
fn format_timestamp(t: i64, pattern: &str) -> (r: Option<String>)
    requires
        valid_instant(t as int),
    ensures
        r matches Some(s) ==> formatted_timestamp_of(t as int, pattern@) == Some(s@),
        r is None ==> formatted_timestamp_of(t as int, pattern@) is None,
{
    match chrono::DateTime::<chrono::Utc>::from_timestamp(t, 0) {
        Some(dt) => {
            let mut out = String::new();
            match write!(out, "{}", dt.format(pattern)) {
                Ok(()) => Some(out),
                Err(_) => None,
            }
        },
        None => None,
    }
}

/// The result one external process run hands back to the machine.
pub struct ProcessOutcome {
    pub success: bool,
    pub stdout: Vec<u8>,
    pub stderr: String,
}

/// The storage key of a streamed export:
/// `surrealdb/{namespace}/{timestamp}.zst`, with every `+` removed from
/// the formatted timestamp.
pub open spec fn spec_streamed_storage_key(namespace: Seq<char>, formatted: Seq<char>) -> Seq<
    char,
> {
    "surrealdb/"@ + namespace + "/"@ + spec_without_plus(formatted) + ".zst"@
}

/// The storage key prefix of a distributed raw backup:
/// `tikv/{timestamp}`, with the formatted timestamp as is.
pub open spec fn spec_raw_storage_key(formatted: Seq<char>) -> Seq<char> {
    "tikv/"@ + formatted
}

/// The configured timestamp pattern was rejected by the formatter, so no
/// storage key can be computed.
#[derive(Debug, Clone, PartialEq, Eq)]
pub enum PlanError {
    TimestampFormat,
}

/// Everything a streamed-export run issues, computed up front: the
/// storage key is known before any process starts, and the pipe chain is
/// started consumer first (upload, then compressor, then export).
pub struct StreamedPlan {
    pub storage_key: String,
    pub create_bucket: Invocation,
    pub upload: Invocation,
    pub compress: Invocation,
    pub export: Invocation,
    pub tagging: Invocation,
}

/// Plans a streamed export: formats the timestamp, fixes the storage key,
/// and builds the five invocations. Fails exactly when the timestamp
/// pattern is rejected.
pub fn streamed_plan(
    now: i64,
    bin_path: &str,
    bucket: &str,
    namespace: &str,
    database: &str,
    address: &str,
    password: &str,
    tagging_doc: &str,
    format_pattern: &str,
    e: Option<EndpointOverride>,
) -> (r: Result<StreamedPlan, PlanError>)
    requires
        valid_instant(now as int),
    ensures
        r is Ok <==> formatted_timestamp_of(now as int, format_pattern@) is Some,
        r matches Err(err) ==> err == PlanError::TimestampFormat,
        r matches Ok(plan) ==> {
            let formatted = formatted_timestamp_of(now as int, format_pattern@)->Some_0;
            let key = spec_streamed_storage_key(namespace@, formatted);
            &&& plan.storage_key@ == key
            &&& plan.create_bucket.program@ == spec_tool_path(bin_path@, "aws"@)
            &&& spec_str_views(plan.create_bucket.args@) == spec_create_bucket_args(bucket@, e)
            &&& spec_env_pairs(plan.create_bucket.env@) == spec_endpoint_env(e)
            &&& plan.upload.program@ == spec_tool_path(bin_path@, "aws"@)
            &&& spec_str_views(plan.upload.args@) == spec_upload_args(bucket@, key, e)
            &&& spec_env_pairs(plan.upload.env@) == spec_endpoint_env(e)
            &&& plan.compress.program@ == spec_tool_path(bin_path@, "zstd"@)
            &&& spec_str_views(plan.compress.args@) == spec_compress_args()
            &&& plan.export.program@ == spec_tool_path(bin_path@, "surreal"@)
            &&& spec_str_views(plan.export.args@) == spec_export_args(
                address@,
                password@,
                namespace@,
                database@,
            )
            &&& plan.tagging.program@ == spec_tool_path(bin_path@, "aws"@)
            &&& spec_str_views(plan.tagging.args@) == spec_put_tagging_args(
                bucket@,
                key,
                tagging_doc@,
                e,
            )
            &&& spec_env_pairs(plan.tagging.env@) == spec_endpoint_env(e)
        },
{
    let formatted = match format_timestamp(now, format_pattern) {
        Some(f) => f,
        None => {
            return Err(PlanError::TimestampFormat);
        },
    };
    let mut storage_key = String::from_str("surrealdb/");
    storage_key.append(namespace);
    storage_key.append("/");
    let time_part = without_plus(formatted.as_str());
    storage_key.append(time_part.as_str());
    storage_key.append(".zst");
    let create_bucket = create_bucket_invocation(bin_path, bucket, &e);
    let upload = upload_invocation(bin_path, bucket, storage_key.as_str(), &e);
    let compress = compress_invocation(bin_path);
    let export = export_invocation(bin_path, address, password, namespace, database);
    let tagging = put_tagging_invocation(bin_path, bucket, storage_key.as_str(), tagging_doc, &e);
    Ok(StreamedPlan { storage_key, create_bucket, upload, compress, export, tagging })
}

/// Where a streamed-export run failed — in the pipe chain itself or while
/// tagging the produced object — with the failing stage's captured
/// standard-error text.
#[derive(Debug, Clone, PartialEq, Eq)]
pub enum StreamedError {
    Pipeline { stderr: String },
    Tagging { stderr: String },
}

/// The phase a streamed-export run is in.
#[derive(Debug, PartialEq, Eq)]
pub enum StreamedState {
    EnsuringBucket,
    Piping,
    Tagging,
    Done,
    Failed { error: StreamedError },
}

/// What the caller runs next for a streamed export.
#[derive(Debug, PartialEq, Eq)]
pub enum StreamedAction {
    RunPipeline,
    ApplyTagging,
    Finish,
}

/// The initial phase of a streamed export: attempt bucket creation first.
pub fn streamed_start() -> (r: StreamedState)
    ensures
        r is EnsuringBucket,
{
    StreamedState::EnsuringBucket
}

/// Advances a streamed export by one completed process. Bucket creation
/// proceeds to the pipe chain whatever its outcome was; a failing pipe
/// chain or tagging step ends the run in that failure, carrying the
/// captured standard error; a successful tagging step ends it done.
pub fn streamed_step(state: StreamedState, outcome: ProcessOutcome) -> (r: (
    StreamedState,
    StreamedAction,
))
    ensures
        state is EnsuringBucket ==> r.0 is Piping && r.1 is RunPipeline,
        state is Piping && outcome.success ==> r.0 is Tagging && r.1 is ApplyTagging,
        state is Piping && !outcome.success ==> (r.0 matches StreamedState::Failed {
            error: StreamedError::Pipeline { stderr },
        } && stderr@ == outcome.stderr@) && r.1 is Finish,
        state is Tagging && outcome.success ==> r.0 is Done && r.1 is Finish,
        state is Tagging && !outcome.success ==> (r.0 matches StreamedState::Failed {
            error: StreamedError::Tagging { stderr },
        } && stderr@ == outcome.stderr@) && r.1 is Finish,
        state is Done ==> r.0 is Done && r.1 is Finish,
        state matches StreamedState::Failed { error } ==> r.0 == (StreamedState::Failed { error })
            && r.1 is Finish,
{
    match state {
        StreamedState::EnsuringBucket => (StreamedState::Piping, StreamedAction::RunPipeline),
        StreamedState::Piping => {
            if outcome.success {
                (StreamedState::Tagging, StreamedAction::ApplyTagging)
            } else {
                (
                    StreamedState::Failed {
                        error: StreamedError::Pipeline { stderr: outcome.stderr },
                    },
                    StreamedAction::Finish,
                )
            }
        },
        StreamedState::Tagging => {
            if outcome.success {
                (StreamedState::Done, StreamedAction::Finish)
            } else {
                (
                    StreamedState::Failed {
                        error: StreamedError::Tagging { stderr: outcome.stderr },
                    },
                    StreamedAction::Finish,
                )
            }
        },
        StreamedState::Done => (StreamedState::Done, StreamedAction::Finish),
        StreamedState::Failed { error } => (
            StreamedState::Failed { error },
            StreamedAction::Finish,
        ),
    }
}

/// Why a distributed raw backup ended in failure: the backup tool itself
/// (with its captured standard error), or an unreadable listing response.
#[derive(Debug, Clone, PartialEq, Eq)]
pub enum DistributedError {
    Backup { stderr: String },
    ListParse { error: ListParseError },
}

/// The phase a distributed raw backup is in. While tagging, the machine
/// holds the discovered keys, the index of the key whose outcome it
/// expects next, and the keys whose tagging failed so far.
#[derive(Debug, PartialEq, Eq)]
pub enum DistributedState {
    EnsuringBucket,
    BackingUp,
    Listing,
    Tagging { keys: Vec<String>, next: usize, failed: Vec<String> },
    Done { failed: Vec<String> },
    Failed { error: DistributedError },
}

/// A distributed state the machine can actually be in: while tagging, the
/// expected index is within the key list.
pub open spec fn spec_distributed_wf(state: DistributedState) -> bool {
    match state {
        DistributedState::Tagging { keys, next, failed } => next < keys@.len(),
        _ => true,
    }
}

/// What the caller runs next for a distributed raw backup.
#[derive(Debug, PartialEq, Eq)]
pub enum DistributedAction {
    RunBackup,
    RunListing,
    RunTagging { key: String },
    Finish,
}

/// The initial phase of a distributed raw backup: attempt bucket creation
/// first.
pub fn distributed_start() -> (r: DistributedState)
    ensures
        r is EnsuringBucket,
        spec_distributed_wf(r),
{
    DistributedState::EnsuringBucket
}

/// Advances a distributed raw backup by one completed process.
///
/// Bucket creation proceeds to the backup tool whatever its outcome was.
/// A failing backup tool ends the run with its standard error. The
/// listing outcome's standard output is read as the list-objects
/// document: unreadable output is fatal, no keys ends the run done, and
/// otherwise the keys are tagged one at a time. A failed tagging never
/// stops the remaining keys: the key is recorded and the machine moves to
/// the next one.
pub fn distributed_step(state: DistributedState, outcome: ProcessOutcome) -> (r: (
    DistributedState,
    DistributedAction,
))
    requires
        spec_distributed_wf(state),
    ensures
        spec_distributed_wf(r.0),
        state is EnsuringBucket ==> r.0 is BackingUp && r.1 is RunBackup,
        state is BackingUp && outcome.success ==> r.0 is Listing && r.1 is RunListing,
        state is BackingUp && !outcome.success ==> (r.0 matches DistributedState::Failed {
            error: DistributedError::Backup { stderr },
        } && stderr@ == outcome.stderr@) && r.1 is Finish,
        state is Listing ==> (match spec_list_keys(outcome.stdout@) {
            Some(ks) => {
                if ks.len() == 0 {
                    (r.0 matches DistributedState::Done { failed } && failed@.len() == 0) && r.1
                        is Finish
                } else {
                    (r.0 matches DistributedState::Tagging { keys, next, failed } && {
                        &&& spec_str_views(keys@) == ks
                        &&& next == 0
                        &&& failed@.len() == 0
                    }) && (r.1 matches DistributedAction::RunTagging { key } && key@ == ks[0])
                }
            },
            None => (r.0 matches DistributedState::Failed {
                error: DistributedError::ListParse { error },
            }) && r.1 is Finish,
        }),
        state matches DistributedState::Tagging { keys, next, failed } ==> {
            let failed_now = if outcome.success {
                spec_str_views(failed@)
            } else {
                spec_str_views(failed@).push(keys@[next as int]@)
            };
            if next + 1 < keys@.len() {
                (r.0 matches DistributedState::Tagging {
                    keys: keys2,
                    next: next2,
                    failed: failed2,
                } && {
                    &&& keys2@ == keys@
                    &&& next2 == next + 1
                    &&& spec_str_views(failed2@) == failed_now
                }) && (r.1 matches DistributedAction::RunTagging { key } && key@ == keys@[next
                    + 1]@)
            } else {
                (r.0 matches DistributedState::Done { failed: failed2 } && spec_str_views(failed2@)
                    == failed_now) && r.1 is Finish
            }
        },
        state is Done ==> r.0 == state && r.1 is Finish,
        state is Failed ==> r.0 == state && r.1 is Finish,
{
    match state {
        DistributedState::EnsuringBucket => (
            DistributedState::BackingUp,
            DistributedAction::RunBackup,
        ),
        DistributedState::BackingUp => {
            if outcome.success {
                (DistributedState::Listing, DistributedAction::RunListing)
            } else {
                (
                    DistributedState::Failed {
                        error: DistributedError::Backup { stderr: outcome.stderr },
                    },
                    DistributedAction::Finish,
                )
            }
        },
        DistributedState::Listing => {
            match list_object_keys(outcome.stdout) {
                Err(error) => (
                    DistributedState::Failed { error: DistributedError::ListParse { error } },
                    DistributedAction::Finish,
                ),
                Ok(keys) => {
                    if keys.len() == 0 {
                        (DistributedState::Done { failed: Vec::new() }, DistributedAction::Finish)
                    } else {
                        let key = keys[0].clone();
                        proof {
                            assert(spec_str_views(keys@)[0] == keys@[0]@);
                        }
                        (
                            DistributedState::Tagging { keys, next: 0, failed: Vec::new() },
                            DistributedAction::RunTagging { key },
                        )
                    }
                },
            }
        },
        DistributedState::Tagging { keys, next, failed } => {
            let mut failed = failed;
            if !outcome.success {
                let ghost before = failed@;
                failed.push(keys[next].clone());
                proof {
                    assert(spec_str_views(failed@) =~= spec_str_views(before).push(
                        keys@[next as int]@,
                    ));
                }
            }
            let n = keys.len();
            if next < n - 1 {
                let key = keys[next + 1].clone();
                (
                    DistributedState::Tagging { keys, next: next + 1, failed },
                    DistributedAction::RunTagging { key },
                )
            } else {
                (DistributedState::Done { failed }, DistributedAction::Finish)
            }
        },
        DistributedState::Done { failed } => (
            DistributedState::Done { failed },
            DistributedAction::Finish,
        ),
        DistributedState::Failed { error } => (
            DistributedState::Failed { error },
            DistributedAction::Finish,
        ),
    }
}

/// Everything a distributed raw-backup run issues, computed up front.
pub struct DistributedPlan {
    pub storage_key: String,
    pub create_bucket: Invocation,
    pub backup: Invocation,
    pub listing: Invocation,
}

/// Plans a distributed raw backup: formats the timestamp, fixes the key
/// prefix, and builds the bucket, backup and listing invocations. The
/// per-key tagging invocations are built later, one per discovered key.
/// Fails exactly when the timestamp pattern is rejected.
pub fn distributed_plan(
    now: i64,
    bin_path: &str,
    bucket: &str,
    pd_host_and_port: &str,
    format_pattern: &str,
    e: Option<EndpointOverride>,
) -> (r: Result<DistributedPlan, PlanError>)
    requires
        valid_instant(now as int),
    ensures
        r is Ok <==> formatted_timestamp_of(now as int, format_pattern@) is Some,
        r matches Err(err) ==> err == PlanError::TimestampFormat,
        r matches Ok(plan) ==> {
            let formatted = formatted_timestamp_of(now as int, format_pattern@)->Some_0;
            let key = spec_raw_storage_key(formatted);
            &&& plan.storage_key@ == key
            &&& plan.create_bucket.program@ == spec_tool_path(bin_path@, "aws"@)
            &&& spec_str_views(plan.create_bucket.args@) == spec_create_bucket_args(bucket@, e)
            &&& spec_env_pairs(plan.create_bucket.env@) == spec_endpoint_env(e)
            &&& plan.backup.program@ == spec_tool_path(bin_path@, "tikv-br"@)
            &&& spec_str_views(plan.backup.args@) == spec_raw_backup_args(
                pd_host_and_port@,
                bucket@,
                key,
                e,
            )
            &&& plan.listing.program@ == spec_tool_path(bin_path@, "aws"@)
            &&& spec_str_views(plan.listing.args@) == spec_list_objects_args(bucket@, key, e)
            &&& spec_env_pairs(plan.listing.env@) == spec_endpoint_env(e)
        },
{
    let formatted = match format_timestamp(now, format_pattern) {
        Some(f) => f,
        None => {
            return Err(PlanError::TimestampFormat);
        },
    };
    let mut storage_key = String::from_str("tikv/");
    storage_key.append(formatted.as_str());
    let create_bucket = create_bucket_invocation(bin_path, bucket, &e);
    let backup = raw_backup_invocation(bin_path, pd_host_and_port, bucket, storage_key.as_str(), &e);
    let listing = list_objects_invocation(bin_path, bucket, storage_key.as_str(), &e);
    Ok(DistributedPlan { storage_key, create_bucket, backup, listing })
}

} // verus!
