//! The object-store tag client and backup tooling commands: each
//! operation is one external invocation, described here as the exact
//! program path, argument list and credential environment it is issued
//! with, against either the default or an overridden endpoint.

use vstd::prelude::*;

use crate::text::{is_blank, spec_is_blank, spec_str_views};

verus! {

/// An S3-compatible endpoint override: an explicit endpoint URL plus the
/// credentials handed to each invocation as process-scoped environment
/// variables. Absent, invocations defer to ambient host credentials.
#[derive(Debug, Clone)]
pub struct EndpointOverride {
    pub url: String,
    pub access_id: String,
    pub secret_key: String,
}

/// Whether an override is active: all three fields are present and
/// non-blank.
pub open spec fn spec_override_active(url: Seq<char>, id: Seq<char>, key: Seq<char>) -> bool {
    !spec_is_blank(url) && !spec_is_blank(id) && !spec_is_blank(key)
}

/// Builds the endpoint override when all three fields are non-blank;
/// yields `None` (ambient host credentials) when any is blank.
pub fn endpoint_override(url: String, access_id: String, secret_key: String) -> (r: Option<
    EndpointOverride,
>)
    ensures
        r is Some <==> spec_override_active(url@, access_id@, secret_key@),
        r matches Some(e) ==> e.url@ == url@ && e.access_id@ == access_id@ && e.secret_key@
            == secret_key@,
{
    if is_blank(url.as_str()) || is_blank(access_id.as_str()) || is_blank(secret_key.as_str()) {
        None
    } else {
        Some(EndpointOverride { url, access_id, secret_key })
    }
}

/// One external command: the program to run, its arguments in order, and
/// the environment variables scoped to that single invocation.
pub struct Invocation {
    pub program: String,
    pub args: Vec<String>,
    pub env: Vec<(String, String)>,
}

/// The character sequences of an environment-variable list.
pub open spec fn spec_env_pairs(v: Seq<(String, String)>) -> Seq<(Seq<char>, Seq<char>)> {
    v.map_values(|p: (String, String)| (p.0@, p.1@))
}

/// The path of a tool under the configured binary directory:
/// `{bin_path}/bin/{name}`.
pub open spec fn spec_tool_path(bin_path: Seq<char>, name: Seq<char>) -> Seq<char> {
    bin_path + "/bin/"@ + name
}

fn tool_path(bin_path: &str, name: &str) -> (r: String)
    ensures
        r@ == spec_tool_path(bin_path@, name@),
{
    let mut p = String::from_str(bin_path);
    p.append("/bin/");
    p.append(name);
    p
}

/// The credential environment of an invocation: the access key id and
/// secret key when an override is active, nothing otherwise.
pub open spec fn spec_endpoint_env(e: Option<EndpointOverride>) -> Seq<(Seq<char>, Seq<char>)> {
    match e {
        Some(ep) => seq![
            ("AWS_ACCESS_KEY_ID"@, ep.access_id@),
            ("AWS_SECRET_ACCESS_KEY"@, ep.secret_key@),
        ],
        None => seq![],
    }
}

/// The explicit endpoint arguments of a store invocation: the
/// `--endpoint-url` pair when an override is active, nothing otherwise.
pub open spec fn spec_endpoint_args(e: Option<EndpointOverride>) -> Seq<Seq<char>> {
    match e {
        Some(ep) => seq!["--endpoint-url"@, ep.url@],
        None => seq![],
    }
}

fn endpoint_env(e: &Option<EndpointOverride>) -> (r: Vec<(String, String)>)
    ensures
        spec_env_pairs(r@) == spec_endpoint_env(*e),
{
    let mut env: Vec<(String, String)> = Vec::new();
    match e {
        Some(ep) => {
            env.push((String::from_str("AWS_ACCESS_KEY_ID"), ep.access_id.clone()));
            env.push((String::from_str("AWS_SECRET_ACCESS_KEY"), ep.secret_key.clone()));
            proof {
                assert(spec_env_pairs(env@) =~= spec_endpoint_env(*e));
            }
        },
        None => {
            proof {
                assert(spec_env_pairs(env@) =~= spec_endpoint_env(*e));
            }
        },
    }
    env
}

fn push_endpoint_args(args: &mut Vec<String>, e: &Option<EndpointOverride>)
    ensures
        spec_str_views(final(args)@) == spec_str_views(old(args)@) + spec_endpoint_args(*e),
{
    match e {
        Some(ep) => {
            args.push(String::from_str("--endpoint-url"));
            args.push(ep.url.clone());
            proof {
                assert(spec_str_views(args@) =~= spec_str_views(old(args)@) + spec_endpoint_args(*e));
            }
        },
        None => {
            proof {
                assert(spec_str_views(args@) =~= spec_str_views(old(args)@) + spec_endpoint_args(*e));
            }
        },
    }
}

/// The arguments of the bucket-creation command.
pub open spec fn spec_create_bucket_args(bucket: Seq<char>, e: Option<EndpointOverride>) -> Seq<
    Seq<char>,
> {
    seq!["s3api"@, "create-bucket"@] + spec_endpoint_args(e) + seq![
        "--bucket"@,
        bucket,
        "--output"@,
        "json"@,
    ]
}

/// The invocation that creates the bucket if absent. It is issued before
/// any backup-producing step; its outcome is logged and never fails the
/// caller.
pub fn create_bucket_invocation(bin_path: &str, bucket: &str, e: &Option<EndpointOverride>) -> (r:
    Invocation)
    ensures
        r.program@ == spec_tool_path(bin_path@, "aws"@),
        spec_str_views(r.args@) == spec_create_bucket_args(bucket@, *e),
        spec_env_pairs(r.env@) == spec_endpoint_env(*e),
{
    let mut args: Vec<String> = Vec::new();
    args.push(String::from_str("s3api"));
    args.push(String::from_str("create-bucket"));
    push_endpoint_args(&mut args, e);
    let ghost mid = args@;
    args.push(String::from_str("--bucket"));
    args.push(String::from_str(bucket));
    args.push(String::from_str("--output"));
    args.push(String::from_str("json"));
    proof {
        assert(spec_str_views(mid) == seq!["s3api"@, "create-bucket"@] + spec_endpoint_args(*e));
        assert forall|k: int| 0 <= k < mid.len() implies #[trigger] mid[k]@ == (seq!["s3api"@, "create-bucket"@]
            + spec_endpoint_args(*e))[k] by {
            assert(spec_str_views(mid)[k] == mid[k]@);
        }
        assert(spec_str_views(args@) =~= spec_create_bucket_args(bucket@, *e));
    }
    Invocation { program: tool_path(bin_path, "aws"), args, env: endpoint_env(e) }
}

/// The arguments of the listing command for everything under a prefix.
pub open spec fn spec_list_objects_args(
    bucket: Seq<char>,
    prefix: Seq<char>,
    e: Option<EndpointOverride>,
) -> Seq<Seq<char>> {
    seq!["s3api"@, "list-objects"@] + spec_endpoint_args(e) + seq![
        "--bucket"@,
        bucket,
        "--prefix"@,
        prefix,
        "--output"@,
        "json"@,
    ]
}

/// The invocation that lists the object keys under a prefix; its standard
/// output is the list-objects response document.
pub fn list_objects_invocation(
    bin_path: &str,
    bucket: &str,
    prefix: &str,
    e: &Option<EndpointOverride>,
) -> (r: Invocation)
    ensures
        r.program@ == spec_tool_path(bin_path@, "aws"@),
        spec_str_views(r.args@) == spec_list_objects_args(bucket@, prefix@, *e),
        spec_env_pairs(r.env@) == spec_endpoint_env(*e),
{
    let mut args: Vec<String> = Vec::new();
    args.push(String::from_str("s3api"));
    args.push(String::from_str("list-objects"));
    push_endpoint_args(&mut args, e);
    let ghost mid = args@;
    args.push(String::from_str("--bucket"));
    args.push(String::from_str(bucket));
    args.push(String::from_str("--prefix"));
    args.push(String::from_str(prefix));
    args.push(String::from_str("--output"));
    args.push(String::from_str("json"));
    proof {
        assert(spec_str_views(mid) == seq!["s3api"@, "list-objects"@] + spec_endpoint_args(*e));
        assert forall|k: int| 0 <= k < mid.len() implies #[trigger] mid[k]@ == (seq!["s3api"@, "list-objects"@]
            + spec_endpoint_args(*e))[k] by {
            assert(spec_str_views(mid)[k] == mid[k]@);
        }
        assert(spec_str_views(args@) =~= spec_list_objects_args(bucket@, prefix@, *e));
    }
    Invocation { program: tool_path(bin_path, "aws"), args, env: endpoint_env(e) }
}

/// The arguments of the tagging command for one object key, with the
/// serialized tag-set document as payload.
pub open spec fn spec_put_tagging_args(
    bucket: Seq<char>,
    key: Seq<char>,
    tagging: Seq<char>,
    e: Option<EndpointOverride>,
) -> Seq<Seq<char>> {
    seq!["s3api"@, "put-object-tagging"@] + spec_endpoint_args(e) + seq![
        "--bucket"@,
        bucket,
        "--tagging"@,
        tagging,
        "--key"@,
        key,
    ]
}

/// The invocation that applies the tag-set document to one object key.
pub fn put_tagging_invocation(
    bin_path: &str,
    bucket: &str,
    key: &str,
    tagging: &str,
    e: &Option<EndpointOverride>,
) -> (r: Invocation)
    ensures
        r.program@ == spec_tool_path(bin_path@, "aws"@),
        spec_str_views(r.args@) == spec_put_tagging_args(bucket@, key@, tagging@, *e),
        spec_env_pairs(r.env@) == spec_endpoint_env(*e),
{
    let mut args: Vec<String> = Vec::new();
    args.push(String::from_str("s3api"));
    args.push(String::from_str("put-object-tagging"));
    push_endpoint_args(&mut args, e);
    let ghost mid = args@;
    args.push(String::from_str("--bucket"));
    args.push(String::from_str(bucket));
    args.push(String::from_str("--tagging"));
    args.push(String::from_str(tagging));
    args.push(String::from_str("--key"));
    args.push(String::from_str(key));
    proof {
        assert(spec_str_views(mid) == seq!["s3api"@, "put-object-tagging"@] + spec_endpoint_args(*e));
        assert forall|k: int| 0 <= k < mid.len() implies #[trigger] mid[k]@ == (seq!["s3api"@, "put-object-tagging"@]
            + spec_endpoint_args(*e))[k] by {
            assert(spec_str_views(mid)[k] == mid[k]@);
        }
        assert(spec_str_views(args@) =~= spec_put_tagging_args(bucket@, key@, tagging@, *e));
    }
    Invocation { program: tool_path(bin_path, "aws"), args, env: endpoint_env(e) }
}

/// The object-store URL of a key in a bucket: `s3://{bucket}/{key}`.
pub open spec fn spec_store_url(bucket: Seq<char>, key: Seq<char>) -> Seq<char> {
    "s3://"@ + bucket + "/"@ + key
}

fn store_url(bucket: &str, key: &str) -> (r: String)
    ensures
        r@ == spec_store_url(bucket@, key@),
{
    let mut u = String::from_str("s3://");
    u.append(bucket);
    u.append("/");
    u.append(key);
    u
}

/// The arguments of the upload command that copies its standard input to
/// a single object key.
pub open spec fn spec_upload_args(
    bucket: Seq<char>,
    key: Seq<char>,
    e: Option<EndpointOverride>,
) -> Seq<Seq<char>> {
    seq!["s3"@, "cp"@] + spec_endpoint_args(e) + seq!["-"@, spec_store_url(bucket, key)]
}

/// The invocation that uploads its standard input stream to the storage
/// key; it is the consumer end of the streamed-export pipe chain and is
/// started first so that its input pipe exists.
pub fn upload_invocation(bin_path: &str, bucket: &str, key: &str, e: &Option<EndpointOverride>)
    -> (r: Invocation)
    ensures
        r.program@ == spec_tool_path(bin_path@, "aws"@),
        spec_str_views(r.args@) == spec_upload_args(bucket@, key@, *e),
        spec_env_pairs(r.env@) == spec_endpoint_env(*e),
{
    let mut args: Vec<String> = Vec::new();
    args.push(String::from_str("s3"));
    args.push(String::from_str("cp"));
    push_endpoint_args(&mut args, e);
    let ghost mid = args@;
    args.push(String::from_str("-"));
    args.push(store_url(bucket, key));
    proof {
        assert(spec_str_views(mid) == seq!["s3"@, "cp"@] + spec_endpoint_args(*e));
        assert forall|k: int| 0 <= k < mid.len() implies #[trigger] mid[k]@ == (seq!["s3"@, "cp"@]
            + spec_endpoint_args(*e))[k] by {
            assert(spec_str_views(mid)[k] == mid[k]@);
        }
        assert(spec_str_views(args@) =~= spec_upload_args(bucket@, key@, *e));
    }
    Invocation { program: tool_path(bin_path, "aws"), args, env: endpoint_env(e) }
}

/// The arguments of the compressor that reads its standard input and
/// writes the compressed stream to its standard output.
pub open spec fn spec_compress_args() -> Seq<Seq<char>> {
    seq!["--force"@, "--stdout"@, "--adapt"@, "--rm"@, "-"@]
}

/// The invocation of the compressor in the middle of the streamed-export
/// pipe chain.
pub fn compress_invocation(bin_path: &str) -> (r: Invocation)
    ensures
        r.program@ == spec_tool_path(bin_path@, "zstd"@),
        spec_str_views(r.args@) == spec_compress_args(),
        spec_env_pairs(r.env@) == Seq::<(Seq<char>, Seq<char>)>::empty(),
{
    let mut args: Vec<String> = Vec::new();
    args.push(String::from_str("--force"));
    args.push(String::from_str("--stdout"));
    args.push(String::from_str("--adapt"));
    args.push(String::from_str("--rm"));
    args.push(String::from_str("-"));
    proof {
        assert(spec_str_views(args@) =~= spec_compress_args());
        assert(spec_env_pairs(Seq::<(String, String)>::empty()) =~= Seq::<
            (Seq<char>, Seq<char>),
        >::empty());
    }
    Invocation { program: tool_path(bin_path, "zstd"), args, env: Vec::new() }
}

/// The database server URL of the export command: `http://{address}`.
pub open spec fn spec_database_url(address: Seq<char>) -> Seq<char> {
    "http://"@ + address
}

/// The arguments of the database export command that writes the logical
/// export to its standard output.
pub open spec fn spec_export_args(
    address: Seq<char>,
    password: Seq<char>,
    namespace: Seq<char>,
    database: Seq<char>,
) -> Seq<Seq<char>> {
    seq![
        "export"@,
        "-e"@,
        spec_database_url(address),
        "-u"@,
        "root"@,
        "-p"@,
        password,
        "--namespace"@,
        namespace,
        "--database"@,
        database,
        "-"@,
    ]
}

/// The invocation of the database export tool, the producer end of the
/// streamed-export pipe chain; it is started last.
pub fn export_invocation(
    bin_path: &str,
    address: &str,
    password: &str,
    namespace: &str,
    database: &str,
) -> (r: Invocation)
    ensures
        r.program@ == spec_tool_path(bin_path@, "surreal"@),
        spec_str_views(r.args@) == spec_export_args(address@, password@, namespace@, database@),
        spec_env_pairs(r.env@) == Seq::<(Seq<char>, Seq<char>)>::empty(),
{
    let mut args: Vec<String> = Vec::new();
    args.push(String::from_str("export"));
    args.push(String::from_str("-e"));
    let mut url = String::from_str("http://");
    url.append(address);
    args.push(url);
    args.push(String::from_str("-u"));
    args.push(String::from_str("root"));
    args.push(String::from_str("-p"));
    args.push(String::from_str(password));
    args.push(String::from_str("--namespace"));
    args.push(String::from_str(namespace));
    args.push(String::from_str("--database"));
    args.push(String::from_str(database));
    args.push(String::from_str("-"));
    proof {
        assert(spec_str_views(args@) =~= spec_export_args(address@, password@, namespace@, database@));
        assert(spec_env_pairs(Seq::<(String, String)>::empty()) =~= Seq::<
            (Seq<char>, Seq<char>),
        >::empty());
    }
    Invocation { program: tool_path(bin_path, "surreal"), args, env: Vec::new() }
}

/// The arguments of the distributed raw-backup command: the placement
/// driver, whether credentials are sent along (only with an endpoint
/// override), the override's endpoint, and the storage URL — with the
/// credentials in the URL's query when an override is active.
pub open spec fn spec_raw_backup_args(
    pd_host_and_port: Seq<char>,
    bucket: Seq<char>,
    key: Seq<char>,
    e: Option<EndpointOverride>,
) -> Seq<Seq<char>> {
    match e {
        Some(ep) => seq![
            "backup"@,
            "raw"@,
            "--pd="@ + pd_host_and_port,
            "--send-credentials-to-tikv=true"@,
            "--s3.endpoint="@ + ep.url@,
            "--storage="@ + spec_store_url(bucket, key) + "?access-key="@ + ep.access_id@
                + "&secret-access-key="@ + ep.secret_key@,
        ],
        None => seq![
            "backup"@,
            "raw"@,
            "--pd="@ + pd_host_and_port,
            "--send-credentials-to-tikv=false"@,
            "--storage="@ + spec_store_url(bucket, key),
        ],
    }
}

/// The invocation of the distributed raw-backup tool, issued once against
/// the key prefix; the tool itself writes an arbitrary number of object
/// parts under it.
pub fn raw_backup_invocation(
    bin_path: &str,
    pd_host_and_port: &str,
    bucket: &str,
    key: &str,
    e: &Option<EndpointOverride>,
) -> (r: Invocation)
    ensures
        r.program@ == spec_tool_path(bin_path@, "tikv-br"@),
        spec_str_views(r.args@) == spec_raw_backup_args(pd_host_and_port@, bucket@, key@, *e),
        spec_env_pairs(r.env@) == Seq::<(Seq<char>, Seq<char>)>::empty(),
{
    let mut args: Vec<String> = Vec::new();
    args.push(String::from_str("backup"));
    args.push(String::from_str("raw"));
    let mut pd = String::from_str("--pd=");
    pd.append(pd_host_and_port);
    args.push(pd);
    match e {
        Some(ep) => {
            args.push(String::from_str("--send-credentials-to-tikv=true"));
            let mut endpoint = String::from_str("--s3.endpoint=");
            endpoint.append(ep.url.as_str());
            args.push(endpoint);
            let mut storage = String::from_str("--storage=");
            storage.append(store_url(bucket, key).as_str());
            storage.append("?access-key=");
            storage.append(ep.access_id.as_str());
            storage.append("&secret-access-key=");
            storage.append(ep.secret_key.as_str());
            args.push(storage);
            proof {
                assert(spec_str_views(args@) =~= spec_raw_backup_args(
                    pd_host_and_port@,
                    bucket@,
                    key@,
                    *e,
                ));
            }
        },
        None => {
            args.push(String::from_str("--send-credentials-to-tikv=false"));
            let mut storage = String::from_str("--storage=");
            storage.append(store_url(bucket, key).as_str());
            args.push(storage);
            proof {
                assert(spec_str_views(args@) =~= spec_raw_backup_args(
                    pd_host_and_port@,
                    bucket@,
                    key@,
                    *e,
                ));
            }
        },
    }
    proof {
        assert(spec_env_pairs(Seq::<(String, String)>::empty()) =~= Seq::<
            (Seq<char>, Seq<char>),
        >::empty());
    }
    Invocation { program: tool_path(bin_path, "tikv-br"), args, env: Vec::new() }
}

/// With no endpoint override, every store invocation carries no explicit
/// endpoint argument and injects no credential environment variables.
pub proof fn lemma_default_endpoint_ambient(
    bucket: Seq<char>,
    prefix: Seq<char>,
    key: Seq<char>,
    tagging: Seq<char>,
)
    ensures
        spec_endpoint_env(None::<EndpointOverride>) == Seq::<(Seq<char>, Seq<char>)>::empty(),
        spec_create_bucket_args(bucket, None::<EndpointOverride>) == seq![
            "s3api"@,
            "create-bucket"@,
            "--bucket"@,
            bucket,
            "--output"@,
            "json"@,
        ],
        spec_list_objects_args(bucket, prefix, None::<EndpointOverride>) == seq![
            "s3api"@,
            "list-objects"@,
            "--bucket"@,
            bucket,
            "--prefix"@,
            prefix,
            "--output"@,
            "json"@,
        ],
        spec_put_tagging_args(bucket, key, tagging, None::<EndpointOverride>) == seq![
            "s3api"@,
            "put-object-tagging"@,
            "--bucket"@,
            bucket,
            "--tagging"@,
            tagging,
            "--key"@,
            key,
        ],
{
    assert(spec_endpoint_env(None::<EndpointOverride>) =~= Seq::<(Seq<char>, Seq<char>)>::empty());
    assert(spec_create_bucket_args(bucket, None::<EndpointOverride>) =~= seq![
        "s3api"@,
        "create-bucket"@,
        "--bucket"@,
        bucket,
        "--output"@,
        "json"@,
    ]);
    assert(spec_list_objects_args(bucket, prefix, None::<EndpointOverride>) =~= seq![
        "s3api"@,
        "list-objects"@,
        "--bucket"@,
        bucket,
        "--prefix"@,
        prefix,
        "--output"@,
        "json"@,
    ]);
    assert(spec_put_tagging_args(bucket, key, tagging, None::<EndpointOverride>) =~= seq![
        "s3api"@,
        "put-object-tagging"@,
        "--bucket"@,
        bucket,
        "--tagging"@,
        tagging,
        "--key"@,
        key,
    ]);
}

} // verus!
