//! The upload handler: object keys, metadata, and the state machine that
//! carries one request from configuration to response.
//!
//! Each request runs its own machine. The surrounding server performs the
//! outside work each stage asks for (reading the configuration, reading the
//! multipart parts, sending the write) and hands the outcome back as an event.
use vstd::prelude::*;
use vstd::string::*;
use crate::client::{build_r2_client, client_for, PutObjectRequest, ClientError, WriteError};
use crate::config::{ConfigError, R2Config};
use crate::parser::{gather, opt_view, request_matches, ParseError, Part, UploadRequest};
use aws_sdk_s3::Client;

verus! {

/// A generated id: 36 characters, each a lowercase hex digit or a hyphen.
pub open spec fn is_upload_id(s: Seq<char>) -> bool {
    &&& s.len() == 36
    &&& forall|i: int| 0 <= i < s.len() ==> "0123456789abcdef-"@.contains(#[trigger] s[i])
}

/// The key of a named file.
pub open spec fn key_for_name(name: Seq<char>) -> Seq<char> {
    "uploads/"@ + name
}

/// The key of an unnamed file, from its generated id.
pub open spec fn key_for_id(id: Seq<char>) -> Seq<char> {
    "uploads/"@ + id + ".bin"@
}

/// A key fits a file name: the name's key where there is one, else the key of
/// some generated id.
pub open spec fn key_fits(name: Option<Seq<char>>, key: Seq<char>) -> bool {
    match name {
        Some(n) => key == key_for_name(n),
        None => exists|id: Seq<char>| is_upload_id(id) && key == key_for_id(id),
    }
}

pub open spec fn has_upload_prefix(key: Seq<char>) -> bool {
    "uploads/"@.is_prefix_of(key)
}

/// The metadata stored with an object: one `description` entry where a
/// description was given, none otherwise.
pub open spec fn metadata_of(description: Option<Seq<char>>) -> Seq<(Seq<char>, Seq<char>)> {
    match description {
        Some(d) => seq![("description"@, d)],
        None => Seq::empty(),
    }
}

pub open spec fn pairs_view(v: Vec<(String, String)>) -> Seq<(Seq<char>, Seq<char>)> {
    v@.map_values(|kv: (String, String)| (kv.0@, kv.1@))
}

/// Relies on `uuid::Uuid::new_v4` and its `Display`: a random version-4 id,
/// written as 36 lowercase hex digits and hyphens.
#[verifier::external_body]
fn new_upload_id() -> (r: String)
    ensures
        is_upload_id(r@),
{
    uuid::Uuid::new_v4().to_string()
}

/// The key for a file: `uploads/<name>` for a named file, else
/// `uploads/<id>.bin` with the id given.
pub fn derive_key(file_name: &Option<String>, generated_id: &String) -> (r: String)
    ensures
        r@ == match *file_name {
            Some(n) => key_for_name(n@),
            None => key_for_id(generated_id@),
        },
{
    let mut key = String::from_str("uploads/");
    match file_name {
        Some(n) => {
            key.append(n.as_str());
        },
        None => {
            key.append(generated_id.as_str());
            key.append(".bin");
        },
    }
    key
}

/// The key for a file, drawing a fresh id where the file has no name.
pub fn object_key(file_name: &Option<String>) -> (r: String)
    ensures
        key_fits(opt_view(*file_name), r@),
        has_upload_prefix(r@),
{
    let r = match file_name {
        Some(_) => derive_key(file_name, &String::new()),
        None => {
            let id = new_upload_id();
            let k = derive_key(file_name, &id);
            proof {
                assert(is_upload_id(id@) && k@ == key_for_id(id@));
            }
            k
        },
    };
    proof {
        lemma_keys_have_prefix(opt_view(*file_name), r@);
    }
    r
}

/// Every key that fits a file name starts with `uploads/`.
pub proof fn lemma_keys_have_prefix(name: Option<Seq<char>>, key: Seq<char>)
    requires
        key_fits(name, key),
    ensures
        has_upload_prefix(key),
{
    let p = "uploads/"@;
    match name {
        Some(n) => {
            assert(key.subrange(0, p.len() as int) =~= p);
        },
        None => {
            let id = choose|id: Seq<char>| is_upload_id(id) && key == key_for_id(id);
            assert(key.subrange(0, p.len() as int) =~= p);
        },
    }
}

/// The metadata for an optional description.
pub fn metadata_for(description: &Option<String>) -> (r: Vec<(String, String)>)
    ensures
        pairs_view(r) == metadata_of(opt_view(*description)),
{
    let mut v: Vec<(String, String)> = Vec::new();
    match description {
        Some(d) => {
            v.push((String::from_str("description"), d.clone()));
        },
        None => {},
    }
    proof {
        assert(pairs_view(v) =~= metadata_of(opt_view(*description)));
    }
    v
}

/// Why a request failed.
#[derive(Debug, Clone, PartialEq, Eq)]
pub enum HandlerError {
    Config(ConfigError),
    Client(ClientError),
    Parse(ParseError),
    Write(WriteError),
}

/// The body of a response: the stored key and its metadata, or the failure.
#[derive(Debug, Clone)]
pub enum ResponseBody {
    Success { key: String, metadata: Vec<(String, String)> },
    Error(HandlerError),
}

/// An HTTP status and the body that goes with it.
#[derive(Debug, Clone)]
pub struct HandlerResponse {
    pub status: u16,
    pub body: ResponseBody,
}

/// The status a failure is answered with: 400 where the caller sent no usable
/// file, 500 for configuration, client and backend failures.
pub open spec fn status_for(e: HandlerError) -> u16 {
    match e {
        HandlerError::Parse(_) => 400,
        _ => 500,
    }
}

pub open spec fn failure(e: HandlerError) -> HandlerResponse {
    HandlerResponse { status: status_for(e), body: ResponseBody::Error(e) }
}

impl HandlerResponse {
    /// The response to a failure.
    pub fn error(e: HandlerError) -> (r: HandlerResponse)
        ensures
            r == failure(e),
    {
        let status: u16 = match &e {
            HandlerError::Parse(_) => 400,
            _ => 500,
        };
        HandlerResponse { status, body: ResponseBody::Error(e) }
    }

    /// The response to a stored object.
    pub fn success(key: String, metadata: Vec<(String, String)>) -> (r: HandlerResponse)
        ensures
            r == (HandlerResponse { status: 200, body: ResponseBody::Success { key, metadata } }),
    {
        HandlerResponse { status: 200, body: ResponseBody::Success { key, metadata } }
    }

    /// The word in the body's `status` field.
    pub fn status_text(&self) -> (r: &'static str)
        ensures
            r@ == (if self.body is Success { "success"@ } else { "error"@ }),
    {
        match &self.body {
            ResponseBody::Success { .. } => "success",
            ResponseBody::Error(_) => "error",
        }
    }
}

/// Where one request stands.
#[derive(Debug)]
pub enum Stage {
    Init,
    ConfigLoaded(R2Config),
    ClientReady(R2Config, Client),
    Parsed(Client, PutObjectRequest),
    Responded(HandlerResponse),
}

/// The outcome of the outside work a stage asked for.
#[derive(Debug)]
pub enum Event {
    /// The configuration was read.
    ConfigRead(Result<R2Config, ConfigError>),
    /// The client is to be built from the loaded configuration.
    BuildClient,
    /// The multipart parts were read and parsed.
    PartsRead(Result<UploadRequest, ParseError>),
    /// The write was sent and answered.
    WriteDone(Result<(), WriteError>),
}

pub open spec fn content_type_of_uploads() -> Seq<char> {
    "application/octet-stream"@
}

/// The write planned for a parsed request.
pub open spec fn planned(cfg: R2Config, req: UploadRequest, p: PutObjectRequest) -> bool {
    &&& p.bucket@ == cfg.bucket@
    &&& key_fits(opt_view(req.file_name), p.key@)
    &&& has_upload_prefix(p.key@)
    &&& p.body@ == req.file_bytes@
    &&& p.content_type is Some && p.content_type->0@ == content_type_of_uploads()
    &&& pairs_view(p.metadata) == metadata_of(opt_view(req.description))
    &&& p.wf()
}

/// The moves of the machine. An event that does not belong to the stage
/// leaves it as it is; a response is final.
pub open spec fn step_allows(s: Stage, e: Event, n: Stage) -> bool {
    match s {
        Stage::Init => match e {
            Event::ConfigRead(Ok(c)) => n == Stage::ConfigLoaded(c),
            Event::ConfigRead(Err(err)) => n == Stage::Responded(failure(HandlerError::Config(err))),
            _ => n == s,
        },
        Stage::ConfigLoaded(c) => match e {
            Event::BuildClient => match n {
                Stage::ClientReady(c2, cl) => c2 == c
                    && crate::client::settings_problem(c, true) is None
                    && client_for(cl, c, true),
                Stage::Responded(r) => crate::client::settings_problem(c, true) is Some
                    && r == failure(HandlerError::Client(
                        ClientError::Invalid(crate::client::settings_problem(c, true)->0),
                    )),
                _ => false,
            },
            _ => n == s,
        },
        Stage::ClientReady(c, cl) => match e {
            Event::PartsRead(Ok(req)) => if req.file_bytes@.len() == 0 {
                n == Stage::Responded(failure(HandlerError::Parse(ParseError::NoFileProvided)))
            } else {
                match n {
                    Stage::Parsed(cl2, p) => cl2 == cl && planned(c, req, p),
                    _ => false,
                }
            },
            Event::PartsRead(Err(err)) => n == Stage::Responded(failure(HandlerError::Parse(err))),
            _ => n == s,
        },
        Stage::Parsed(_, p) => match e {
            Event::WriteDone(Ok(_)) => n == Stage::Responded(
                HandlerResponse {
                    status: 200,
                    body: ResponseBody::Success { key: p.key, metadata: p.metadata },
                },
            ),
            Event::WriteDone(Err(err)) => n == Stage::Responded(failure(HandlerError::Write(err))),
            _ => n == s,
        },
        Stage::Responded(_) => n == s,
    }
}

/// Plans the write of a parsed request: its key, body, content type and
/// metadata, into the configured bucket.
pub fn plan_upload(cfg: &R2Config, req: UploadRequest) -> (r: PutObjectRequest)
    requires
        req.file_bytes@.len() > 0,
    ensures
        planned(*cfg, req, r),
{
    let key = object_key(&req.file_name);
    let metadata = metadata_for(&req.description);
    proof {
        reveal_strlit("application/octet-stream");
        reveal_strlit("uploads/");
    }
    let r = PutObjectRequest {
        bucket: cfg.bucket.clone(),
        key,
        body: req.file_bytes,
        content_type: Some(String::from_str("application/octet-stream")),
        metadata,
    };
    proof {
        assert(r.key@.len() >= 8) by {
            assert("uploads/"@.len() == 8);
        }
    }
    r
}

impl Stage {
    /// Advances the machine by one event.
    pub fn step(self, e: Event) -> (n: Stage)
        ensures
            step_allows(self, e, n),
    {
        match self {
            Stage::Init => match e {
                Event::ConfigRead(Ok(c)) => Stage::ConfigLoaded(c),
                Event::ConfigRead(Err(err)) => Stage::Responded(
                    HandlerResponse::error(HandlerError::Config(err)),
                ),
                _ => Stage::Init,
            },
            Stage::ConfigLoaded(c) => match e {
                Event::BuildClient => match build_r2_client(&c) {
                    Ok(cl) => Stage::ClientReady(c, cl),
                    Err(err) => Stage::Responded(HandlerResponse::error(HandlerError::Client(err))),
                },
                _ => Stage::ConfigLoaded(c),
            },
            Stage::ClientReady(c, cl) => match e {
                Event::PartsRead(Ok(req)) => {
                    if req.file_bytes.len() == 0 {
                        Stage::Responded(HandlerResponse::error(HandlerError::Parse(ParseError::NoFileProvided)))
                    } else {
                        let p = plan_upload(&c, req);
                        Stage::Parsed(cl, p)
                    }
                },
                Event::PartsRead(Err(err)) => Stage::Responded(
                    HandlerResponse::error(HandlerError::Parse(err)),
                ),
                _ => Stage::ClientReady(c, cl),
            },
            Stage::Parsed(cl, p) => match e {
                Event::WriteDone(Ok(_)) => Stage::Responded(HandlerResponse::success(p.key, p.metadata)),
                Event::WriteDone(Err(err)) => Stage::Responded(
                    HandlerResponse::error(HandlerError::Write(err)),
                ),
                _ => Stage::Parsed(cl, p),
            },
            Stage::Responded(r) => Stage::Responded(r),
        }
    }
}

/// What an answer about a stored object says.
pub struct StoredAnswer {
    pub status: u16,
    pub key: Seq<char>,
    pub metadata: Seq<(Seq<char>, Seq<char>)>,
}

/// The answer of a stage that responded with a stored object.
pub open spec fn stored(s: Stage) -> Option<StoredAnswer> {
    match s {
        Stage::Responded(r) => match r.body {
            ResponseBody::Success { key, metadata } => Some(StoredAnswer { status: r.status, key: key@, metadata: pairs_view(metadata) }),
            ResponseBody::Error(_) => None,
        },
        _ => None,
    }
}

/// Any parts whose `file` part left non-empty bytes lead, once written, to a
/// 200 answer whose key starts with `uploads/`.
pub proof fn lemma_nonempty_file_is_stored(
    cfg: R2Config,
    cl: Client,
    parts: Seq<Part>,
    parsed: Result<UploadRequest, ParseError>,
    s1: Stage,
    s2: Stage,
)
    requires
        gather(parts).bytes.len() > 0,
        request_matches(parsed, gather(parts)),
        step_allows(Stage::ClientReady(cfg, cl), Event::PartsRead(parsed), s1),
        step_allows(s1, Event::WriteDone(Ok(())), s2),
    ensures
        stored(s2) is Some,
        stored(s2)->0.status == 200,
        has_upload_prefix(stored(s2)->0.key),
{
}

/// A named file gets the key `uploads/<name>`, the same on every request.
pub proof fn lemma_named_key_is_stable(
    c1: R2Config,
    c2: R2Config,
    cl1: Client,
    cl2: Client,
    r1: UploadRequest,
    r2: UploadRequest,
    s1: Stage,
    s2: Stage,
)
    requires
        r1.file_bytes@.len() > 0,
        r2.file_bytes@.len() > 0,
        r1.file_name is Some,
        opt_view(r1.file_name) == opt_view(r2.file_name),
        step_allows(Stage::ClientReady(c1, cl1), Event::PartsRead(Ok(r1)), s1),
        step_allows(Stage::ClientReady(c2, cl2), Event::PartsRead(Ok(r2)), s2),
    ensures
        s1 is Parsed && s2 is Parsed,
        s1->Parsed_1.key@ == key_for_name(r1.file_name->0@),
        s1->Parsed_1.key@ == s2->Parsed_1.key@,
{
}

/// A stored object's answer echoes exactly `{description: <value>}` where a
/// description was given, and no metadata where none was.
pub proof fn lemma_metadata_echoes_description(
    cfg: R2Config,
    cl: Client,
    req: UploadRequest,
    s1: Stage,
    s2: Stage,
)
    requires
        req.file_bytes@.len() > 0,
        step_allows(Stage::ClientReady(cfg, cl), Event::PartsRead(Ok(req)), s1),
        step_allows(s1, Event::WriteDone(Ok(())), s2),
    ensures
        stored(s2) is Some,
        req.description is Some ==> stored(s2)->0.metadata == seq![("description"@, req.description->0@)],
        req.description is None ==> stored(s2)->0.metadata.len() == 0,
{
}

/// A failed write is answered 500 with an error body; the key had been fixed
/// before the write was attempted.
pub proof fn lemma_write_failure_is_reported(
    cfg: R2Config,
    cl: Client,
    req: UploadRequest,
    err: WriteError,
    s1: Stage,
    s2: Stage,
)
    requires
        req.file_bytes@.len() > 0,
        step_allows(Stage::ClientReady(cfg, cl), Event::PartsRead(Ok(req)), s1),
        step_allows(s1, Event::WriteDone(Err(err)), s2),
    ensures
        s1 is Parsed && key_fits(opt_view(req.file_name), s1->Parsed_1.key@),
        s2 is Responded,
        s2->Responded_0.status == 500,
        s2->Responded_0.body is Error,
{
}

/// Two requests run as machines of their own: each answer carries its own
/// request's key and metadata, and different file names give different keys.
pub proof fn lemma_requests_are_independent(
    cfg_a: R2Config,
    cfg_b: R2Config,
    cl_a: Client,
    cl_b: Client,
    a: UploadRequest,
    b: UploadRequest,
    a1: Stage,
    a2: Stage,
    b1: Stage,
    b2: Stage,
)
    requires
        a.file_bytes@.len() > 0,
        b.file_bytes@.len() > 0,
        a.file_name is Some,
        b.file_name is Some,
        a.file_name->0@ != b.file_name->0@,
        step_allows(Stage::ClientReady(cfg_a, cl_a), Event::PartsRead(Ok(a)), a1),
        step_allows(a1, Event::WriteDone(Ok(())), a2),
        step_allows(Stage::ClientReady(cfg_b, cl_b), Event::PartsRead(Ok(b)), b1),
        step_allows(b1, Event::WriteDone(Ok(())), b2),
    ensures
        stored(a2) is Some && stored(b2) is Some,
        stored(a2)->0.key == key_for_name(a.file_name->0@),
        stored(b2)->0.key == key_for_name(b.file_name->0@),
        stored(a2)->0.key != stored(b2)->0.key,
        stored(a2)->0.metadata == metadata_of(opt_view(a.description)),
        stored(b2)->0.metadata == metadata_of(opt_view(b.description)),
{
    let ka = key_for_name(a.file_name->0@);
    let kb = key_for_name(b.file_name->0@);
    let n = "uploads/"@.len() as int;
    if ka == kb {
        assert(ka.subrange(n, ka.len() as int) =~= a.file_name->0@);
        assert(kb.subrange(n, kb.len() as int) =~= b.file_name->0@);
    }
}

} // verus!
