use vstd::prelude::*;
use crate::config::{or_else, Config};
use crate::json::{is_str, nested_str_field, str_field, Json};
use crate::model::{first_job, is_ok_result, next_job, DonePayload, Job};

verus! {

/// The HTTP method of a request.
#[derive(PartialEq, Eq, Structural)]
pub enum Method {
    Get,
    Post,
}

/// What the caller of a request hands back to the bridge.
#[derive(PartialEq, Eq, Structural)]
pub enum Reply {
    /// The reply body, parsed as JSON.
    Json,
    /// Nothing but the fact that the request was delivered.
    Status,
    /// The raw reply body.
    Bytes,
}

/// The body of a request.
pub enum Body {
    Empty,
    Json(Json),
    /// A multipart form with a single file part.
    File { field: String, file_name: String, bytes: Vec<u8> },
}

/// One HTTP request the bridge wants made.
pub struct Request {
    pub method: Method,
    pub url: String,
    pub headers: Vec<(String, String)>,
    pub body: Body,
    pub reply: Reply,
}

/// The outside work the bridge asks for next.
pub enum Action {
    /// Make an HTTP request and report its outcome.
    Send(Request),
    /// Write `bytes` to the scratch file `file_name`.
    Save { file_name: String, bytes: Vec<u8> },
    /// Read the scratch file `file_name` back.
    Load { file_name: String },
    /// Wait `ms` milliseconds, then report `Event::Tick`.
    Wait { ms: u64 },
}

/// The outcome of the last action, as reported to the bridge.
pub enum Event {
    /// The wait is over (or the bridge has just started).
    Tick,
    /// A reply body, parsed as JSON.
    Body(Json),
    /// A reply body that came with a non-success status, parsed as JSON.
    Rejected(Json),
    /// A request was delivered; its reply is not read.
    Sent,
    /// Bytes downloaded, or read back from a scratch file.
    Bytes(Vec<u8>),
    /// A scratch file was written.
    Saved,
    /// The action failed, with the failure's description.
    Failed(String),
}

/// Where the bridge stands within one tick. Every phase but `Idle` and
/// `Polling` belongs to the job it carries.
pub enum Phase {
    /// Between ticks: the next event starts a poll.
    Idle,
    /// Waiting for the backend's list of jobs.
    Polling,
    /// The job has been claimed; waiting for the acknowledgement to go out.
    Acking(Job),
    /// Waiting for a bridge token.
    Token(Job),
    /// Waiting for the signed location of the job's protocol file.
    Locating(Job),
    /// Waiting for the protocol file's bytes.
    Downloading(Job),
    /// Waiting for the scratch copy to be written.
    Saving(Job),
    /// Waiting for the scratch copy to be read back.
    Reading(Job),
    /// Waiting for the robot to take the protocol.
    Uploading(Job),
    /// Waiting for the robot to create the run.
    CreatingRun(Job),
    /// Waiting for the success report to go out, with the id of the run
    /// the robot created (none when its reply named none).
    Reporting(Job, Option<String>),
    /// Waiting for the failure report to go out.
    ReportingFailure(Job),
}

/// The settings one bridge instance runs with, fixed for its lifetime.
pub struct Bridge {
    /// Base URL of the job backend.
    pub base: String,
    /// Base URL of the robot's REST API.
    pub robot_base: String,
    /// Shared secret sent with every backend request.
    pub secret: String,
    /// Time between ticks, in milliseconds.
    pub poll_ms: u64,
    pub cfg: Config,
}

/// The job that a phase belongs to.
pub open spec fn job_of_phase(p: Phase) -> Option<Job> {
    match p {
        Phase::Idle | Phase::Polling => None,
        Phase::Acking(j) | Phase::Token(j) | Phase::Locating(j) | Phase::Downloading(j)
        | Phase::Saving(j) | Phase::Reading(j) | Phase::Uploading(j) | Phase::CreatingRun(j)
        | Phase::Reporting(j, _) | Phase::ReportingFailure(j) => Some(j),
    }
}

/// The description a failed step is reported with.
pub open spec fn failure_text(e: Event) -> Seq<char> {
    match e {
        Event::Failed(m) => m@,
        _ => "unexpected reply"@,
    }
}

/// The body of a reply, whatever its status.
pub open spec fn reply_body(e: Event) -> Option<Json> {
    match e {
        Event::Body(j) | Event::Rejected(j) => Some(j),
        _ => None,
    }
}

/// The phase that follows `p` on event `e`. Only a poll looks at the reply's
/// status: a rejected poll offers no job.
pub open spec fn next_phase(p: Phase, e: Event) -> Phase {
    match p {
        Phase::Idle => Phase::Polling,
        Phase::Polling => match e {
            Event::Body(reply) => match first_job(reply) {
                Some(j) => Phase::Acking(j),
                None => Phase::Idle,
            },
            _ => Phase::Idle,
        },
        Phase::Acking(j) => Phase::Token(j),
        Phase::Token(j) => match reply_body(e) {
            Some(_) => Phase::Locating(j),
            None => Phase::ReportingFailure(j),
        },
        Phase::Locating(j) => match reply_body(e) {
            Some(reply) => match str_field(reply, "url"@) {
                Some(_) => Phase::Downloading(j),
                None => Phase::ReportingFailure(j),
            },
            None => Phase::ReportingFailure(j),
        },
        Phase::Downloading(j) => match e {
            Event::Bytes(_) => Phase::Saving(j),
            _ => Phase::ReportingFailure(j),
        },
        Phase::Saving(j) => match e {
            Event::Saved => Phase::Reading(j),
            _ => Phase::ReportingFailure(j),
        },
        Phase::Reading(j) => match e {
            Event::Bytes(_) => Phase::Uploading(j),
            _ => Phase::ReportingFailure(j),
        },
        Phase::Uploading(j) => match reply_body(e) {
            Some(_) => Phase::CreatingRun(j),
            None => Phase::ReportingFailure(j),
        },
        Phase::CreatingRun(j) => match reply_body(e) {
            Some(reply) => Phase::Reporting(j, nested_str_field(reply, "data"@, "id"@)),
            None => Phase::ReportingFailure(j),
        },
        Phase::Reporting(..) => Phase::Idle,
        Phase::ReportingFailure(_) => Phase::Idle,
    }
}

/// `h` is the single header `name: value`.
pub open spec fn single_header(h: Seq<(String, String)>, name: Seq<char>, value: Seq<char>) -> bool {
    h.len() == 1 && h[0].0@ == name && h[0].1@ == value
}

/// A request with the given method, URL, headers and kind of reply.
pub open spec fn is_request(
    a: Action,
    method: Method,
    url: Seq<char>,
    header: Option<(Seq<char>, Seq<char>)>,
    reply: Reply,
) -> bool {
    match a {
        Action::Send(r) => r.method == method && r.url@ == url && r.reply == reply && match header {
            Some(h) => single_header(r.headers@, h.0, h.1),
            None => r.headers@.len() == 0,
        },
        _ => false,
    }
}

/// The body of a request action.
pub open spec fn body_of(a: Action) -> Body {
    match a {
        Action::Send(r) => r.body,
        _ => Body::Empty,
    }
}

impl Bridge {
    pub open spec fn secret_header(self) -> Option<(Seq<char>, Seq<char>)> {
        Some(("x-bridge-secret"@, self.secret@))
    }

    pub open spec fn version_header() -> Option<(Seq<char>, Seq<char>)> {
        Some(("opentrons-version"@, "4"@))
    }

    /// The poll: `GET <base>/jobs-get?robotId=<robot id>`.
    pub open spec fn is_poll(self, a: Action) -> bool {
        is_request(a, Method::Get, self.base@ + "/jobs-get?robotId="@ + self.cfg.robot_id@,
            self.secret_header(), Reply::Json) && body_of(a) == Body::Empty
    }

    /// The claim of job `id`: `POST <base>/jobs-ack` with `{"id": id}`.
    pub open spec fn is_ack(self, a: Action, id: Seq<char>) -> bool {
        is_request(a, Method::Post, self.base@ + "/jobs-ack"@, self.secret_header(), Reply::Status)
            && match body_of(a) {
            Body::Json(Json::Object(m)) => m@.len() == 1 && m@[0].0@ == "id"@ && is_str(m@[0].1, id),
            _ => false,
        }
    }

    /// The token request: `POST <base>/get-bridge-token`.
    pub open spec fn is_token_request(self, a: Action) -> bool {
        is_request(a, Method::Post, self.base@ + "/get-bridge-token"@, self.secret_header(),
            Reply::Json) && body_of(a) == Body::Empty
    }

    /// The signed location of job `id`'s file, authorized by `token`.
    pub open spec fn is_locate(self, a: Action, id: Seq<char>, token: Seq<char>) -> bool {
        is_request(a, Method::Get, self.base@ + "/signed-download-secure?id="@ + id,
            Some(("Authorization"@, "Bearer "@ + token)), Reply::Json) && body_of(a) == Body::Empty
    }

    /// The protocol upload: `POST <robot base>/protocols`, the bytes as the
    /// form field `files` named `protocol.py`.
    pub open spec fn is_upload(self, a: Action, bytes: Seq<u8>) -> bool {
        is_request(a, Method::Post, self.robot_base@ + "/protocols"@, Self::version_header(),
            Reply::Json) && match body_of(a) {
            Body::File { field, file_name, bytes: b } => field@ == "files"@ && file_name@
                == "protocol.py"@ && b@ == bytes,
            _ => false,
        }
    }

    /// The run creation: `POST <robot base>/runs` with
    /// `{"data": {"protocolId": protocol_id}}`.
    pub open spec fn is_create_run(self, a: Action, protocol_id: Seq<char>) -> bool {
        is_request(a, Method::Post, self.robot_base@ + "/runs"@, Self::version_header(), Reply::Json)
            && match body_of(a) {
            Body::Json(Json::Object(m)) => m@.len() == 1 && m@[0].0@ == "data"@ && match m@[0].1 {
                Json::Object(d) => d@.len() == 1 && d@[0].0@ == "protocolId"@ && is_str(
                    d@[0].1,
                    protocol_id,
                ),
                _ => false,
            },
            _ => false,
        }
    }

    /// The report on job `id`: `POST <base>/jobs-done` with
    /// `{"id", "result", "error"}`, `{"ok": true}` and null on success, null
    /// and the error text on failure.
    pub open spec fn is_report(self, a: Action, id: Seq<char>, error: Option<Seq<char>>) -> bool {
        is_request(a, Method::Post, self.base@ + "/jobs-done"@, self.secret_header(), Reply::Status)
            && match body_of(a) {
            Body::Json(Json::Object(m)) => m@.len() == 3 && m@[0].0@ == "id"@ && is_str(m@[0].1, id)
                && m@[1].0@ == "result"@ && m@[2].0@ == "error"@ && match error {
                None => is_ok_result(m@[1].1) && m@[2].1 == Json::Null,
                Some(t) => m@[1].1 == Json::Null && is_str(m@[2].1, t),
            },
            _ => false,
        }
    }

    /// The file name that job `id`'s protocol is kept under while it passes
    /// through.
    pub open spec fn scratch_name(id: Seq<char>) -> Seq<char> {
        id + ".py"@
    }

    /// The action that goes with the step from `p` on event `e`.
    pub open spec fn is_action(self, p: Phase, e: Event, a: Action) -> bool {
        match next_phase(p, e) {
            Phase::Idle => a == Action::Wait { ms: self.poll_ms },
            Phase::Polling => self.is_poll(a),
            Phase::Acking(j) => self.is_ack(a, j.id@),
            Phase::Token(_) => self.is_token_request(a),
            Phase::Locating(j) => match reply_body(e) {
                Some(reply) => self.is_locate(a, j.id@, match str_field(reply, "token"@) {
                    Some(t) => t@,
                    None => Seq::empty(),
                }),
                None => false,
            },
            Phase::Downloading(_) => match reply_body(e) {
                Some(reply) => match str_field(reply, "url"@) {
                    Some(u) => is_request(a, Method::Get, u@, None, Reply::Bytes) && body_of(a)
                        == Body::Empty,
                    None => false,
                },
                None => false,
            },
            Phase::Saving(j) => match (e, a) {
                (Event::Bytes(b), Action::Save { file_name, bytes }) => file_name@
                    == Self::scratch_name(j.id@) && bytes == b,
                _ => false,
            },
            Phase::Reading(j) => match a {
                Action::Load { file_name } => file_name@ == Self::scratch_name(j.id@),
                _ => false,
            },
            Phase::Uploading(_) => match e {
                Event::Bytes(b) => self.is_upload(a, b@),
                _ => false,
            },
            Phase::CreatingRun(_) => match reply_body(e) {
                Some(reply) => self.is_create_run(a, match nested_str_field(reply, "data"@, "id"@) {
                    Some(id) => id@,
                    None => Seq::empty(),
                }),
                None => false,
            },
            Phase::Reporting(j, _) => self.is_report(a, j.id@, None),
            Phase::ReportingFailure(j) => match p {
                Phase::Locating(_) => match reply_body(e) {
                    Some(_) => self.is_report(a, j.id@, Some("signed download reply has no url"@)),
                    _ => self.is_report(a, j.id@, Some(failure_text(e))),
                },
                _ => self.is_report(a, j.id@, Some(failure_text(e))),
            },
        }
    }
}

/// An ASCII decimal digit.
pub open spec fn is_digit(c: char) -> bool {
    '0' <= c && c <= '9'
}

/// The value of a string of decimal digits.
pub open spec fn digits_value(d: Seq<char>) -> nat
    decreases d.len(),
{
    if d.len() == 0 {
        0
    } else {
        digits_value(d.drop_last()) * 10 + (d.last() as u32 - '0' as u32) as nat
    }
}

/// `s` read as a `u64`: an optional `+` and then one or more decimal digits
/// whose value fits in 64 bits.
pub open spec fn decimal_u64(s: Seq<char>) -> Option<u64> {
    let d = if s.len() > 0 && s[0] == '+' {
        s.drop_first()
    } else {
        s
    };
    if d.len() > 0 && (forall|i: int| 0 <= i < d.len() ==> is_digit(#[trigger] d[i]))
        && digits_value(d) <= u64::MAX {
        Some(digits_value(d) as u64)
    } else {
        None
    }
}

/// Relies on `u64::from_str` (through `str::parse`): it takes an optional `+`
/// followed by decimal digits only, and fails on anything else or on a value
/// that does not fit.
#[verifier::external_body]
fn parse_u64(s: &str) -> (r: Option<u64>)
    ensures
        r == decimal_u64(s@),
{
    s.parse::<u64>().ok()
}

fn join(a: &String, b: &str) -> (r: String)
    ensures
        r@ == a@ + b@,
{
    let mut r = a.clone();
    r.append(b);
    r
}

fn header(name: &str, value: String) -> (r: Vec<(String, String)>)
    ensures
        single_header(r@, name@, value@),
{
    vec![(name.to_owned(), value)]
}

impl Bridge {
    /// A bridge for `cfg`, with the backend URL, the shared secret and the
    /// poll interval as the environment gives them (`BACKEND`,
    /// `BRIDGE_SHARED_SECRET`, `POLL_MS`). Unset values read as empty; the
    /// interval is 5000 ms unless `POLL_MS` is a valid number.
    pub fn new(cfg: Config, backend: Option<String>, secret: Option<String>, poll_ms: Option<String>) -> (r: Bridge)
        ensures
            r.base@ == or_else(backend, Seq::empty()),
            r.secret@ == or_else(secret, Seq::empty()),
            r.poll_ms == match poll_ms {
                Some(s) => match decimal_u64(s@) {
                    Some(n) => n,
                    None => 5000,
                },
                None => 5000,
            },
            r.robot_base == cfg.robot_base,
            r.cfg == cfg,
    {
        let base = match backend {
            Some(b) => b,
            None => String::new(),
        };
        let secret = match secret {
            Some(s) => s,
            None => String::new(),
        };
        let poll_ms = match poll_ms {
            Some(s) => match parse_u64(s.as_str()) {
                Some(n) => n,
                None => 5000,
            },
            None => 5000,
        };
        let robot_base = cfg.robot_base.clone();
        Bridge { base, robot_base, secret, poll_ms, cfg }
    }

    fn wait(&self) -> (a: Action)
        ensures
            a == (Action::Wait { ms: self.poll_ms }),
    {
        Action::Wait { ms: self.poll_ms }
    }

    fn poll_request(&self) -> (a: Action)
        ensures
            self.is_poll(a),
    {
        let url = join(&join(&self.base, "/jobs-get?robotId="), self.cfg.robot_id.as_str());
        let headers = header("x-bridge-secret", self.secret.clone());
        Action::Send(Request { method: Method::Get, url, headers, body: Body::Empty, reply: Reply::Json })
    }

    fn ack_request(&self, id: &String) -> (a: Action)
        ensures
            self.is_ack(a, id@),
    {
        let url = join(&self.base, "/jobs-ack");
        let headers = header("x-bridge-secret", self.secret.clone());
        let body = Json::Object(vec![("id".to_owned(), Json::Str(id.clone()))]);
        Action::Send(
            Request { method: Method::Post, url, headers, body: Body::Json(body), reply: Reply::Status },
        )
    }

    fn token_request(&self) -> (a: Action)
        ensures
            self.is_token_request(a),
    {
        let url = join(&self.base, "/get-bridge-token");
        let headers = header("x-bridge-secret", self.secret.clone());
        Action::Send(Request { method: Method::Post, url, headers, body: Body::Empty, reply: Reply::Json })
    }

    fn locate_request(&self, id: &String, token: &String) -> (a: Action)
        ensures
            self.is_locate(a, id@, token@),
    {
        let url = join(&join(&self.base, "/signed-download-secure?id="), id.as_str());
        let bearer = join(&"Bearer ".to_owned(), token.as_str());
        let headers = header("Authorization", bearer);
        Action::Send(Request { method: Method::Get, url, headers, body: Body::Empty, reply: Reply::Json })
    }

    fn upload_request(&self, bytes: Vec<u8>) -> (a: Action)
        ensures
            self.is_upload(a, bytes@),
    {
        let url = join(&self.robot_base, "/protocols");
        let headers = header("opentrons-version", "4".to_owned());
        let body = Body::File { field: "files".to_owned(), file_name: "protocol.py".to_owned(), bytes };
        Action::Send(Request { method: Method::Post, url, headers, body, reply: Reply::Json })
    }

    fn create_run_request(&self, protocol_id: String) -> (a: Action)
        ensures
            self.is_create_run(a, protocol_id@),
    {
        let url = join(&self.robot_base, "/runs");
        let headers = header("opentrons-version", "4".to_owned());
        let data = Json::Object(vec![("protocolId".to_owned(), Json::Str(protocol_id))]);
        let body = Json::Object(vec![("data".to_owned(), data)]);
        Action::Send(Request { method: Method::Post, url, headers, body: Body::Json(body), reply: Reply::Json })
    }

    fn report_request(&self, id: &String, error: Option<String>) -> (a: Action)
        ensures
            self.is_report(
                a,
                id@,
                match error {
                    Some(t) => Some(t@),
                    None => None,
                },
            ),
    {
        let success = error.is_none();
        let payload = DonePayload::new(id, success, error);
        let url = join(&self.base, "/jobs-done");
        let headers = header("x-bridge-secret", self.secret.clone());
        Action::Send(
            Request {
                method: Method::Post,
                url,
                headers,
                body: Body::Json(payload.to_json()),
                reply: Reply::Status,
            },
        )
    }

    fn fail(&self, job: Job, event: Event) -> (r: (Phase, Action))
        ensures
            r.0 == Phase::ReportingFailure(job),
            self.is_report(r.1, job.id@, Some(failure_text(event))),
    {
        let message = match event {
            Event::Failed(m) => m,
            _ => "unexpected reply".to_owned(),
        };
        let a = self.report_request(&job.id, Some(message));
        (Phase::ReportingFailure(job), a)
    }

    /// Decides the next phase and action from the current phase and the
    /// outcome of the last action.
    pub fn step(&self, phase: Phase, event: Event) -> (r: (Phase, Action))
        ensures
            r.0 == next_phase(phase, event),
            self.is_action(phase, event, r.1),
    {
        match phase {
            Phase::Idle => (Phase::Polling, self.poll_request()),
            Phase::Polling => match event {
                Event::Body(reply) => match next_job(&reply) {
                    Some(job) => {
                        let a = self.ack_request(&job.id);
                        (Phase::Acking(job), a)
                    },
                    None => (Phase::Idle, self.wait()),
                },
                _ => (Phase::Idle, self.wait()),
            },
            Phase::Acking(job) => (Phase::Token(job), self.token_request()),
            Phase::Token(job) => match event {
                Event::Body(reply) | Event::Rejected(reply) => {
                    let token = match reply.get_str(&"token".to_owned()) {
                        Some(t) => t,
                        None => String::new(),
                    };
                    let a = self.locate_request(&job.id, &token);
                    (Phase::Locating(job), a)
                },
                _ => self.fail(job, event),
            },
            Phase::Locating(job) => match event {
                Event::Body(reply) | Event::Rejected(reply) => match reply.get_str(&"url".to_owned()) {
                    Some(url) => {
                        let a = Action::Send(
                            Request {
                                method: Method::Get,
                                url,
                                headers: Vec::new(),
                                body: Body::Empty,
                                reply: Reply::Bytes,
                            },
                        );
                        (Phase::Downloading(job), a)
                    },
                    None => {
                        let message = "signed download reply has no url".to_owned();
                        let a = self.report_request(&job.id, Some(message));
                        (Phase::ReportingFailure(job), a)
                    },
                },
                _ => self.fail(job, event),
            },
            Phase::Downloading(job) => match event {
                Event::Bytes(bytes) => {
                    let file_name = join(&job.id, ".py");
                    (Phase::Saving(job), Action::Save { file_name, bytes })
                },
                _ => self.fail(job, event),
            },
            Phase::Saving(job) => match event {
                Event::Saved => {
                    let file_name = join(&job.id, ".py");
                    (Phase::Reading(job), Action::Load { file_name })
                },
                _ => self.fail(job, event),
            },
            Phase::Reading(job) => match event {
                Event::Bytes(bytes) => (Phase::Uploading(job), self.upload_request(bytes)),
                _ => self.fail(job, event),
            },
            Phase::Uploading(job) => match event {
                Event::Body(reply) | Event::Rejected(reply) => {
                    let protocol_id = match reply.get_nested_str(&"data".to_owned(), &"id".to_owned()) {
                        Some(p) => p,
                        None => String::new(),
                    };
                    (Phase::CreatingRun(job), self.create_run_request(protocol_id))
                },
                _ => self.fail(job, event),
            },
            Phase::CreatingRun(job) => match event {
                Event::Body(reply) | Event::Rejected(reply) => {
                    let run_id = reply.get_nested_str(&"data".to_owned(), &"id".to_owned());
                    let a = self.report_request(&job.id, None);
                    (Phase::Reporting(job, run_id), a)
                },
                _ => self.fail(job, event),
            },
            Phase::Reporting(..) => (Phase::Idle, self.wait()),
            Phase::ReportingFailure(_) => (Phase::Idle, self.wait()),
        }
    }
}

/// The phase reached from `p` after the events `evs`, in order.
pub open spec fn phase_after(p: Phase, evs: Seq<Event>) -> Phase
    decreases evs.len(),
{
    if evs.len() == 0 {
        p
    } else {
        next_phase(phase_after(p, evs.drop_last()), evs.last())
    }
}

proof fn lemma_phase_after_step(p: Phase, evs: Seq<Event>, i: int)
    requires
        0 <= i < evs.len(),
    ensures
        phase_after(p, evs.take(i + 1)) == next_phase(phase_after(p, evs.take(i)), evs[i]),
{
    assert(evs.take(i + 1).drop_last() =~= evs.take(i));
    assert(evs.take(i + 1).last() == evs[i]);
}

proof fn lemma_job_kept(p: Phase, e: Event, j: Job)
    requires
        job_of_phase(next_phase(p, e)) == Some(j),
        !(next_phase(p, e) is Acking),
    ensures
        job_of_phase(p) == Some(j),
{
}

proof fn lemma_in_flight(evs: Seq<Event>, n: int, j: Job)
    requires
        0 <= n <= evs.len(),
        job_of_phase(phase_after(Phase::Idle, evs.take(n))) == Some(j),
    ensures
        exists|k: int|
            1 <= k <= n && phase_after(Phase::Idle, evs.take(k)) == Phase::Acking(j) && (forall|m: int|
                k <= m <= n ==> job_of_phase(#[trigger] phase_after(Phase::Idle, evs.take(m)))
                    == Some(j)) && (forall|m: int|
                k < m <= n ==> !(#[trigger] phase_after(Phase::Idle, evs.take(m)) is Acking)),
    decreases n,
{
    if n == 0 {
        assert(evs.take(0).len() == 0);
    } else {
        lemma_phase_after_step(Phase::Idle, evs, n - 1);
        let prev = phase_after(Phase::Idle, evs.take(n - 1));
        if phase_after(Phase::Idle, evs.take(n)) is Acking {
            assert(forall|m: int|
                n <= m <= n ==> job_of_phase(#[trigger] phase_after(Phase::Idle, evs.take(m)))
                    == Some(j));
            assert(forall|m: int|
                n < m <= n ==> !(#[trigger] phase_after(Phase::Idle, evs.take(m)) is Acking));
        } else {
            lemma_job_kept(prev, evs[n - 1], j);
            lemma_in_flight(evs, n - 1, j);
            let k = choose|k: int|
                1 <= k <= n - 1 && phase_after(Phase::Idle, evs.take(k)) == Phase::Acking(j) && (
                forall|m: int|
                    k <= m <= n - 1 ==> job_of_phase(#[trigger] phase_after(Phase::Idle, evs.take(m)))
                        == Some(j)) && (forall|m: int|
                    k < m <= n - 1 ==> !(#[trigger] phase_after(Phase::Idle, evs.take(m)) is Acking));
            assert(forall|m: int|
                k <= m <= n ==> job_of_phase(#[trigger] phase_after(Phase::Idle, evs.take(m)))
                    == Some(j));
            assert(forall|m: int|
                k < m <= n ==> !(#[trigger] phase_after(Phase::Idle, evs.take(m)) is Acking));
        }
    }
}

/// Whenever a running bridge moves to ask for a job's signed download
/// location, to download the job's protocol, to upload it, or to create its
/// run, it has acknowledged that job at an earlier step, exactly once: the
/// job has been in hand ever since, and no later step acknowledges again.
pub proof fn lemma_ack_before_work(b: Bridge, evs: Seq<Event>, i: int)
    requires
        0 <= i < evs.len(),
    ensures
        match phase_after(Phase::Idle, evs.take(i + 1)) {
            Phase::Locating(j) | Phase::Downloading(j) | Phase::Uploading(j) | Phase::CreatingRun(
                j,
            ) => exists|k: int|
                0 <= k < i && phase_after(Phase::Idle, #[trigger] evs.take(k + 1)) == Phase::Acking(j) && (
                forall|a: Action|
                    b.is_action(phase_after(Phase::Idle, evs.take(k)), evs[k], a) ==> b.is_ack(
                        a,
                        j.id@,
                    )) && (forall|m: int|
                    k < m <= i + 1 ==> job_of_phase(#[trigger] phase_after(Phase::Idle, evs.take(m)))
                        == Some(j)) && (forall|m: int|
                    k + 1 < m <= i + 1 ==> !(#[trigger] phase_after(Phase::Idle, evs.take(m)) is Acking)),
            _ => true,
        },
{
    let q = phase_after(Phase::Idle, evs.take(i + 1));
    match q {
        Phase::Locating(j) | Phase::Downloading(j) | Phase::Uploading(j) | Phase::CreatingRun(j) => {
            lemma_in_flight(evs, i + 1, j);
            let k1 = choose|k: int|
                1 <= k <= i + 1 && phase_after(Phase::Idle, evs.take(k)) == Phase::Acking(j) && (
                forall|m: int|
                    k <= m <= i + 1 ==> job_of_phase(#[trigger] phase_after(Phase::Idle, evs.take(m)))
                        == Some(j)) && (forall|m: int|
                    k < m <= i + 1 ==> !(#[trigger] phase_after(Phase::Idle, evs.take(m)) is Acking));
            let k = k1 - 1;
            lemma_phase_after_step(Phase::Idle, evs, k);
            assert(k1 != i + 1);
            assert(evs.take(k + 1) == evs.take(k1));
        },
        _ => {},
    }
}

/// When the upload of a job's protocol fails, the bridge reports the job
/// as failed, with the failure's text, exactly once, and goes back to
/// waiting without creating a run.
pub proof fn lemma_upload_failure(b: Bridge, j: Job, failure: String, then: Event, a: Action, a2: Action)
    ensures
        next_phase(Phase::Uploading(j), Event::Failed(failure)) == Phase::ReportingFailure(j),
        b.is_action(Phase::Uploading(j), Event::Failed(failure), a) ==> b.is_report(
            a,
            j.id@,
            Some(failure@),
        ),
        next_phase(Phase::ReportingFailure(j), then) == Phase::Idle,
        b.is_action(Phase::ReportingFailure(j), then, a2) ==> a2 == (Action::Wait { ms: b.poll_ms }),
{
}

/// `a` is a jobs-done report whose body carries exactly one of `result`
/// and `error`: `{"ok": true}` with a null error, or a null result with a
/// string error.
pub open spec fn is_exclusive_report(a: Action) -> bool {
    match body_of(a) {
        Body::Json(Json::Object(m)) => m@.len() == 3 && m@[1].0@ == "result"@ && m@[2].0@ == "error"@
            && ((is_ok_result(m@[1].1) && m@[2].1 == Json::Null) || (m@[1].1 == Json::Null
            && m@[2].1 is Str)),
        _ => false,
    }
}

/// Every report the bridge sends carries exactly one of a result and an
/// error: a success report has the result `{"ok": true}` and no error, a
/// failure report no result and the failure's text.
pub proof fn lemma_reports_exclusive(b: Bridge, p: Phase, e: Event, a: Action)
    requires
        b.is_action(p, e, a),
        next_phase(p, e) is Reporting || next_phase(p, e) is ReportingFailure,
    ensures
        is_exclusive_report(a),
        next_phase(p, e) is Reporting ==> b.is_report(a, job_of_phase(p)->0.id@, None),
        next_phase(p, e) is ReportingFailure ==> exists|t: Seq<char>|
            b.is_report(a, job_of_phase(p)->0.id@, Some(t)),
{
    match next_phase(p, e) {
        Phase::ReportingFailure(j) => {
            let t = match p {
                Phase::Locating(_) => match reply_body(e) {
                    Some(_) => "signed download reply has no url"@,
                    None => failure_text(e),
                },
                _ => failure_text(e),
            };
            assert(b.is_report(a, j.id@, Some(t)));
        },
        _ => {},
    }
}

/// An event that hands the bridge a job.
pub open spec fn offers_job(e: Event) -> bool {
    match e {
        Event::Body(reply) => first_job(reply) is Some,
        _ => false,
    }
}

/// While no poll turns up a job, the bridge only polls and waits: it never
/// acknowledges, reports, or calls the robot.
pub proof fn lemma_no_job_no_work(b: Bridge, evs: Seq<Event>)
    requires
        forall|i: int| 0 <= i < evs.len() ==> !offers_job(#[trigger] evs[i]),
    ensures
        forall|n: int|
            0 <= n <= evs.len() ==> {
                let p = #[trigger] phase_after(Phase::Idle, evs.take(n));
                p is Idle || p is Polling
            },
        forall|i: int, a: Action|
            0 <= i < evs.len() && #[trigger] b.is_action(phase_after(Phase::Idle, evs.take(i)), evs[i], a)
                ==> b.is_poll(a) || a == (Action::Wait { ms: b.poll_ms }),
{
    assert forall|n: int| 0 <= n <= evs.len() implies {
        let p = #[trigger] phase_after(Phase::Idle, evs.take(n));
        p is Idle || p is Polling
    } by {
        lemma_quiet_prefix(b, evs, n);
    }
    assert forall|i: int, a: Action|
        0 <= i < evs.len() && #[trigger] b.is_action(phase_after(Phase::Idle, evs.take(i)), evs[i], a)
        implies b.is_poll(a) || a == (Action::Wait { ms: b.poll_ms }) by {
        lemma_quiet_prefix(b, evs, i);
        assert(!offers_job(evs[i]));
    }
}

proof fn lemma_quiet_prefix(b: Bridge, evs: Seq<Event>, n: int)
    requires
        0 <= n <= evs.len(),
        forall|i: int| 0 <= i < evs.len() ==> !offers_job(#[trigger] evs[i]),
    ensures
        phase_after(Phase::Idle, evs.take(n)) is Idle || phase_after(Phase::Idle, evs.take(n)) is Polling,
    decreases n,
{
    if n == 0 {
        assert(evs.take(0).len() == 0);
    } else {
        lemma_quiet_prefix(b, evs, n - 1);
        lemma_phase_after_step(Phase::Idle, evs, n - 1);
        assert(!offers_job(evs[n - 1]));
    }
}

} // verus!
