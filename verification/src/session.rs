//! The session state machine. A process starts disconnected; only a
//! successful `initialize` connects it, after at most five connection
//! attempts spaced a fixed 1000 ms apart. The caller performs each attempt
//! and feeds its outcome back to `connect_result`, which decides whether to
//! retry, give up, or report success.

use vstd::prelude::*;

use crate::json::{jlookup, obj_get, obj1, obj2, obj3, jstr, views_of_pairs, JVal, Json};
use crate::rpc::{error_response, err_response_jval, ok_response_jval, Response, CONNECTION_FAILED};
use crate::text::dec_of;
use crate::text::append_u64;
use vstd::string::StringExecFns;

verus! {

/// The startup configuration, fixed before the first line is read.
#[derive(Debug)]
pub struct Config {
    pub host: String,
    pub port: u16,
    pub username: String,
    pub password: String,
    pub database: String,
    pub allow_dangerous: bool,
}

/// Whether a database connection exists. No tool other than `initialize`
/// may run while disconnected.
#[derive(Debug, PartialEq, Eq, Structural)]
pub enum Session {
    Disconnected,
    Connected,
}

pub const MAX_CONNECT_ATTEMPTS: u32 = 5;

pub const RETRY_DELAY_MS: u64 = 1000;

/// The connection string assembled from the startup configuration.
pub open spec fn spec_url(cfg: &Config) -> Seq<char> {
    "mysql://"@ + cfg.username@ + ":"@ + cfg.password@ + "@"@ + cfg.host@ + ":"@ + dec_of(
        cfg.port as int,
    ) + "/"@ + cfg.database@
}

/// A connection string supplied with the `initialize` request, nested under
/// `initializationOptions.settings.databaseUrl`; `None` anywhere along that
/// path falls back to the startup configuration.
pub open spec fn override_url(params: Option<JVal>) -> Option<Seq<char>> {
    match params {
        Some(JVal::Obj(o)) => match jlookup(o, "initializationOptions"@) {
            Some(JVal::Obj(io)) => match jlookup(io, "settings"@) {
                Some(JVal::Obj(s)) => match jlookup(s, "databaseUrl"@) {
                    Some(JVal::Str(u)) => Some(u),
                    _ => None,
                },
                _ => None,
            },
            _ => None,
        },
        _ => None,
    }
}

/// The connection string `initialize` uses: the override wins when present.
pub open spec fn resolved_url(params: Option<JVal>, cfg: &Config) -> Seq<char> {
    match override_url(params) {
        Some(u) => u,
        None => spec_url(cfg),
    }
}

/// Assembles the configured connection string.
pub fn build_url(cfg: &Config) -> (r: String)
    ensures
        r@ == spec_url(cfg),
{
    let mut url = String::new();
    url.append("mysql://");
    url.append(cfg.username.as_str());
    url.append(":");
    url.append(cfg.password.as_str());
    url.append("@");
    url.append(cfg.host.as_str());
    url.append(":");
    append_u64(&mut url, cfg.port as u64);
    url.append("/");
    url.append(cfg.database.as_str());
    proof {
        assert((((((((((Seq::<char>::empty() + "mysql://"@) + cfg.username@) + ":"@)
            + cfg.password@) + "@"@) + cfg.host@) + ":"@) + dec_of(cfg.port as int)) + "/"@)
            + cfg.database@ =~= spec_url(cfg));
    }
    url
}

/// Resolves the connection string for an `initialize` request.
pub fn resolve_url(params: &Option<Json>, cfg: &Config) -> (r: String)
    ensures
        r@ == resolved_url(crate::json::opt_view(*params), cfg),
{
    let fields = match params {
        Some(Json::Obj(fields)) => fields,
        _ => {
            return build_url(cfg);
        },
    };
    let io_fields = match obj_get(fields, "initializationOptions") {
        Some(Json::Obj(io_fields)) => io_fields,
        _ => {
            return build_url(cfg);
        },
    };
    let s_fields = match obj_get(io_fields, "settings") {
        Some(Json::Obj(s_fields)) => s_fields,
        _ => {
            return build_url(cfg);
        },
    };
    match obj_get(s_fields, "databaseUrl") {
        Some(Json::Str(u)) => u.clone(),
        _ => build_url(cfg),
    }
}

/// An `initialize` request part-way through its connection attempts.
#[derive(Debug)]
pub struct ConnectFlow {
    /// The id of the `initialize` request, echoed in the eventual response.
    pub id: Json,
    /// The connection string every attempt uses.
    pub url: String,
    /// Failed attempts so far; always below `MAX_CONNECT_ATTEMPTS`.
    pub attempts: u32,
}

/// What to do after one connection attempt.
#[derive(Debug)]
pub enum ConnectStep {
    /// Wait `delay_ms`, then attempt again with `flow`.
    Retry { delay_ms: u64, flow: ConnectFlow },
    /// The flow is over: emit `response`, and mark the session connected
    /// exactly when `connected` holds.
    Done { connected: bool, response: Response },
}

/// The protocol metadata a successful `initialize` returns.
pub open spec fn init_result_jval() -> JVal {
    JVal::Obj(
        seq![
            ("protocolVersion"@, JVal::Str("2025-03-26"@)),
            (
                "capabilities"@,
                JVal::Obj(
                    seq![("tools"@, JVal::Obj(seq![("listChanged"@, JVal::Bool(true))]))],
                ),
            ),
            (
                "serverInfo"@,
                JVal::Obj(
                    seq![
                        ("name"@, JVal::Str("mcp-server-mysql"@)),
                        ("version"@, JVal::Str("0.1.0"@)),
                    ],
                ),
            ),
        ],
    )
}

/// Builds the `initialize` success payload.
pub fn build_init_result() -> (r: Json)
    ensures
        r.deep_view() == init_result_jval(),
{
    let caps = obj1("tools", obj1("listChanged", Json::Bool(true)));
    let server_info = obj2("name", jstr("mcp-server-mysql"), "version", jstr("0.1.0"));
    obj3(
        "protocolVersion",
        jstr("2025-03-26"),
        "capabilities",
        caps,
        "serverInfo",
        server_info,
    )
}

/// A fresh connection flow for an `initialize` request.
pub fn start_connect(id: Json, params: &Option<Json>, cfg: &Config) -> (r: ConnectFlow)
    ensures
        r.id == id,
        r.attempts == 0,
        r.url@ == resolved_url(crate::json::opt_view(*params), cfg),
{
    let url = resolve_url(params, cfg);
    ConnectFlow { id, url, attempts: 0 }
}

/// Whether a failed attempt is followed by another one.
pub open spec fn connect_retry_decision(attempts: u32) -> bool {
    attempts + 1 < MAX_CONNECT_ATTEMPTS
}

/// Decides what follows one connection attempt: success ends the flow with
/// the protocol metadata; a failure either schedules a retry after the fixed
/// delay or, on the last allowed attempt, ends the flow with
/// `CONNECTION_FAILED` carrying the underlying message.
pub fn connect_result(flow: ConnectFlow, outcome: Result<(), String>) -> (r: ConnectStep)
    requires
        flow.attempts < MAX_CONNECT_ATTEMPTS,
    ensures
        outcome is Ok ==> (r matches ConnectStep::Done { connected, response } && connected
            && response.id == flow.id && response.jval() == ok_response_jval(
            flow.id.deep_view(),
            init_result_jval(),
        )),
        (outcome is Err && connect_retry_decision(flow.attempts)) ==> (
        r matches ConnectStep::Retry { delay_ms, flow: f2 } && delay_ms == RETRY_DELAY_MS
            && f2.id == flow.id && f2.url == flow.url && f2.attempts == flow.attempts + 1),
        outcome matches Err(m) ==> !connect_retry_decision(flow.attempts) ==> (
        r matches ConnectStep::Done { connected, response } && !connected && response.id
            == flow.id && response.jval() == err_response_jval(
            flow.id.deep_view(),
            CONNECTION_FAILED,
            "Database connection failed: "@ + m@,
        )),
{
    match outcome {
        Ok(()) => {
            let result = build_init_result();
            ConnectStep::Done { connected: true, response: Response { id: flow.id, body: Ok(result) } }
        },
        Err(m) => {
            if flow.attempts + 1 < MAX_CONNECT_ATTEMPTS {
                ConnectStep::Retry {
                    delay_ms: RETRY_DELAY_MS,
                    flow: ConnectFlow { id: flow.id, url: flow.url, attempts: flow.attempts + 1 },
                }
            } else {
                let mut msg = String::new();
                msg.append("Database connection failed: ");
                msg.append(m.as_str());
                proof {
                    assert((Seq::<char>::empty() + "Database connection failed: "@) + m@ =~=
                    "Database connection failed: "@ + m@);
                }
                ConnectStep::Done {
                    connected: false,
                    response: error_response(flow.id, CONNECTION_FAILED, msg),
                }
            }
        },
    }
}

/// Law: a flow that starts fresh and meets only failures makes exactly
/// `MAX_CONNECT_ATTEMPTS` attempts. The attempt counters it passes through
/// are 0 through 4; each of the first four failures schedules a retry (after
/// the fixed delay, by `connect_result`'s contract), and the failure at
/// counter 4 — the fifth attempt — ends the flow instead.
pub proof fn lemma_connect_budget(counters: Seq<u32>)
    requires
        counters.len() == MAX_CONNECT_ATTEMPTS,
        counters[0] == 0,
        forall|i: int|
            0 < i < counters.len() ==> counters[i] == #[trigger] counters[i - 1] + 1,
    ensures
        forall|i: int|
            0 <= i < counters.len() - 1 ==> connect_retry_decision(#[trigger] counters[i]),
        !connect_retry_decision(counters[counters.len() - 1]),
{
    assert forall|i: int| 0 <= i < counters.len() implies #[trigger] counters[i] == i by {
        lemma_counters_linear(counters, i);
    }
}

proof fn lemma_counters_linear(counters: Seq<u32>, i: int)
    requires
        counters.len() > 0,
        counters[0] == 0,
        forall|k: int|
            0 < k < counters.len() ==> counters[k] == #[trigger] counters[k - 1] + 1,
        0 <= i < counters.len(),
    ensures
        counters[i] == i,
    decreases i,
{
    if i > 0 {
        lemma_counters_linear(counters, i - 1);
    }
}

} // verus!
