//! The protocol gateway: answers JSON-RPC requests (`initialize`,
//! `tools/list`, `tools/call`) and routes the HTTP requests around them.
use crate::json::{
    has_member, has_text_member, is_int, is_text, parse_json, parsed, render_json, rendered,
    size, value_at, Json,
};
use crate::registry::{
    call_tool, catalog, catalog_of, list_tools, outcome, ParamKind, ToolDescriptor,
    ToolDescriptorView, ToolFailure,
};
use crate::text::str_eq;
use vstd::prelude::*;
use vstd::string::*;

verus! {

/// JSON-RPC code for a method that the gateway does not know, and for a call
/// of a tool that the registry does not know.
pub const METHOD_NOT_FOUND: i64 = -32601;

/// JSON-RPC code for a tool call whose parameters are missing or invalid.
pub const INVALID_PARAMS: i64 = -32602;

/// The method named by a request; empty where it names none.
pub open spec fn method_of(req: Json) -> Seq<char> {
    match req.field("method"@) {
        Some(Json::Str(s)) => s@,
        _ => Seq::empty(),
    }
}

/// The id that a response to `req` carries: the request's own, or null.
pub open spec fn id_of(req: Json) -> Json {
    match req.field("id"@) {
        Some(i) => i,
        None => Json::Null,
    }
}

/// `r` is a response to `req` whose third member is `key` with value `body`.
pub open spec fn is_envelope(r: Json, req: Json, key: Seq<char>, body: Json) -> bool {
    &&& size(r) == 3
    &&& has_text_member(r, 0, "jsonrpc"@, "2.0"@)
    &&& has_member(r, 1, "id"@, id_of(req))
    &&& has_member(r, 2, key, body)
}

/// `e` is an error object with `code` and `message`.
pub open spec fn is_error_object(e: Json, code: int, message: Seq<char>) -> bool {
    &&& size(e) == 2
    &&& e is Object
    &&& crate::json::key_at(e, 0) == "code"@
    &&& is_int(value_at(e, 0), code)
    &&& has_text_member(e, 1, "message"@, message)
}

/// `r` is a result holding the one text block `text`.
pub open spec fn is_text_result(r: Json, text: Seq<char>) -> bool {
    &&& size(r) == 1
    &&& r is Object
    &&& crate::json::key_at(r, 0) == "content"@
    &&& value_at(r, 0) is Array
    &&& size(value_at(r, 0)) == 1
    &&& size(value_at(value_at(r, 0), 0)) == 2
    &&& has_text_member(value_at(value_at(r, 0), 0), 0, "type"@, "text"@)
    &&& has_text_member(value_at(value_at(r, 0), 0), 1, "text"@, text)
}

/// `r` is the answer to `initialize`: protocol version, capabilities, server.
pub open spec fn is_initialize_result(r: Json) -> bool {
    &&& size(r) == 3
    &&& has_text_member(r, 0, "protocolVersion"@, "2025-06-18"@)
    &&& r is Object && crate::json::key_at(r, 1) == "capabilities"@
    &&& size(value_at(r, 1)) == 1 && value_at(r, 1) is Object
    &&& crate::json::key_at(value_at(r, 1), 0) == "tools"@
    &&& value_at(value_at(r, 1), 0) is Object && size(value_at(value_at(r, 1), 0)) == 0
    &&& crate::json::key_at(r, 2) == "serverInfo"@ && size(value_at(r, 2)) == 2
    &&& has_text_member(value_at(r, 2), 0, "name"@, "mcp-server"@)
    &&& has_text_member(value_at(r, 2), 1, "version"@, "0.1.0"@)
}

pub open spec fn kind_text(k: ParamKind) -> Seq<char> {
    match k {
        ParamKind::Text => "string"@,
        ParamKind::Number => "number"@,
    }
}

/// `p` is the schema entry of a parameter `(name, kind, description)`.
pub open spec fn is_property(p: Json, param: (Seq<char>, ParamKind, Seq<char>)) -> bool {
    &&& size(p) == 2
    &&& has_text_member(p, 0, "type"@, kind_text(param.1))
    &&& has_text_member(p, 1, "description"@, param.2)
}

/// `s` is the input schema of a tool with parameters `params`, all required.
pub open spec fn is_schema(s: Json, params: Seq<(Seq<char>, ParamKind, Seq<char>)>) -> bool {
    &&& size(s) == 3
    &&& has_text_member(s, 0, "type"@, "object"@)
    &&& crate::json::key_at(s, 1) == "properties"@
    &&& value_at(s, 1) is Object && size(value_at(s, 1)) == params.len()
    &&& forall|i: int| 0 <= i < params.len() ==> {
        &&& crate::json::key_at(value_at(s, 1), i) == (#[trigger] params[i]).0
        &&& is_property(value_at(value_at(s, 1), i), params[i])
    }
    &&& crate::json::key_at(s, 2) == "required"@
    &&& value_at(s, 2) is Array && size(value_at(s, 2)) == params.len()
    &&& forall|i: int| 0 <= i < params.len() ==> is_text(value_at(value_at(s, 2), i), (#[trigger] params[i]).0)
}

/// `j` describes the tool `d`.
pub open spec fn is_tool_json(j: Json, d: ToolDescriptorView) -> bool {
    &&& size(j) == 3
    &&& has_text_member(j, 0, "name"@, d.name)
    &&& has_text_member(j, 1, "description"@, d.description)
    &&& crate::json::key_at(j, 2) == "inputSchema"@
    &&& is_schema(value_at(j, 2), d.params)
}

/// `r` lists the tools `tools`, in order.
pub open spec fn is_listing(r: Json, tools: Seq<ToolDescriptorView>) -> bool {
    &&& size(r) == 1
    &&& r is Object && crate::json::key_at(r, 0) == "tools"@
    &&& value_at(r, 0) is Array && size(value_at(r, 0)) == tools.len()
    &&& forall|i: int| 0 <= i < tools.len() ==> is_tool_json(value_at(value_at(r, 0), i), #[trigger] tools[i])
}

pub open spec fn failure_code(k: ToolFailure) -> int {
    match k {
        ToolFailure::UnknownTool => METHOD_NOT_FOUND as int,
        ToolFailure::InvalidArguments => INVALID_PARAMS as int,
    }
}

/// The `params` of a request.
pub open spec fn params_of(req: Json) -> Option<Json> {
    req.field("params"@)
}

/// The tool that a `tools/call` request names, if its `params.name` is a string.
pub open spec fn call_name(req: Json) -> Option<Seq<char>> {
    match params_of(req) {
        Some(p) => match p.field("name"@) {
            Some(Json::Str(s)) => Some(s@),
            _ => None,
        },
        None => None,
    }
}

/// The `params.arguments` of a request.
pub open spec fn call_arguments(req: Json) -> Option<Json> {
    match params_of(req) {
        Some(p) => p.field("arguments"@),
        None => None,
    }
}

pub open spec fn missing_tool_name_text() -> Seq<char> {
    "Missing name"@
}

/// `r` is the gateway's answer to the request `req`.
pub open spec fn answers(r: Json, req: Json) -> bool {
    let m = method_of(req);
    if m == "initialize"@ {
        is_envelope(r, req, "result"@, value_at(r, 2)) && is_initialize_result(value_at(r, 2))
    } else if m == "tools/list"@ {
        is_envelope(r, req, "result"@, value_at(r, 2)) && is_listing(value_at(r, 2), catalog())
    } else if m == "tools/call"@ {
        match call_name(req) {
            None => is_envelope(r, req, "error"@, value_at(r, 2)) && is_error_object(
                value_at(r, 2),
                INVALID_PARAMS as int,
                missing_tool_name_text(),
            ),
            Some(name) => match outcome(name, call_arguments(req)) {
                Ok(text) => is_envelope(r, req, "result"@, value_at(r, 2)) && is_text_result(
                    value_at(r, 2),
                    text,
                ),
                Err((kind, message)) => is_envelope(r, req, "error"@, value_at(r, 2))
                    && is_error_object(value_at(r, 2), failure_code(kind), message),
            },
        }
    } else {
        is_envelope(r, req, "error"@, value_at(r, 2)) && is_error_object(
            value_at(r, 2),
            METHOD_NOT_FOUND as int,
            "Method not found: "@ + m,
        )
    }
}

fn object(members: Vec<(String, Json)>) -> (r: Json)
    ensures
        r == Json::Object(members),
{
    Json::Object(members)
}

fn error_object(code: i64, message: String) -> (r: Json)
    ensures
        is_error_object(r, code as int, message@),
{
    let mut m: Vec<(String, Json)> = Vec::new();
    m.push(Json::member("code", Json::Int(code as i128)));
    m.push((String::from_str("message"), Json::Str(message)));
    object(m)
}

fn text_result(text: String) -> (r: Json)
    ensures
        is_text_result(r, text@),
{
    let mut block: Vec<(String, Json)> = Vec::new();
    block.push(Json::member("type", Json::text("text")));
    block.push((String::from_str("text"), Json::Str(text)));
    let mut content: Vec<Json> = Vec::new();
    content.push(object(block));
    let mut m: Vec<(String, Json)> = Vec::new();
    m.push(Json::member("content", Json::Array(content)));
    object(m)
}

fn initialize_result() -> (r: Json)
    ensures
        is_initialize_result(r),
{
    let mut caps: Vec<(String, Json)> = Vec::new();
    caps.push(Json::member("tools", object(Vec::new())));
    let mut info: Vec<(String, Json)> = Vec::new();
    info.push(Json::member("name", Json::text("mcp-server")));
    info.push(Json::member("version", Json::text("0.1.0")));
    let mut m: Vec<(String, Json)> = Vec::new();
    m.push(Json::member("protocolVersion", Json::text("2025-06-18")));
    m.push(Json::member("capabilities", object(caps)));
    m.push(Json::member("serverInfo", object(info)));
    object(m)
}

fn kind_json(k: ParamKind) -> (r: Json)
    ensures
        is_text(r, kind_text(k)),
{
    match k {
        ParamKind::Text => Json::text("string"),
        ParamKind::Number => Json::text("number"),
    }
}

pub open spec fn params_view(params: Seq<crate::registry::ToolParam>) -> Seq<(Seq<char>, ParamKind, Seq<char>)> {
    params.map_values(|p: crate::registry::ToolParam| (p.name@, p.kind, p.description@))
}

fn schema_json(params: &Vec<crate::registry::ToolParam>) -> (r: Json)
    ensures
        is_schema(r, params_view(params@)),
{
    let ghost pv = params_view(params@);
    let mut props: Vec<(String, Json)> = Vec::new();
    let mut required: Vec<Json> = Vec::new();
    let mut i: usize = 0;
    while i < params.len()
        invariant
            i <= params@.len(),
            pv == params_view(params@),
            props@.len() == i,
            required@.len() == i,
            forall|j: int| 0 <= j < i ==> {
                &&& (#[trigger] props@[j]).0@ == pv[j].0
                &&& is_property(props@[j].1, pv[j])
                &&& is_text(required@[j], pv[j].0)
            },
        decreases params@.len() - i,
    {
        let p = &params[i];
        let mut prop: Vec<(String, Json)> = Vec::new();
        prop.push(Json::member("type", kind_json(p.kind)));
        prop.push(Json::member("description", Json::Str(p.description.clone())));
        props.push((p.name.clone(), object(prop)));
        required.push(Json::Str(p.name.clone()));
        i = i + 1;
    }
    let mut m: Vec<(String, Json)> = Vec::new();
    m.push(Json::member("type", Json::text("object")));
    m.push(Json::member("properties", object(props)));
    m.push(Json::member("required", Json::Array(required)));
    let r = object(m);
    assert forall|j: int| 0 <= j < pv.len() implies {
        &&& crate::json::key_at(value_at(r, 1), j) == (#[trigger] pv[j]).0
        &&& is_property(value_at(value_at(r, 1), j), pv[j])
    } by {
        assert(props@[j].0@ == pv[j].0);
    }
    assert forall|j: int| 0 <= j < pv.len() implies is_text(value_at(value_at(r, 2), j), (#[trigger] pv[j]).0) by {
        assert(is_text(required@[j], pv[j].0));
    }
    r
}

fn tool_json(d: &ToolDescriptor) -> (r: Json)
    ensures
        is_tool_json(r, d@),
{
    let mut m: Vec<(String, Json)> = Vec::new();
    m.push(Json::member("name", Json::Str(d.name.clone())));
    m.push(Json::member("description", Json::Str(d.description.clone())));
    let s = schema_json(&d.params);
    assert(params_view(d.params@) == d@.params);
    m.push(Json::member("inputSchema", s));
    object(m)
}

/// The `tools/list` result for `tools`.
pub fn tools_listing(tools: &Vec<ToolDescriptor>) -> (r: Json)
    ensures
        is_listing(r, catalog_of(tools@)),
{
    let ghost cv = catalog_of(tools@);
    let mut items: Vec<Json> = Vec::new();
    let mut i: usize = 0;
    while i < tools.len()
        invariant
            i <= tools@.len(),
            cv == catalog_of(tools@),
            items@.len() == i,
            forall|j: int| 0 <= j < i ==> is_tool_json(#[trigger] items@[j], cv[j]),
        decreases tools@.len() - i,
    {
        items.push(tool_json(&tools[i]));
        i = i + 1;
    }
    let mut m: Vec<(String, Json)> = Vec::new();
    m.push(Json::member("tools", Json::Array(items)));
    let r = object(m);
    assert forall|j: int| 0 <= j < cv.len() implies is_tool_json(value_at(value_at(r, 0), j), #[trigger] cv[j]) by {
        assert(is_tool_json(items@[j], cv[j]));
    }
    r
}

fn envelope(id: Json, key: &str, body: Json) -> (r: Json)
    ensures
        size(r) == 3,
        has_text_member(r, 0, "jsonrpc"@, "2.0"@),
        has_member(r, 1, "id"@, id),
        has_member(r, 2, key@, body),
{
    let mut m: Vec<(String, Json)> = Vec::new();
    m.push(Json::member("jsonrpc", Json::text("2.0")));
    m.push(Json::member("id", id));
    m.push(Json::member(key, body));
    object(m)
}

/// Answers one JSON-RPC request. Every answer carries the request's id
/// verbatim (null where it has none); no request makes it fail.
pub fn respond(req: Json) -> (r: Json)
    ensures
        answers(r, req),
{
    let ghost req0 = req;
    let method: &str = match req.get("method") {
        Some(Json::Str(s)) => s.as_str(),
        _ => "",
    };
    proof {
        reveal_strlit("");
    }
    assert(method@ == method_of(req0));
    let (key, body): (&str, Json) = if str_eq(method, "initialize") {
        ("result", initialize_result())
    } else if str_eq(method, "tools/list") {
        let tools = list_tools();
        ("result", tools_listing(&tools))
    } else if str_eq(method, "tools/call") {
        let params = req.get("params");
        let name = match params {
            Some(p) => p.get("name"),
            None => None,
        };
        match name {
            Some(Json::Str(n)) => {
                let arguments = match params {
                    Some(p) => p.get("arguments"),
                    None => None,
                };
                match call_tool(n.as_str(), arguments) {
                    Ok(text) => ("result", text_result(text)),
                    Err(e) => {
                        let code = match e.kind {
                            ToolFailure::UnknownTool => METHOD_NOT_FOUND,
                            ToolFailure::InvalidArguments => INVALID_PARAMS,
                        };
                        ("error", error_object(code, e.message))
                    },
                }
            },
            _ => ("error", error_object(INVALID_PARAMS, String::from_str("Missing name"))),
        }
    } else {
        let mut m = String::from_str("Method not found: ");
        m.append(method);
        ("error", error_object(METHOD_NOT_FOUND, m))
    };
    let id = match req.take("id") {
        Some(i) => i,
        None => Json::Null,
    };
    envelope(id, key, body)
}

/// Where an HTTP request goes.
#[derive(PartialEq, Eq, Structural, Clone, Copy, Debug)]
pub enum Route {
    Health,
    McpPost,
    McpGet,
    McpDelete,
    MethodNotAllowed,
    NotFound,
}

pub open spec fn route_of(method: Seq<char>, path: Seq<char>) -> Route {
    if path == "/health"@ && method == "GET"@ {
        Route::Health
    } else if path == "/mcp"@ {
        if method == "POST"@ {
            Route::McpPost
        } else if method == "GET"@ {
            Route::McpGet
        } else if method == "DELETE"@ {
            Route::McpDelete
        } else {
            Route::MethodNotAllowed
        }
    } else {
        Route::NotFound
    }
}

/// Routes an HTTP request by its method and path.
pub fn route(method: &str, path: &str) -> (r: Route)
    ensures
        r == route_of(method@, path@),
{
    if str_eq(path, "/health") && str_eq(method, "GET") {
        Route::Health
    } else if str_eq(path, "/mcp") {
        if str_eq(method, "POST") {
            Route::McpPost
        } else if str_eq(method, "GET") {
            Route::McpGet
        } else if str_eq(method, "DELETE") {
            Route::McpDelete
        } else {
            Route::MethodNotAllowed
        }
    } else {
        Route::NotFound
    }
}

/// Why an exchange failed before any JSON-RPC answer could be formed.
#[derive(PartialEq, Eq, Structural, Clone, Copy, Debug)]
pub enum GatewayError {
    /// The POST body is not a JSON document.
    MalformedBody,
}

/// An HTTP answer: status, content type, session header and body.
#[derive(Debug)]
pub struct HttpReply {
    pub status: u16,
    pub content_type: Option<String>,
    pub session_id: Option<String>,
    pub body: String,
}

/// `j` is the liveness payload.
pub open spec fn is_health(j: Json) -> bool {
    &&& size(j) == 2
    &&& has_text_member(j, 0, "status"@, "UP"@)
    &&& has_text_member(j, 1, "server"@, "mcp-server"@)
}

/// `text` is the rendered answer to the request in the POST body `body`.
pub open spec fn answers_body(text: Seq<char>, body: Seq<char>) -> bool {
    match parsed(body) {
        Some(req) => exists|resp: Json| answers(resp, req) && text == rendered(resp),
        None => false,
    }
}

pub open spec fn opt_view(o: Option<String>) -> Option<Seq<char>> {
    match o {
        Some(s) => Some(s@),
        None => None,
    }
}

/// `r` is the gateway's reply to `method path` with `body`, where a POST
/// opens the session `sid`.
pub open spec fn replies(
    r: Result<HttpReply, GatewayError>,
    method: Seq<char>,
    path: Seq<char>,
    body: Seq<char>,
    sid: Seq<char>,
) -> bool {
    match route_of(method, path) {
        Route::Health => r matches Ok(h) && h.status == 200 && opt_view(h.content_type) == Some(
            "application/json"@,
        ) && h.session_id is None && exists|j: Json| is_health(j) && h.body@ == rendered(j),
        Route::McpPost => match parsed(body) {
            None => r == Err::<HttpReply, GatewayError>(GatewayError::MalformedBody),
            Some(_) => r matches Ok(h) && h.status == 200 && opt_view(h.content_type) == Some(
                "application/json"@,
            ) && opt_view(h.session_id) == Some(sid) && answers_body(h.body@, body),
        },
        Route::McpGet => r matches Ok(h) && h.status == 200 && opt_view(h.content_type) == Some(
            "text/event-stream"@,
        ) && h.session_id is None && h.body@.len() == 0,
        Route::McpDelete => r matches Ok(h) && h.status == 200 && h.content_type is None
            && h.session_id is None && h.body@.len() == 0,
        Route::MethodNotAllowed => r matches Ok(h) && h.status == 405 && h.content_type is None
            && h.session_id is None && h.body@ == "Method Not Allowed"@,
        Route::NotFound => r matches Ok(h) && h.status == 404 && h.content_type is None
            && h.session_id is None && h.body@ == "Not Found"@,
    }
}

/// Answers a POST body: the rendered JSON-RPC answer, or `MalformedBody`
/// where the body is no JSON document, before any tool is reached.
pub fn handle_post(body: &str) -> (r: Result<String, GatewayError>)
    ensures
        match r {
            Ok(text) => answers_body(text@, body@),
            Err(e) => e == GatewayError::MalformedBody && parsed(body@) is None,
        },
{
    match parse_json(body) {
        Some(req) => {
            let ghost req0 = req;
            let resp = respond(req);
            let text = render_json(&resp);
            assert(answers(resp, req0) && text@ == rendered(resp));
            Ok(text)
        },
        None => Err(GatewayError::MalformedBody),
    }
}

fn reply(status: u16, content_type: Option<&str>, body: &str) -> (h: HttpReply)
    ensures
        h.status == status,
        opt_view(h.content_type) == match content_type {
            Some(c) => Some(c@),
            None => None::<Seq<char>>,
        },
        h.session_id is None,
        h.body@ == body@,
{
    let content_type = match content_type {
        Some(c) => Some(String::from_str(c)),
        None => None,
    };
    HttpReply { status, content_type, session_id: None, body: String::from_str(body) }
}

/// Answers one HTTP request; a POST to the protocol path opens `session_id`.
pub fn handle(method: &str, path: &str, body: &str, session_id: String) -> (r: Result<
    HttpReply,
    GatewayError,
>)
    ensures
        replies(r, method@, path@, body@, session_id@),
{
    proof {
        reveal_strlit("");
    }
    match route(method, path) {
        Route::Health => {
            let mut m: Vec<(String, Json)> = Vec::new();
            m.push(Json::member("status", Json::text("UP")));
            m.push(Json::member("server", Json::text("mcp-server")));
            let j = object(m);
            let text = render_json(&j);
            assert(is_health(j));
            let mut h = reply(200, Some("application/json"), "");
            h.body = text;
            Ok(h)
        },
        Route::McpPost => match handle_post(body) {
            Ok(text) => {
                let mut h = reply(200, Some("application/json"), "");
                h.body = text;
                h.session_id = Some(session_id);
                Ok(h)
            },
            Err(e) => Err(e),
        },
        Route::McpGet => Ok(reply(200, Some("text/event-stream"), "")),
        Route::McpDelete => Ok(reply(200, None, "")),
        Route::MethodNotAllowed => Ok(reply(405, None, "Method Not Allowed")),
        Route::NotFound => Ok(reply(404, None, "Not Found")),
    }
}

/// The gateway keeps nothing from one request to the next: the session that a
/// POST opens changes nothing of the answer, so a client may open a fresh one
/// before each operation.
pub proof fn lemma_sessions_independent(
    method: Seq<char>,
    path: Seq<char>,
    body: Seq<char>,
    sid1: Seq<char>,
    sid2: Seq<char>,
    r1: Result<HttpReply, GatewayError>,
    r2: Result<HttpReply, GatewayError>,
)
    requires
        replies(r1, method, path, body, sid1),
        replies(r2, method, path, body, sid2),
    ensures
        r1 is Ok <==> r2 is Ok,
        r1 is Err ==> r1 == r2,
        r1 is Ok ==> r1->Ok_0.status == r2->Ok_0.status,
        route_of(method, path) == Route::McpPost && r1 is Ok ==> answers_body(r1->Ok_0.body@, body)
            && answers_body(r2->Ok_0.body@, body),
        route_of(method, path) != Route::McpPost && route_of(method, path) != Route::Health
            && r1 is Ok ==> r1->Ok_0.body@ == r2->Ok_0.body@,
{
}

/// Relies on uuid::Uuid::new_v4 and on Uuid's Display, which writes the
/// hyphenated form (36 ASCII characters); the value itself is random.
#[verifier::external_body]
fn new_session_id() -> (r: String)
    ensures
        r@.len() == 36,
{
    uuid::Uuid::new_v4().to_string()
}

/// Answers one HTTP request, opening a fresh random session on a POST to the
/// protocol path.
pub fn handle_request(method: &str, path: &str, body: &str) -> (r: Result<HttpReply, GatewayError>)
    ensures
        exists|sid: Seq<char>| sid.len() == 36 && replies(r, method@, path@, body@, sid),
{
    let sid = new_session_id();
    let r = handle(method, path, body, sid);
    assert(replies(r, method@, path@, body@, sid@));
    r
}

} // verus!
