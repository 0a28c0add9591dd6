//! The protocol client: the requests it sends and what it reads from the
//! answers. Each operation is a fresh two-step exchange, `initialize` and then
//! the request itself; the sending is left to the caller.
use crate::framing::{document, parse_sse_response};
use crate::json::{has_member, has_text_member, is_int, is_text, size, value_at, Json};
use vstd::prelude::*;
use vstd::string::*;

verus! {

/// Why a client operation failed.
#[derive(Debug)]
pub enum ClientError {
    /// The HTTP exchange itself failed.
    Transport(String),
    /// The answer is not a JSON-RPC document in either framing.
    Protocol(String),
    /// The gateway answered with a JSON-RPC error.
    Remote { code: i64, message: String },
}

/// A client for one gateway, known by its protocol endpoint.
pub struct HelloClient {
    endpoint: String,
}

/// `r` is a JSON-RPC request with `id` and `method`; its params are member 3.
pub open spec fn is_request(r: Json, id: int, method: Seq<char>) -> bool {
    &&& size(r) == 4
    &&& has_text_member(r, 0, "jsonrpc"@, "2.0"@)
    &&& r is Object && crate::json::key_at(r, 1) == "id"@ && is_int(value_at(r, 1), id)
    &&& has_text_member(r, 2, "method"@, method)
    &&& crate::json::key_at(r, 3) == "params"@
}

/// `r` is the `initialize` request that opens every exchange.
pub open spec fn is_initialize_request(r: Json) -> bool {
    let p = value_at(r, 3);
    &&& is_request(r, 1, "initialize"@)
    &&& size(p) == 3
    &&& has_text_member(p, 0, "protocolVersion"@, "2024-11-05"@)
    &&& p is Object && crate::json::key_at(p, 1) == "capabilities"@
    &&& value_at(p, 1) is Object && size(value_at(p, 1)) == 0
    &&& crate::json::key_at(p, 2) == "clientInfo"@ && size(value_at(p, 2)) == 2
    &&& has_text_member(value_at(p, 2), 0, "name"@, "rust-mcp-client"@)
    &&& has_text_member(value_at(p, 2), 1, "version"@, "0.1.0"@)
}

/// `r` is the `tools/list` request.
pub open spec fn is_list_request(r: Json) -> bool {
    is_request(r, 2, "tools/list"@) && value_at(r, 3) is Object && size(value_at(r, 3)) == 0
}

/// `r` is a `tools/call` of `tool` whose one argument is `key` with `arg`.
pub open spec fn is_call_request(r: Json, tool: Seq<char>, key: Seq<char>, arg: Json) -> bool {
    let p = value_at(r, 3);
    &&& is_request(r, 2, "tools/call"@)
    &&& size(p) == 2
    &&& has_text_member(p, 0, "name"@, tool)
    &&& p is Object && crate::json::key_at(p, 1) == "arguments"@
    &&& size(value_at(p, 1)) == 1
    &&& has_member(value_at(p, 1), 0, key, arg)
}

/// The characters of `j` where it is a string; empty otherwise.
pub open spec fn text_or_empty(j: Option<Json>) -> Seq<char> {
    match j {
        Some(Json::Str(s)) => s@,
        _ => Seq::empty(),
    }
}

/// The code of a JSON-RPC error object; zero where it has none that fits.
pub open spec fn error_code(e: Json) -> i64 {
    match e.field("code"@) {
        Some(c) => match c.spec_as_i64() {
            Some(i) => i,
            None => 0,
        },
        None => 0,
    }
}

/// What an answer's document yields: its `result` (null where absent), or
/// the remote error it reports.
pub open spec fn outcome_is(r: Result<Json, ClientError>, resp: Json) -> bool {
    match resp.field("error"@) {
        Some(e) => r matches Err(ClientError::Remote { code, message }) && code == error_code(e)
            && message@ == text_or_empty(e.field("message"@)),
        None => r == Ok::<Json, ClientError>(
            match resp.field("result"@) {
                Some(x) => x,
                None => Json::Null,
            },
        ),
    }
}

/// What reading an answer body yields.
pub open spec fn reads_as(r: Result<Json, ClientError>, body: Seq<char>) -> bool {
    match document(body) {
        None => r is Err && r->Err_0 is Protocol,
        Some(resp) => outcome_is(r, resp),
    }
}

/// Reading an answer body depends on the body alone: two readings of the same
/// body succeed or fail together, agree on the result, and a listing or a
/// lookup text taken from it is the same both times.
pub proof fn lemma_reading_is_deterministic(
    body: Seq<char>,
    r1: Result<Json, ClientError>,
    r2: Result<Json, ClientError>,
)
    requires
        reads_as(r1, body),
        reads_as(r2, body),
    ensures
        r1 is Ok <==> r2 is Ok,
        r1 is Ok ==> r1 == r2,
        r1 is Ok ==> tool_lines(listed(r1->Ok_0)) == tool_lines(listed(r2->Ok_0)),
        r1 is Ok ==> first_text_of(r1->Ok_0) == first_text_of(r2->Ok_0),
{
}

/// The line that lists one tool.
pub open spec fn tool_line(t: Json) -> Seq<char> {
    "工具名称: "@ + text_or_empty(t.field("name"@)) + ", 描述: "@ + text_or_empty(
        t.field("description"@),
    )
}

/// The lines of `tools`, joined by newlines.
pub open spec fn tool_lines(tools: Seq<Json>) -> Seq<char>
    decreases tools.len(),
{
    if tools.len() == 0 {
        Seq::empty()
    } else if tools.len() == 1 {
        tool_line(tools[0])
    } else {
        tool_lines(tools.drop_last()) + "\n"@ + tool_line(tools.last())
    }
}

/// The tools that a `tools/list` result holds; none where it holds no array.
pub open spec fn listed(result: Json) -> Seq<Json> {
    match result.field("tools"@) {
        Some(Json::Array(v)) => v@,
        _ => Seq::empty(),
    }
}

/// The text of the first content block of a `tools/call` result; empty where
/// there is none.
pub open spec fn first_text_of(result: Json) -> Seq<char> {
    match result.field("content"@) {
        Some(Json::Array(v)) => if v@.len() > 0 {
            text_or_empty(v@[0].field("text"@))
        } else {
            Seq::empty()
        },
        _ => Seq::empty(),
    }
}

/// The value under `key`, or null where there is none.
pub open spec fn or_null(j: Option<Json>) -> Json {
    match j {
        Some(x) => x,
        None => Json::Null,
    }
}

/// `m` offers the listed tool `t` to the chat model, in the model's
/// function-calling form.
pub open spec fn is_model_tool(m: Json, t: Json) -> bool {
    let f = value_at(m, 1);
    &&& size(m) == 2
    &&& has_text_member(m, 0, "type"@, "function"@)
    &&& m is Object && crate::json::key_at(m, 1) == "function"@
    &&& size(f) == 3
    &&& has_member(f, 0, "name"@, or_null(t.field("name"@)))
    &&& has_member(f, 1, "description"@, or_null(t.field("description"@)))
    &&& has_member(f, 2, "parameters"@, or_null(t.field("inputSchema"@)))
}

fn object(members: Vec<(String, Json)>) -> (r: Json)
    ensures
        r == Json::Object(members),
{
    Json::Object(members)
}

fn request(id: i128, method: &str, params: Json) -> (r: Json)
    ensures
        is_request(r, id as int, method@),
        value_at(r, 3) == params,
{
    let mut m: Vec<(String, Json)> = Vec::new();
    m.push(Json::member("jsonrpc", Json::text("2.0")));
    m.push(Json::member("id", Json::Int(id)));
    m.push(Json::member("method", Json::text(method)));
    m.push(Json::member("params", params));
    object(m)
}

fn call_request(tool: &str, key: &str, arg: Json) -> (r: Json)
    ensures
        is_call_request(r, tool@, key@, arg),
{
    let mut args: Vec<(String, Json)> = Vec::new();
    args.push(Json::member(key, arg));
    let mut p: Vec<(String, Json)> = Vec::new();
    p.push(Json::member("name", Json::text(tool)));
    p.push(Json::member("arguments", object(args)));
    request(2, "tools/call", object(p))
}

/// Reads an answer body in either framing: the request's result, or why
/// there is none.
pub fn read_result(body: &str) -> (r: Result<Json, ClientError>)
    ensures
        reads_as(r, body@),
{
    match parse_sse_response(body) {
        None => Err(ClientError::Protocol(String::from_str("response is not a JSON-RPC document"))),
        Some(resp) => {
            let ghost resp0 = resp;
            if resp.get("error").is_some() {
                let e = match resp.take("error") {
                    Some(e) => e,
                    None => Json::Null,
                };
                let code = match e.get("code") {
                    Some(c) => match c.as_i64() {
                        Some(i) => i,
                        None => 0,
                    },
                    None => 0,
                };
                let message = match e.get("message") {
                    Some(Json::Str(s)) => s.clone(),
                    _ => String::new(),
                };
                Err(ClientError::Remote { code, message })
            } else {
                let r = match resp.take("result") {
                    Some(x) => x,
                    None => Json::Null,
                };
                assert(outcome_is(Ok(r), resp0));
                Ok(r)
            }
        },
    }
}

/// The text of a string value, or empty.
fn text_of(j: Option<&Json>) -> (r: String)
    ensures
        r@ == text_or_empty(
            match j {
                Some(x) => Some(*x),
                None => None,
            },
        ),
{
    match j {
        Some(Json::Str(s)) => s.clone(),
        _ => String::new(),
    }
}

/// One line per listed tool, joined by newlines.
pub fn listing_text(result: &Json) -> (r: String)
    ensures
        r@ == tool_lines(listed(*result)),
{
    let mut out = String::new();
    match result.get("tools") {
        Some(Json::Array(v)) => {
            let mut i: usize = 0;
            while i < v.len()
                invariant
                    i <= v@.len(),
                    out@ == tool_lines(v@.subrange(0, i as int)),
                decreases v@.len() - i,
            {
                assert(v@.subrange(0, i + 1).drop_last() =~= v@.subrange(0, i as int));
                if i > 0 {
                    out.append("\n");
                }
                out.append("工具名称: ");
                out.append(text_of(v[i].get("name")).as_str());
                out.append(", 描述: ");
                out.append(text_of(v[i].get("description")).as_str());
                proof {
                    reveal_strlit("");
                }
                i = i + 1;
            }
            assert(v@.subrange(0, v@.len() as int) =~= v@);
        },
        _ => {},
    }
    out
}

/// The text of the first content block of a `tools/call` result.
pub fn first_text(result: &Json) -> (r: String)
    ensures
        r@ == first_text_of(*result),
{
    match result.get("content") {
        Some(Json::Array(v)) => if v.len() > 0 {
            text_of(v[0].get("text"))
        } else {
            String::new()
        },
        _ => String::new(),
    }
}

fn or_null_exec(j: Option<Json>) -> (r: Json)
    ensures
        r == or_null(j),
{
    match j {
        Some(x) => x,
        None => Json::Null,
    }
}

/// Offers each tool of a `tools/list` result to the chat model: name,
/// description and parameter schema, in the order listed.
pub fn model_tools(result: Json) -> (r: Vec<Json>)
    ensures
        r@.len() == listed(result).len(),
        forall|i: int| 0 <= i < r@.len() ==> is_model_tool(#[trigger] r@[i], listed(result)[i]),
{
    let ghost all = listed(result);
    let mut tools = match result.take("tools") {
        Some(Json::Array(v)) => v,
        _ => Vec::new(),
    };
    let mut out: Vec<Json> = Vec::new();
    proof {
        reveal_strlit("name");
        reveal_strlit("description");
        reveal_strlit("inputSchema");
        assert(all.subrange(0, all.len() as int) =~= all);
    }
    while tools.len() > 0
        invariant
            out@.len() + tools@.len() == all.len(),
            tools@ == all.subrange(out@.len() as int, all.len() as int),
            forall|i: int| 0 <= i < out@.len() ==> is_model_tool(#[trigger] out@[i], all[i]),
        decreases tools@.len(),
    {
        let ghost before = tools@;
        let t = tools.remove(0);
        assert(t == all[out@.len() as int]);
        assert(tools@ =~= all.subrange(out@.len() as int + 1, all.len() as int));
        proof {
            reveal_strlit("name");
            reveal_strlit("description");
            reveal_strlit("inputSchema");
            assert("name"@.len() == 4 && "description"@.len() == 11 && "inputSchema"@.len() == 11);
            assert("description"@[0] != "inputSchema"@[0]);
        }
        let (name, description, schema) = t.take3("name", "description", "inputSchema");
        let mut f: Vec<(String, Json)> = Vec::new();
        f.push(Json::member("name", or_null_exec(name)));
        f.push(Json::member("description", or_null_exec(description)));
        f.push(Json::member("parameters", or_null_exec(schema)));
        let mut m: Vec<(String, Json)> = Vec::new();
        m.push(Json::member("type", Json::text("function")));
        m.push(Json::member("function", object(f)));
        out.push(object(m));
    }
    out
}

impl HelloClient {
    /// The protocol endpoint that requests go to.
    pub closed spec fn endpoint_spec(&self) -> Seq<char> {
        self.endpoint@
    }

    /// A client for the gateway at `base_url`; its endpoint is `base_url/mcp`.
    pub fn new(base_url: &str) -> (r: HelloClient)
        ensures
            r.endpoint_spec() == base_url@ + "/mcp"@,
    {
        let mut endpoint = String::from_str(base_url);
        endpoint.append("/mcp");
        HelloClient { endpoint }
    }

    pub fn endpoint(&self) -> (r: &str)
        ensures
            r@ == self.endpoint_spec(),
    {
        self.endpoint.as_str()
    }

    /// The `initialize` request that opens every exchange.
    pub fn initialize_request(&self) -> (r: Json)
        ensures
            is_initialize_request(r),
    {
        let mut info: Vec<(String, Json)> = Vec::new();
        info.push(Json::member("name", Json::text("rust-mcp-client")));
        info.push(Json::member("version", Json::text("0.1.0")));
        let mut p: Vec<(String, Json)> = Vec::new();
        p.push(Json::member("protocolVersion", Json::text("2024-11-05")));
        p.push(Json::member("capabilities", object(Vec::new())));
        p.push(Json::member("clientInfo", object(info)));
        request(1, "initialize", object(p))
    }

    /// The `tools/list` request.
    pub fn list_tools_request(&self) -> (r: Json)
        ensures
            is_list_request(r),
    {
        request(2, "tools/list", object(Vec::new()))
    }

    /// The `tools/call` request that looks an element up by name.
    pub fn get_element_request(&self, name: &str) -> (r: Json)
        ensures
            exists|arg: Json| is_text(arg, name@) && is_call_request(r, "get_element"@, "name"@, arg),
    {
        let arg = Json::text(name);
        let ghost a = arg;
        let r = call_request("get_element", "name", arg);
        assert(is_call_request(r, "get_element"@, "name"@, a));
        r
    }

    /// The `tools/call` request that looks an element up by atomic number.
    pub fn get_element_by_position_request(&self, position: i32) -> (r: Json)
        ensures
            is_call_request(r, "get_element_by_position"@, "position"@, Json::Int(position as i128)),
    {
        call_request("get_element_by_position", "position", Json::Int(position as i128))
    }

    /// What `list_tools` answers, read from the body of the `tools/list`
    /// answer: one line per tool.
    pub fn list_tools_reply(&self, body: &str) -> (r: Result<String, ClientError>)
        ensures
            match r {
                Ok(text) => exists|result: Json| reads_as(Ok(result), body@) && text@ == tool_lines(listed(result)),
                Err(e) => reads_as(Err(e), body@),
            },
    {
        match read_result(body) {
            Ok(result) => Ok(listing_text(&result)),
            Err(e) => Err(e),
        }
    }

    /// The tools to offer the chat model, read from the body of the
    /// `tools/list` answer.
    pub fn model_tools_reply(&self, body: &str) -> (r: Result<Vec<Json>, ClientError>)
        ensures
            match r {
                Ok(tools) => exists|result: Json| {
                    &&& reads_as(Ok(result), body@)
                    &&& tools@.len() == listed(result).len()
                    &&& forall|i: int| 0 <= i < tools@.len() ==> is_model_tool(#[trigger] tools@[i], listed(result)[i])
                },
                Err(e) => reads_as(Err(e), body@),
            },
    {
        match read_result(body) {
            Ok(result) => Ok(model_tools(result)),
            Err(e) => Err(e),
        }
    }

    /// What a lookup answers, read from the body of the `tools/call` answer:
    /// the text of its first content block.
    pub fn call_reply(&self, body: &str) -> (r: Result<String, ClientError>)
        ensures
            match r {
                Ok(text) => exists|result: Json| reads_as(Ok(result), body@) && text@ == first_text_of(result),
                Err(e) => reads_as(Err(e), body@),
            },
    {
        match read_result(body) {
            Ok(result) => Ok(first_text(&result)),
            Err(e) => Err(e),
        }
    }
}

} // verus!
