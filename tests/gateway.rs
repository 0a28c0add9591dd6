use hello_mcp::gateway::{handle, handle_post, handle_request, respond, route, GatewayError, Route};
use hello_mcp::json::Json;
use hello_mcp::registry::{call_tool, list_tools, ToolFailure};
use serde_json::Value;

fn post(body: &str) -> Value {
    let text = handle_post(body).expect("a JSON body gets an answer");
    serde_json::from_str(&text).expect("the answer is JSON")
}

#[test]
fn get_element_by_chinese_name() {
    let v = post(r#"{"jsonrpc":"2.0","id":7,"method":"tools/call","params":{"name":"get_element","arguments":{"name":"氢"}}}"#);
    assert_eq!(v["id"], 7);
    assert_eq!(v["jsonrpc"], "2.0");
    let text = v["result"]["content"][0]["text"].as_str().unwrap();
    assert_eq!(v["result"]["content"][0]["type"], "text");
    assert!(text.contains("原子序数: 1,"));
    assert!(text.contains("符号: H,"));
}

#[test]
fn position_out_of_range_is_reported() {
    let v = post(r#"{"jsonrpc":"2.0","id":3,"method":"tools/call","params":{"name":"get_element_by_position","arguments":{"position":119}}}"#);
    assert_eq!(v["id"], 3);
    assert_eq!(v["error"]["code"], -32602);
    assert!(v["error"]["message"].as_str().unwrap().contains("1-118"));
}

#[test]
fn position_lookup_through_gateway() {
    let v = post(r#"{"jsonrpc":"2.0","id":2,"method":"tools/call","params":{"name":"get_element_by_position","arguments":{"position":14}}}"#);
    let text = v["result"]["content"][0]["text"].as_str().unwrap();
    assert!(text.starts_with("元素名称: 硅 (guī, Silicon), 原子序数: 14, 符号: Si"));
}

#[test]
fn malformed_body_fails_before_dispatch() {
    assert_eq!(handle_post("this is not json"), Err(GatewayError::MalformedBody));
    let r = handle("POST", "/mcp", "{\"jsonrpc\":", String::from("s"));
    assert!(matches!(r, Err(GatewayError::MalformedBody)));
}

#[test]
fn unknown_tool_is_an_error_result() {
    let v = post(r#"{"jsonrpc":"2.0","id":4,"method":"tools/call","params":{"name":"no_such_tool","arguments":{}}}"#);
    assert_eq!(v["id"], 4);
    assert_eq!(v["error"]["code"], -32601);
    assert_eq!(v["error"]["message"], "Unknown tool: no_such_tool");
    assert!(v.get("result").is_none());
}

#[test]
fn unknown_method_names_the_method() {
    let v = post(r#"{"jsonrpc":"2.0","id":"abc","method":"prompts/list"}"#);
    assert_eq!(v["id"], "abc");
    assert_eq!(v["error"]["code"], -32601);
    assert_eq!(v["error"]["message"], "Method not found: prompts/list");
}

#[test]
fn missing_id_answers_with_null_id() {
    let v = post(r#"{"jsonrpc":"2.0","method":"initialize"}"#);
    assert!(v.as_object().unwrap().contains_key("id"));
    assert!(v["id"].is_null());
    assert_eq!(v["result"]["protocolVersion"], "2025-06-18");
    assert_eq!(v["result"]["serverInfo"]["name"], "mcp-server");
    assert_eq!(v["result"]["serverInfo"]["version"], "0.1.0");
    assert!(v["result"]["capabilities"]["tools"].as_object().unwrap().is_empty());
}

#[test]
fn empty_element_name_is_not_found() {
    let v = post(r#"{"jsonrpc":"2.0","id":8,"method":"tools/call","params":{"name":"get_element","arguments":{"name":""}}}"#);
    assert_eq!(v["result"]["content"][0]["text"], "元素不存在");
}

#[test]
fn tool_call_without_name_is_invalid_params() {
    let v = post(r#"{"jsonrpc":"2.0","id":5,"method":"tools/call","params":{}}"#);
    assert_eq!(v["error"]["code"], -32602);
    assert_eq!(v["error"]["message"], "Missing name");
}

#[test]
fn tool_call_with_missing_arguments() {
    let v = post(r#"{"jsonrpc":"2.0","id":6,"method":"tools/call","params":{"name":"get_element"}}"#);
    assert_eq!(v["error"]["code"], -32602);
    assert_eq!(v["error"]["message"], "Missing element name");
    let v = post(r#"{"jsonrpc":"2.0","id":6,"method":"tools/call","params":{"name":"get_element_by_position","arguments":{"position":"six"}}}"#);
    assert_eq!(v["error"]["message"], "Missing position");
}

#[test]
fn tools_list_is_stable() {
    let a = post(r#"{"jsonrpc":"2.0","id":1,"method":"tools/list","params":{}}"#);
    let b = post(r#"{"jsonrpc":"2.0","id":1,"method":"tools/list","params":{}}"#);
    assert_eq!(a, b);
    let tools = a["result"]["tools"].as_array().unwrap();
    assert_eq!(tools.len(), 2);
    assert_eq!(tools[0]["name"], "get_element");
    assert_eq!(tools[1]["name"], "get_element_by_position");
    assert_eq!(tools[0]["inputSchema"]["type"], "object");
    assert_eq!(tools[0]["inputSchema"]["properties"]["name"]["type"], "string");
    assert_eq!(tools[1]["inputSchema"]["properties"]["position"]["type"], "number");
    assert_eq!(tools[1]["inputSchema"]["required"][0], "position");
    let names1: Vec<String> = list_tools().into_iter().map(|d| d.name).collect();
    let names2: Vec<String> = list_tools().into_iter().map(|d| d.name).collect();
    assert_eq!(names1, names2);
}

#[test]
fn registry_errors_carry_their_kind() {
    let e = call_tool("nope", None).unwrap_err();
    assert_eq!(e.kind, ToolFailure::UnknownTool);
    assert_eq!(e.message, "Unknown tool: nope");
    let e = call_tool("get_element_by_position", None).unwrap_err();
    assert_eq!(e.kind, ToolFailure::InvalidArguments);
    assert_eq!(e.message, "Missing position");
}

#[test]
fn routes() {
    assert_eq!(route("GET", "/health"), Route::Health);
    assert_eq!(route("POST", "/health"), Route::NotFound);
    assert_eq!(route("POST", "/mcp"), Route::McpPost);
    assert_eq!(route("GET", "/mcp"), Route::McpGet);
    assert_eq!(route("DELETE", "/mcp"), Route::McpDelete);
    assert_eq!(route("PUT", "/mcp"), Route::MethodNotAllowed);
    assert_eq!(route("GET", "/other"), Route::NotFound);
}

#[test]
fn http_replies() {
    let h = handle("GET", "/health", "", String::from("x")).unwrap();
    assert_eq!(h.status, 200);
    let v: Value = serde_json::from_str(&h.body).unwrap();
    assert_eq!(v["status"], "UP");
    assert_eq!(v["server"], "mcp-server");
    let g = handle("GET", "/mcp", "", String::from("x")).unwrap();
    assert_eq!(g.status, 200);
    assert_eq!(g.content_type.as_deref(), Some("text/event-stream"));
    assert!(g.body.is_empty());
    let d = handle("DELETE", "/mcp", "", String::from("x")).unwrap();
    assert_eq!(d.status, 200);
    assert!(d.body.is_empty());
    let n = handle("GET", "/nowhere", "", String::from("x")).unwrap();
    assert_eq!(n.status, 404);
    assert_eq!(n.body, "Not Found");
    let m = handle("PATCH", "/mcp", "", String::from("x")).unwrap();
    assert_eq!(m.status, 405);
}

#[test]
fn post_opens_a_session() {
    let body = r#"{"jsonrpc":"2.0","id":1,"method":"initialize","params":{}}"#;
    let h = handle("POST", "/mcp", body, String::from("abc")).unwrap();
    assert_eq!(h.session_id.as_deref(), Some("abc"));
    let r = handle_request("POST", "/mcp", body).unwrap();
    let sid = r.session_id.clone().unwrap();
    assert_eq!(sid.len(), 36);
    assert_eq!(sid.matches('-').count(), 4);
}

#[test]
fn repeated_initialize_is_harmless() {
    let init = r#"{"jsonrpc":"2.0","id":1,"method":"initialize","params":{}}"#;
    let call = r#"{"jsonrpc":"2.0","id":2,"method":"tools/call","params":{"name":"get_element","arguments":{"name":"碳"}}}"#;
    let first_init = handle_request("POST", "/mcp", init).unwrap();
    let first = handle_request("POST", "/mcp", call).unwrap();
    let second_init = handle_request("POST", "/mcp", init).unwrap();
    let second = handle_request("POST", "/mcp", call).unwrap();
    assert_eq!(first_init.body, second_init.body);
    assert_eq!(first.body, second.body);
    assert_ne!(first_init.session_id, second_init.session_id);
}

#[test]
fn json_round_trip_through_serde() {
    let j = Json::parse(r#"{"a":[1,-2,3.5,"x",null,true],"b":{}}"#).unwrap();
    let text = j.render();
    assert_eq!(text, r#"{"a":[1,-2,3.5,"x",null,true],"b":{}}"#);
    assert!(Json::parse("{").is_none());
    let resp = respond(Json::parse(r#"{"id":1,"method":"x"}"#).unwrap());
    assert_eq!(resp.render(), r#"{"error":{"code":-32601,"message":"Method not found: x"},"id":1,"jsonrpc":"2.0"}"#);
}
