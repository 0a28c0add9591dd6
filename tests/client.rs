use hello_mcp::client::{model_tools, read_result, ClientError, HelloClient};
use hello_mcp::framing::{frame_of, parse_sse_response, trim_text, Framing};
use hello_mcp::gateway::handle_post;
use hello_mcp::json::Json;

#[test]
fn endpoint_is_base_plus_mcp() {
    let c = HelloClient::new("http://localhost:9900");
    assert_eq!(c.endpoint(), "http://localhost:9900/mcp");
}

#[test]
fn both_framings_read_alike() {
    let doc = r#"{"jsonrpc":"2.0","id":2,"result":{"content":[{"type":"text","text":"hi"}]}}"#;
    let sse = format!("event: message\ndata: {}\n\n", doc);
    let plain = parse_sse_response(doc).unwrap().render();
    let framed = parse_sse_response(&sse).unwrap().render();
    assert_eq!(plain, framed);
    let c = HelloClient::new("http://h");
    assert_eq!(c.call_reply(doc).unwrap(), "hi");
    assert_eq!(c.call_reply(&sse).unwrap(), "hi");
}

#[test]
fn framing_is_told_by_the_event_line() {
    match frame_of("event: message\r\ndata:  {\"a\":1} \r\n") {
        Some(Framing::SseFramed(t)) => assert_eq!(t, "{\"a\":1}"),
        other => panic!("unexpected {:?}", other.is_some()),
    }
    match frame_of("{\"a\":1}") {
        Some(Framing::PlainJson(t)) => assert_eq!(t, "{\"a\":1}"),
        _ => panic!("plain body not taken as it stands"),
    }
    assert!(frame_of("event: message\nid: 3\n\n").is_none());
}

#[test]
fn unparseable_bodies_are_protocol_errors() {
    assert!(matches!(read_result("event: message\nnothing here\n"), Err(ClientError::Protocol(_))));
    assert!(matches!(read_result("<html>"), Err(ClientError::Protocol(_))));
    assert!(matches!(read_result("event: message\ndata: {oops\n"), Err(ClientError::Protocol(_))));
}

#[test]
fn remote_errors_keep_code_and_message() {
    let body = r#"{"jsonrpc":"2.0","id":2,"error":{"code":-32601,"message":"Unknown tool: x"}}"#;
    match read_result(body) {
        Err(e) => {
            assert_eq!(e.message(), "remote error -32601: Unknown tool: x");
            match e {
                ClientError::Remote { code, message } => {
                    assert_eq!(code, -32601);
                    assert_eq!(message, "Unknown tool: x");
                }
                _ => panic!("not a remote error"),
            }
        }
        Ok(_) => panic!("error envelope read as success"),
    }
}

#[test]
fn transport_error_message() {
    let e = ClientError::Transport(String::from("connection refused"));
    assert_eq!(e.message(), "connection refused");
}

#[test]
fn missing_result_reads_as_null() {
    assert!(matches!(read_result(r#"{"jsonrpc":"2.0","id":1}"#), Ok(Json::Null)));
}

#[test]
fn listing_text_from_gateway_answer() {
    let c = HelloClient::new("http://h");
    let body = handle_post(r#"{"jsonrpc":"2.0","id":2,"method":"tools/list","params":{}}"#).unwrap();
    let text = c.list_tools_reply(&body).unwrap();
    assert_eq!(
        text,
        "工具名称: get_element, 描述: 根据元素名称获取元素周期表元素信息\n工具名称: get_element_by_position, 描述: 根据元素在周期表中的位置（原子序数）查询元素信息"
    );
}

#[test]
fn requests_have_the_protocol_shape() {
    let c = HelloClient::new("http://h");
    assert_eq!(
        c.initialize_request().render(),
        r#"{"id":1,"jsonrpc":"2.0","method":"initialize","params":{"capabilities":{},"clientInfo":{"name":"rust-mcp-client","version":"0.1.0"},"protocolVersion":"2024-11-05"}}"#
    );
    assert_eq!(
        c.list_tools_request().render(),
        r#"{"id":2,"jsonrpc":"2.0","method":"tools/list","params":{}}"#
    );
    assert_eq!(
        c.get_element_request("氢").render(),
        r#"{"id":2,"jsonrpc":"2.0","method":"tools/call","params":{"arguments":{"name":"氢"},"name":"get_element"}}"#
    );
    assert_eq!(
        c.get_element_by_position_request(6).render(),
        r#"{"id":2,"jsonrpc":"2.0","method":"tools/call","params":{"arguments":{"position":6},"name":"get_element_by_position"}}"#
    );
}

#[test]
fn client_request_served_by_gateway() {
    let c = HelloClient::new("http://h");
    let body = handle_post(&c.get_element_request("氢").render()).unwrap();
    let text = c.call_reply(&body).unwrap();
    assert!(text.contains("原子序数: 1,"));
    assert!(text.contains("符号: H,"));
    let body = handle_post(&c.get_element_by_position_request(6).render()).unwrap();
    assert!(c.call_reply(&body).unwrap().contains("符号: C,"));
    let body = handle_post(&c.get_element_by_position_request(200).render()).unwrap();
    assert!(matches!(c.call_reply(&body), Err(ClientError::Remote { code: -32602, .. })));
}

#[test]
fn tools_offered_to_the_model() {
    let c = HelloClient::new("http://h");
    let body = handle_post(r#"{"jsonrpc":"2.0","id":2,"method":"tools/list","params":{}}"#).unwrap();
    let tools = c.model_tools_reply(&body).unwrap();
    assert_eq!(tools.len(), 2);
    let first: serde_json::Value = serde_json::from_str(&tools[0].render()).unwrap();
    assert_eq!(first["type"], "function");
    assert_eq!(first["function"]["name"], "get_element");
    assert_eq!(first["function"]["parameters"]["required"][0], "name");
    let bare = model_tools(Json::parse(r#"{"tools":[{"name":"t"}]}"#).unwrap());
    assert_eq!(bare[0].render(), r#"{"function":{"description":null,"name":"t","parameters":null},"type":"function"}"#);
}

#[test]
fn trims_unicode_white_space() {
    assert_eq!(trim_text("\u{3000} a b \t\n"), "a b");
    assert_eq!(trim_text("   "), "");
    assert_eq!(trim_text("x"), "x");
}
