use hello_mcp::client::ClientError;
use hello_mcp::json::Json;
use hello_mcp::orchestration::{
    plan, tool_result_text, ChatResponse, Invocation, Message, Orchestrator, Phase, ToolCall,
};

fn reply(text: &str) -> ChatResponse {
    ChatResponse::from_reply(Json::parse(text).unwrap())
}

#[test]
fn message_new_keeps_role_and_content() {
    let m = Message::new("user", "你好");
    assert_eq!(m.role, "user");
    assert_eq!(m.content, "你好");
}

#[test]
fn chat_reply_is_read() {
    let r = reply(r#"{"message":{"role":"assistant","content":"","tool_calls":[{"function":{"name":"get_element","arguments":{"name":"氢"}}},{"nofunction":1},{"function":{"name":"get_element_by_position","arguments":{"position":6}}}]}}"#);
    assert_eq!(r.role, "assistant");
    assert_eq!(r.content, "");
    assert!(r.has_tool_calls());
    assert_eq!(r.tool_calls.len(), 2);
    assert_eq!(r.tool_calls[0].name, "get_element");
    assert_eq!(r.tool_calls[1].name, "get_element_by_position");
    assert_eq!(r.tool_calls[1].arguments[0].0, "position");
}

#[test]
fn chat_reply_defaults() {
    let r = reply(r#"{"done":true}"#);
    assert_eq!(r.role, "assistant");
    assert_eq!(r.content, "");
    assert!(!r.has_tool_calls());
}

#[test]
fn direct_answer_takes_one_round_trip() {
    let mut o = Orchestrator::new("氢是什么？");
    assert_eq!(o.chat_requests, 1);
    assert_eq!(o.history.len(), 1);
    o.on_chat_reply(reply(r#"{"message":{"role":"assistant","content":"氢是第一号元素。"}}"#));
    assert_eq!(o.phase, Phase::Finished);
    assert_eq!(o.answer, "氢是第一号元素。");
    assert_eq!(o.chat_requests, 1);
    assert_eq!(o.history.len(), 1);
}

#[test]
fn tool_round_adds_two_turns_per_call() {
    let mut o = Orchestrator::new("查询氢和碳");
    o.on_chat_reply(reply(r#"{"message":{"role":"assistant","content":"","tool_calls":[{"function":{"name":"get_element","arguments":{"name":"氢"}}},{"function":{"name":"get_element_by_position","arguments":{"position":6}}},{"function":{"name":"weather","arguments":{}}}]}}"#));
    assert_eq!(o.phase, Phase::RunningTools);
    let mut done = 0;
    while o.phase == Phase::RunningTools {
        let text = match plan(&o.pending[o.next_call]) {
            Invocation::GetElement(n) => format!("looked up {}", n),
            Invocation::GetElementByPosition(p) => format!("looked up #{}", p),
            Invocation::GetElementByFloatPosition(t) => format!("looked up #{}", t),
            Invocation::Fail(t) => t,
        };
        o.on_tool_result(text);
        done += 1;
    }
    assert_eq!(done, 3);
    assert_eq!(o.phase, Phase::AwaitingFinalReply);
    assert_eq!(o.chat_requests, 2);
    assert_eq!(o.history.len(), 1 + 2 * 3);
    assert_eq!(o.history[1].role, "assistant");
    assert_eq!(o.history[1].content, "");
    assert_eq!(o.history[2].role, "tool");
    assert_eq!(o.history[2].content, "looked up 氢");
    assert_eq!(o.history[4].content, "looked up #6");
    assert_eq!(o.history[6].content, r#"{"error":"未知工具: weather"}"#);
    o.on_chat_reply(reply(r#"{"message":{"content":"完成","tool_calls":[{"function":{"name":"get_element","arguments":{"name":"碳"}}}]}}"#));
    assert_eq!(o.phase, Phase::Finished);
    assert_eq!(o.answer, "完成");
    assert_eq!(o.chat_requests, 2);
}

fn call(name: &str, args: &str) -> ToolCall {
    let arguments = match Json::parse(args).unwrap() {
        hello_mcp::json::Json::Object(f) => f,
        _ => Vec::new(),
    };
    ToolCall { name: String::from(name), arguments }
}

#[test]
fn planning_each_tool() {
    assert!(matches!(plan(&call("get_element", r#"{"name":"氢"}"#)), Invocation::GetElement(n) if n == "氢"));
    assert!(matches!(plan(&call("get_element", r#"{}"#)), Invocation::Fail(t) if t == r#"{"error":"缺少参数: name"}"#));
    assert!(matches!(plan(&call("get_element_by_position", r#"{"position":6}"#)), Invocation::GetElementByPosition(6)));
    assert!(matches!(plan(&call("get_element_by_position", r#"{}"#)), Invocation::Fail(t) if t == r#"{"error":"缺少参数: position"}"#));
    assert!(matches!(plan(&call("get_element_by_position", r#"{"position":"6"}"#)), Invocation::GetElementByPosition(0)));
    assert!(matches!(plan(&call("get_element_by_position", r#"{"position":null}"#)), Invocation::GetElementByPosition(0)));
    assert!(matches!(plan(&call("get_element_by_position", r#"{"position":9999999999}"#)), Invocation::GetElementByPosition(i32::MAX)));
    assert!(matches!(plan(&call("get_element_by_position", r#"{"position":-9999999999}"#)), Invocation::GetElementByPosition(i32::MIN)));
    assert!(matches!(plan(&call("x", r#"{}"#)), Invocation::Fail(t) if t == r#"{"error":"未知工具: x"}"#));
}

#[test]
fn failed_tool_call_becomes_error_payload() {
    assert_eq!(tool_result_text(Ok(String::from("fine"))), "fine");
    let t = tool_result_text(Err(ClientError::Transport(String::from("connection refused"))));
    assert_eq!(t, r#"{"error":"connection refused"}"#);
    let t = tool_result_text(Err(ClientError::Remote { code: -32602, message: String::from("bad") }));
    assert_eq!(t, r#"{"error":"remote error -32602: bad"}"#);
}

#[test]
fn fractional_position_counts_by_integer_part() {
    assert!(matches!(plan(&call("get_element_by_position", r#"{"position":14.0}"#)), Invocation::GetElementByPosition(14)));
    assert!(matches!(plan(&call("get_element_by_position", r#"{"position":6.9}"#)), Invocation::GetElementByPosition(6)));
    assert!(matches!(plan(&call("get_element_by_position", r#"{"position":-0.5}"#)), Invocation::GetElementByPosition(0)));
    assert!(matches!(plan(&call("get_element_by_position", r#"{"position":3000000000.5}"#)), Invocation::GetElementByPosition(i32::MAX)));
    let exp = ToolCall {
        name: String::from("get_element_by_position"),
        arguments: vec![(String::from("position"), Json::Float(String::from("1.5e1")))],
    };
    assert!(matches!(plan(&exp), Invocation::GetElementByFloatPosition(t) if t == "1.5e1"));
}
