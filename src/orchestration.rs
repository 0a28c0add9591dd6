//! The orchestration loop: one user query, a chat with the model, at most one
//! round of tool calls, and a final answer. The loop is a state machine; the
//! caller performs each chat and each tool call and hands back what came of it.
use crate::client::{or_null, text_or_empty, ClientError};
use crate::json::{find_member, has_text_member, lookup, render_json, rendered, size, Json};
use crate::text::{clamp_i32, decimal, integer_part, integer_part_i32, push_decimal, str_eq};
use vstd::prelude::*;
use vstd::string::*;

verus! {

/// One turn of the conversation.
#[derive(Debug)]
pub struct Message {
    pub role: String,
    pub content: String,
}

impl Message {
    pub fn new(role: &str, content: &str) -> (r: Message)
        ensures
            r.role@ == role@,
            r.content@ == content@,
    {
        Message { role: String::from_str(role), content: String::from_str(content) }
    }
}

/// A tool that the model asks to have called, with its arguments.
#[derive(Debug)]
pub struct ToolCall {
    pub name: String,
    pub arguments: Vec<(String, Json)>,
}

/// What the model answered: its turn, and the tools it asks for.
#[derive(Debug)]
pub struct ChatResponse {
    pub role: String,
    pub content: String,
    pub tool_calls: Vec<ToolCall>,
}

/// The function object of a requested tool call.
pub open spec fn function_of(item: Json) -> Json {
    or_null(item.field("function"@))
}

/// The function objects of `items`, skipping any item without one.
pub open spec fn intents(items: Seq<Json>) -> Seq<Json>
    decreases items.len(),
{
    if items.len() == 0 {
        Seq::empty()
    } else if function_of(items.last()) is Object {
        intents(items.drop_last()).push(function_of(items.last()))
    } else {
        intents(items.drop_last())
    }
}

/// The members of an object; none for any other value.
pub open spec fn members_of(j: Option<Json>) -> Seq<(String, Json)> {
    match j {
        Some(Json::Object(f)) => f@,
        _ => Seq::empty(),
    }
}

/// `c` is the call that the function object `f` requests.
pub open spec fn requests(c: ToolCall, f: Json) -> bool {
    c.name@ == text_or_empty(f.field("name"@)) && c.arguments@ == members_of(f.field("arguments"@))
}

/// The model's turn in a chat answer.
pub open spec fn reply_message(resp: Json) -> Json {
    or_null(resp.field("message"@))
}

pub open spec fn reply_role(resp: Json) -> Seq<char> {
    match reply_message(resp).field("role"@) {
        Some(Json::Str(s)) => s@,
        _ => "assistant"@,
    }
}

pub open spec fn reply_items(resp: Json) -> Seq<Json> {
    match reply_message(resp).field("tool_calls"@) {
        Some(Json::Array(v)) => v@,
        _ => Seq::empty(),
    }
}

/// `r` is what the chat answer `resp` says.
pub open spec fn reads_reply(r: ChatResponse, resp: Json) -> bool {
    &&& r.role@ == reply_role(resp)
    &&& r.content@ == text_or_empty(reply_message(resp).field("content"@))
    &&& r.tool_calls@.len() == intents(reply_items(resp)).len()
    &&& forall|i: int| 0 <= i < r.tool_calls@.len() ==> requests(#[trigger] r.tool_calls@[i], intents(reply_items(resp))[i])
}

fn text_or_empty_exec(j: Option<Json>) -> (r: String)
    ensures
        r@ == text_or_empty(j),
{
    match j {
        Some(Json::Str(s)) => s,
        _ => String::new(),
    }
}

/// The call that one requested item asks for, if it holds a function object.
fn intent(item: Json) -> (r: Option<ToolCall>)
    ensures
        match r {
            Some(c) => function_of(item) is Object && requests(c, function_of(item)),
            None => !(function_of(item) is Object),
        },
{
    proof {
        reveal_strlit("name");
        reveal_strlit("arguments");
        assert("name"@.len() != "arguments"@.len());
    }
    match item.take("function") {
        Some(f) => match f {
            Json::Object(fields) => {
                let ghost fj = Json::Object(fields);
                let (name, arguments) = Json::Object(fields).take2("name", "arguments");
                let arguments = match arguments {
                    Some(Json::Object(a)) => a,
                    _ => Vec::new(),
                };
                let c = ToolCall { name: text_or_empty_exec(name), arguments };
                assert(requests(c, fj));
                Some(c)
            },
            _ => None,
        },
        None => None,
    }
}

impl ChatResponse {
    /// Reads the model's chat answer: role (`assistant` by default), content
    /// (empty by default) and the tool calls it requests, in order.
    pub fn from_reply(resp: Json) -> (r: ChatResponse)
        ensures
            reads_reply(r, resp),
    {
        let ghost resp0 = resp;
        proof {
            reveal_strlit("role");
            reveal_strlit("content");
            reveal_strlit("tool_calls");
            assert("role"@.len() != "content"@.len() && "role"@.len() != "tool_calls"@.len());
            assert("content"@.len() != "tool_calls"@.len());
        }
        let message = match resp.take("message") {
            Some(m) => m,
            None => Json::Null,
        };
        let (role, content, calls) = message.take3("role", "content", "tool_calls");
        let role = match role {
            Some(Json::Str(s)) => s,
            _ => String::from_str("assistant"),
        };
        let content = text_or_empty_exec(content);
        let mut items = match calls {
            Some(Json::Array(v)) => v,
            _ => Vec::new(),
        };
        let ghost all = items@;
        assert(all =~= reply_items(resp0));
        let ghost mut k: int = 0;
        let mut tool_calls: Vec<ToolCall> = Vec::new();
        assert(all.subrange(0, all.len() as int) =~= all);
        assert(all.subrange(0, 0) =~= Seq::<Json>::empty());
        while items.len() > 0
            invariant
                0 <= k <= all.len(),
                items@ == all.subrange(k, all.len() as int),
                tool_calls@.len() == intents(all.subrange(0, k)).len(),
                forall|i: int| 0 <= i < tool_calls@.len() ==> requests(#[trigger] tool_calls@[i], intents(all.subrange(0, k))[i]),
            decreases items@.len(),
        {
            let item = items.remove(0);
            assert(item == all[k]);
            assert(all.subrange(0, k + 1).drop_last() =~= all.subrange(0, k));
            assert(all.subrange(0, k + 1).last() == all[k]);
            match intent(item) {
                Some(c) => tool_calls.push(c),
                None => {},
            }
            proof {
                k = k + 1;
            }
            assert(items@ =~= all.subrange(k, all.len() as int));
        }
        assert(all.subrange(0, k) =~= all);
        ChatResponse { role, content, tool_calls }
    }


    pub fn has_tool_calls(&self) -> (r: bool)
        ensures
            r == (self.tool_calls@.len() > 0),
    {
        self.tool_calls.len() > 0
    }
}

/// What to do for one requested tool call.
#[derive(Debug)]
pub enum Invocation {
    /// Look an element up by name through the client.
    GetElement(String),
    /// Look an element up by atomic number through the client.
    GetElementByPosition(i32),
    /// Look an element up by a position written in exponent form: the caller
    /// reads the text as a float and cuts it toward zero, as a float-to-`i32`
    /// cast does, before the lookup.
    GetElementByFloatPosition(String),
    /// Nothing to call: this text stands as the call's result.
    Fail(String),
}

/// `j` is the document `{"error": message}`.
pub open spec fn is_error_doc(j: Json, message: Seq<char>) -> bool {
    size(j) == 1 && has_text_member(j, 0, "error"@, message)
}

/// `t` is the text of the document `{"error": message}`.
pub open spec fn is_error_text(t: Seq<char>, message: Seq<char>) -> bool {
    exists|j: Json| is_error_doc(j, message) && t == rendered(j)
}

/// `r` is what to do for the call `c`: a lookup where the arguments allow
/// one, else an error text that names what is wrong. A position is cut toward
/// zero and clamped to `i32`; one that is not a number counts as 0, which the
/// gateway then refuses as out of range.
pub open spec fn plans(r: Invocation, c: ToolCall) -> bool {
    if c.name@ == "get_element"@ {
        match lookup(c.arguments@, "name"@) {
            Some(Json::Str(s)) => r matches Invocation::GetElement(n) && n@ == s@,
            _ => r matches Invocation::Fail(t) && is_error_text(t@, "缺少参数: name"@),
        }
    } else if c.name@ == "get_element_by_position"@ {
        match lookup(c.arguments@, "position"@) {
            Some(Json::Int(i)) => r == Invocation::GetElementByPosition(clamp_i32(i as int)),
            Some(Json::Float(x)) => match integer_part(x@) {
                Some(v) => r == Invocation::GetElementByPosition(clamp_i32(v)),
                None => r matches Invocation::GetElementByFloatPosition(y) && y@ == x@,
            },
            Some(_) => r == Invocation::GetElementByPosition(0),
            None => r matches Invocation::Fail(t) && is_error_text(t@, "缺少参数: position"@),
        }
    } else {
        r matches Invocation::Fail(t) && is_error_text(t@, "未知工具: "@ + c.name@)
    }
}

/// The text of `{"error": message}`.
pub fn error_text(message: String) -> (r: String)
    ensures
        is_error_text(r@, message@),
{
    let mut m: Vec<(String, Json)> = Vec::new();
    m.push((String::from_str("error"), Json::Str(message)));
    let j = Json::Object(m);
    let r = render_json(&j);
    assert(is_error_doc(j, message@));
    r
}

/// Decides what to do for the requested call `c`.
pub fn plan(c: &ToolCall) -> (r: Invocation)
    ensures
        plans(r, *c),
{
    if str_eq(c.name.as_str(), "get_element") {
        match find_member(&c.arguments, "name") {
            Some(i) => match &c.arguments[i].1 {
                Json::Str(s) => Invocation::GetElement(s.clone()),
                _ => Invocation::Fail(error_text(String::from_str("缺少参数: name"))),
            },
            None => Invocation::Fail(error_text(String::from_str("缺少参数: name"))),
        }
    } else if str_eq(c.name.as_str(), "get_element_by_position") {
        match find_member(&c.arguments, "position") {
            Some(i) => match &c.arguments[i].1 {
                Json::Int(p) => if *p < i32::MIN as i128 {
                    Invocation::GetElementByPosition(i32::MIN)
                } else if *p > i32::MAX as i128 {
                    Invocation::GetElementByPosition(i32::MAX)
                } else {
                    Invocation::GetElementByPosition(*p as i32)
                },
                Json::Float(x) => match integer_part_i32(x.as_str()) {
                    Some(p) => Invocation::GetElementByPosition(p),
                    None => Invocation::GetElementByFloatPosition(x.clone()),
                },
                _ => Invocation::GetElementByPosition(0),
            },
            None => Invocation::Fail(error_text(String::from_str("缺少参数: position"))),
        }
    } else {
        let mut m = String::from_str("未知工具: ");
        m.append(c.name.as_str());
        Invocation::Fail(error_text(m))
    }
}

/// The text of an error, as an error payload shows it.
pub open spec fn error_message(e: ClientError) -> Seq<char> {
    match e {
        ClientError::Transport(m) => m@,
        ClientError::Protocol(m) => m@,
        ClientError::Remote { code, message } => "remote error "@ + signed_decimal(code as int)
            + ": "@ + message@,
    }
}

/// Decimal representation of a signed integer.
pub open spec fn signed_decimal(n: int) -> Seq<char> {
    if n < 0 {
        "-"@ + decimal((-n) as nat)
    } else {
        decimal(n as nat)
    }
}

impl ClientError {
    /// Says what went wrong, in words.
    pub fn message(&self) -> (r: String)
        ensures
            r@ == error_message(*self),
    {
        match self {
            ClientError::Transport(m) => m.clone(),
            ClientError::Protocol(m) => m.clone(),
            ClientError::Remote { code, message } => {
                let mut s = String::from_str("remote error ");
                if *code < 0 {
                    s.append("-");
                    let magnitude: u64 = if *code == i64::MIN {
                        9223372036854775808u64
                    } else {
                        (-*code) as u64
                    };
                    push_decimal(&mut s, magnitude);
                } else {
                    push_decimal(&mut s, *code as u64);
                }
                s.append(": ");
                s.append(message.as_str());
                proof {
                    assert(s@ =~= error_message(*self));
                }
                s
            },
        }
    }
}

/// The result text of a tool call: what came back, or an error payload in its
/// place, so that one failed call does not end the run.
pub fn tool_result_text(outcome: Result<String, ClientError>) -> (r: String)
    ensures
        match outcome {
            Ok(t) => r@ == t@,
            Err(e) => is_error_text(r@, error_message(e)),
        },
{
    match outcome {
        Ok(t) => t,
        Err(e) => error_text(e.message()),
    }
}

/// Where the loop stands.
#[derive(PartialEq, Eq, Structural, Clone, Copy, Debug)]
pub enum Phase {
    /// The first chat request is out.
    AwaitingFirstReply,
    /// The requested tools are being called, one after another.
    RunningTools,
    /// The second and last chat request is out.
    AwaitingFinalReply,
    /// The answer is known.
    Finished,
}

/// The state of one run of the loop.
pub struct Orchestrator {
    /// The conversation so far, oldest turn first.
    pub history: Vec<Message>,
    /// The tool calls of the first reply, in the order the model gave them.
    pub pending: Vec<ToolCall>,
    /// How many of them have been answered.
    pub next_call: usize,
    /// How many chat requests the loop has asked for.
    pub chat_requests: usize,
    pub phase: Phase,
    /// The final answer, once the loop has finished.
    pub answer: String,
}

/// The loop's state, with each turn as (role, content).
pub struct OrchestratorView {
    pub history: Seq<(Seq<char>, Seq<char>)>,
    pub pending: nat,
    pub next_call: nat,
    pub chat_requests: nat,
    pub phase: Phase,
    pub answer: Seq<char>,
}

pub open spec fn turns(h: Seq<Message>) -> Seq<(Seq<char>, Seq<char>)> {
    h.map_values(|m: Message| (m.role@, m.content@))
}

impl View for Orchestrator {
    type V = OrchestratorView;

    open spec fn view(&self) -> OrchestratorView {
        OrchestratorView {
            history: turns(self.history@),
            pending: self.pending@.len(),
            next_call: self.next_call as nat,
            chat_requests: self.chat_requests as nat,
            phase: self.phase,
            answer: self.answer@,
        }
    }
}

/// The state in which a run on `query` begins: the query is the only turn and
/// the first chat request is out.
pub open spec fn start(query: Seq<char>) -> OrchestratorView {
    OrchestratorView {
        history: seq![("user"@, query)],
        pending: 0,
        next_call: 0,
        chat_requests: 1,
        phase: Phase::AwaitingFirstReply,
        answer: Seq::empty(),
    }
}

/// The state after a chat reply with `content` that requests `calls` tools.
/// The first reply ends the run where it requests none; the second ends it
/// whatever it requests.
pub open spec fn after_reply(s: OrchestratorView, content: Seq<char>, calls: nat) -> OrchestratorView {
    if s.phase == Phase::AwaitingFirstReply && calls > 0 {
        OrchestratorView { pending: calls, next_call: 0, phase: Phase::RunningTools, ..s }
    } else {
        OrchestratorView { phase: Phase::Finished, answer: content, ..s }
    }
}

/// The state after the current tool call came back with `text`: an assistant
/// turn and a tool turn are added, and after the last call the second chat
/// request goes out.
pub open spec fn after_tool(s: OrchestratorView, text: Seq<char>) -> OrchestratorView {
    let h = s.history.push(("assistant"@, Seq::empty())).push(("tool"@, text));
    if s.next_call + 1 == s.pending {
        OrchestratorView {
            history: h,
            next_call: s.next_call + 1,
            chat_requests: s.chat_requests + 1,
            phase: Phase::AwaitingFinalReply,
            ..s
        }
    } else {
        OrchestratorView { history: h, next_call: s.next_call + 1, ..s }
    }
}

/// The state after the tool calls came back with `texts`, in order.
pub open spec fn after_tools(s: OrchestratorView, texts: Seq<Seq<char>>) -> OrchestratorView
    decreases texts.len(),
{
    if texts.len() == 0 {
        s
    } else {
        after_tools(after_tool(s, texts[0]), texts.drop_first())
    }
}

/// The two turns that each tool result adds.
pub open spec fn tool_turns(texts: Seq<Seq<char>>) -> Seq<(Seq<char>, Seq<char>)>
    decreases texts.len(),
{
    if texts.len() == 0 {
        Seq::empty()
    } else {
        seq![("assistant"@, Seq::empty()), ("tool"@, texts[0])] + tool_turns(texts.drop_first())
    }
}

impl Orchestrator {
    /// Begins a run on `query`; the caller sends the history to the model.
    pub fn new(query: &str) -> (r: Orchestrator)
        ensures
            r@ == start(query@),
            r.pending@.len() == 0,
    {
        let mut history: Vec<Message> = Vec::new();
        history.push(Message::new("user", query));
        let r = Orchestrator {
            history,
            pending: Vec::new(),
            next_call: 0,
            chat_requests: 1,
            phase: Phase::AwaitingFirstReply,
            answer: String::new(),
        };
        assert(r@.history =~= start(query@).history);
        r
    }

    /// Takes in the model's reply to the chat request that is out.
    pub fn on_chat_reply(&mut self, reply: ChatResponse)
        requires
            old(self).phase == Phase::AwaitingFirstReply || old(self).phase == Phase::AwaitingFinalReply,
        ensures
            final(self)@ == after_reply(old(self)@, reply.content@, reply.tool_calls@.len()),
            final(self).phase == Phase::RunningTools ==> final(self).pending@ == reply.tool_calls@,
            final(self).phase != Phase::RunningTools ==> final(self).pending@ == old(self).pending@,
    {
        if self.phase == Phase::AwaitingFirstReply && reply.tool_calls.len() > 0 {
            self.pending = reply.tool_calls;
            self.next_call = 0;
            self.phase = Phase::RunningTools;
        } else {
            self.answer = reply.content;
            self.phase = Phase::Finished;
        }
    }

    /// Takes in the result text of the current tool call.
    pub fn on_tool_result(&mut self, text: String)
        requires
            old(self).phase == Phase::RunningTools,
            old(self).next_call < old(self).pending@.len(),
            old(self).chat_requests < usize::MAX,
        ensures
            final(self)@ == after_tool(old(self)@, text@),
            final(self).pending@ == old(self).pending@,
    {
        let ghost h0 = self.history@;
        let n = self.pending.len();
        proof {
            reveal_strlit("");
        }
        let m1 = Message::new("assistant", "");
        let m2 = Message { role: String::from_str("tool"), content: text };
        assert(m1.content@ == Seq::<char>::empty());
        let ghost v1 = (m1.role@, m1.content@);
        let ghost v2 = (m2.role@, m2.content@);
        self.history.push(m1);
        self.history.push(m2);
        assert(self.history@ == h0.push(m1).push(m2));
        assert(turns(self.history@) =~= turns(h0).push(v1).push(v2));
        self.next_call = self.next_call + 1;
        if self.next_call == n {
            self.chat_requests = self.chat_requests + 1;
            self.phase = Phase::AwaitingFinalReply;
        }
    }
}

/// A run whose first reply requests no tool ends there: one chat round trip,
/// and the reply's content, verbatim, is the answer.
pub proof fn lemma_direct_answer(query: Seq<char>, content: Seq<char>)
    ensures
        after_reply(start(query), content, 0).phase == Phase::Finished,
        after_reply(start(query), content, 0).answer == content,
        after_reply(start(query), content, 0).chat_requests == 1,
        after_reply(start(query), content, 0).history == start(query).history,
{
}

proof fn lemma_tools_run(s: OrchestratorView, texts: Seq<Seq<char>>)
    requires
        s.phase == Phase::RunningTools,
        s.next_call + texts.len() == s.pending,
        texts.len() > 0,
    ensures
        after_tools(s, texts).phase == Phase::AwaitingFinalReply,
        after_tools(s, texts).chat_requests == s.chat_requests + 1,
        after_tools(s, texts).history == s.history + tool_turns(texts),
        after_tools(s, texts).pending == s.pending,
    decreases texts.len(),
{
    let t = after_tool(s, texts[0]);
    let h = s.history.push(("assistant"@, Seq::empty())).push(("tool"@, texts[0]));
    assert(h =~= s.history + seq![("assistant"@, Seq::<char>::empty()), ("tool"@, texts[0])]);
    if texts.len() == 1 {
        assert(texts.drop_first().len() == 0);
        assert(tool_turns(texts.drop_first()) =~= Seq::empty());
        assert(tool_turns(texts) =~= seq![("assistant"@, Seq::<char>::empty()), ("tool"@, texts[0])]);
        assert(after_tools(t, texts.drop_first()) == t);
        assert(s.history + tool_turns(texts) =~= h);
    } else {
        lemma_tools_run(t, texts.drop_first());
        assert(s.history + tool_turns(texts) =~= h + tool_turns(texts.drop_first()));
    }
}

proof fn lemma_tool_turns_len(texts: Seq<Seq<char>>)
    ensures
        tool_turns(texts).len() == 2 * texts.len(),
    decreases texts.len(),
{
    if texts.len() > 0 {
        lemma_tool_turns_len(texts.drop_first());
    }
}

/// A run whose first reply requests `n > 0` tools makes exactly one more chat
/// round trip, whatever `n` is: once the `n` results are in, the history holds
/// the query and then two turns per call (assistant, then tool result), in the
/// order of the calls, and the second reply ends the run even where it
/// requests tools again.
pub proof fn lemma_one_round_of_tools(
    query: Seq<char>,
    content: Seq<char>,
    texts: Seq<Seq<char>>,
    final_content: Seq<char>,
    more_calls: nat,
)
    requires
        texts.len() > 0,
    ensures
        after_tools(after_reply(start(query), content, texts.len()), texts).phase
            == Phase::AwaitingFinalReply,
        after_tools(after_reply(start(query), content, texts.len()), texts).chat_requests == 2,
        after_tools(after_reply(start(query), content, texts.len()), texts).history
            == start(query).history + tool_turns(texts),
        after_tools(after_reply(start(query), content, texts.len()), texts).history.len()
            == 1 + 2 * texts.len(),
        after_reply(
            after_tools(after_reply(start(query), content, texts.len()), texts),
            final_content,
            more_calls,
        ).phase == Phase::Finished,
        after_reply(
            after_tools(after_reply(start(query), content, texts.len()), texts),
            final_content,
            more_calls,
        ).answer == final_content,
        after_reply(
            after_tools(after_reply(start(query), content, texts.len()), texts),
            final_content,
            more_calls,
        ).chat_requests == 2,
{
    lemma_tools_run(after_reply(start(query), content, texts.len()), texts);
    lemma_tool_turns_len(texts);
}

} // verus!
