//! The tool registry: the catalog of tools that the gateway offers, and the
//! dispatch of a call to the tool it names.
use crate::json::Json;
use crate::periodic_table::{
    get_element_by_name, get_element_by_position, name_lookup_text, not_found_text, out_of_range_text,
    position_lookup_text, MAX_POSITION,
};
use crate::text::str_eq;
use vstd::prelude::*;
use vstd::string::*;

verus! {

/// The JSON type that a tool parameter takes.
#[derive(PartialEq, Eq, Structural, Clone, Copy, Debug)]
pub enum ParamKind {
    Text,
    Number,
}

/// A required, named parameter of a tool.
#[derive(Debug)]
pub struct ToolParam {
    pub name: String,
    pub kind: ParamKind,
    pub description: String,
}

/// A tool's name, what it does, and the parameters it requires.
#[derive(Debug)]
pub struct ToolDescriptor {
    pub name: String,
    pub description: String,
    pub params: Vec<ToolParam>,
}

pub struct ToolDescriptorView {
    pub name: Seq<char>,
    pub description: Seq<char>,
    pub params: Seq<(Seq<char>, ParamKind, Seq<char>)>,
}

impl View for ToolDescriptor {
    type V = ToolDescriptorView;

    open spec fn view(&self) -> ToolDescriptorView {
        ToolDescriptorView {
            name: self.name@,
            description: self.description@,
            params: self.params@.map_values(
                |p: ToolParam| (p.name@, p.kind, p.description@),
            ),
        }
    }
}

pub open spec fn get_element_tool() -> ToolDescriptorView {
    ToolDescriptorView {
        name: "get_element"@,
        description: "根据元素名称获取元素周期表元素信息"@,
        params: seq![("name"@, ParamKind::Text, "元素的中文名称，如'氢'、'氦'等"@)],
    }
}

pub open spec fn get_element_by_position_tool() -> ToolDescriptorView {
    ToolDescriptorView {
        name: "get_element_by_position"@,
        description: "根据元素在周期表中的位置（原子序数）查询元素信息"@,
        params: seq![("position"@, ParamKind::Number, "元素的原子序数，范围从1到118"@)],
    }
}

/// The registered tools, in order of registration.
pub open spec fn catalog() -> Seq<ToolDescriptorView> {
    seq![get_element_tool(), get_element_by_position_tool()]
}

pub open spec fn catalog_of(tools: Seq<ToolDescriptor>) -> Seq<ToolDescriptorView> {
    tools.map_values(|d: ToolDescriptor| d@)
}

/// Why a tool call failed.
#[derive(PartialEq, Eq, Structural, Clone, Copy, Debug)]
pub enum ToolFailure {
    /// No tool of that name is registered.
    UnknownTool,
    /// A required argument is absent, of the wrong shape, or out of range.
    InvalidArguments,
}

#[derive(Debug)]
pub struct ToolError {
    pub kind: ToolFailure,
    pub message: String,
}

pub open spec fn unknown_tool_text(name: Seq<char>) -> Seq<char> {
    "Unknown tool: "@ + name
}

pub open spec fn missing_name_text() -> Seq<char> {
    "Missing element name"@
}

pub open spec fn missing_position_text() -> Seq<char> {
    "Missing position"@
}

/// The argument `key` of a call, where the arguments are an object holding it.
pub open spec fn argument(arguments: Option<Json>, key: Seq<char>) -> Option<Json> {
    match arguments {
        Some(a) => a.field(key),
        None => None,
    }
}

/// What the `get_element` tool answers for `name`: no element has an empty
/// name, so an empty one is simply not found.
pub open spec fn tool_name_lookup_text(name: Seq<char>) -> Seq<char> {
    if name.len() == 0 {
        not_found_text()
    } else {
        name_lookup_text(name)
    }
}

/// What a call of tool `name` with `arguments` gives: the result text, or the
/// failure and its message.
pub open spec fn outcome(name: Seq<char>, arguments: Option<Json>) -> Result<
    Seq<char>,
    (ToolFailure, Seq<char>),
> {
    if name == "get_element"@ {
        match argument(arguments, "name"@) {
            Some(Json::Str(s)) => Ok(tool_name_lookup_text(s@)),
            _ => Err((ToolFailure::InvalidArguments, missing_name_text())),
        }
    } else if name == "get_element_by_position"@ {
        match argument(arguments, "position"@) {
            Some(v) => match v.spec_as_u64() {
                Some(p) => if 1 <= p <= MAX_POSITION {
                    Ok(position_lookup_text(p as nat))
                } else {
                    Err((ToolFailure::InvalidArguments, out_of_range_text()))
                },
                None => Err((ToolFailure::InvalidArguments, missing_position_text())),
            },
            None => Err((ToolFailure::InvalidArguments, missing_position_text())),
        }
    } else {
        Err((ToolFailure::UnknownTool, unknown_tool_text(name)))
    }
}

pub open spec fn outcome_of(r: Result<String, ToolError>) -> Result<Seq<char>, (ToolFailure, Seq<char>)> {
    match r {
        Ok(t) => Ok(t@),
        Err(e) => Err((e.kind, e.message@)),
    }
}

/// Every call of `list_tools` gives the same tools in the same order, and no
/// two of them share a name.
pub proof fn lemma_catalog_stable(a: Seq<ToolDescriptor>, b: Seq<ToolDescriptor>)
    requires
        catalog_of(a) == catalog(),
        catalog_of(b) == catalog(),
    ensures
        catalog_of(a) == catalog_of(b),
        forall|i: int, j: int|
            0 <= i < j < catalog_of(a).len() ==> #[trigger] catalog_of(a)[i].name
                != #[trigger] catalog_of(a)[j].name,
{
    reveal_strlit("get_element");
    reveal_strlit("get_element_by_position");
    assert("get_element"@.len() != "get_element_by_position"@.len());
}

/// A call of a tool that is not registered fails with `UnknownTool`, whatever
/// its arguments.
pub proof fn lemma_unregistered_fails(name: Seq<char>, arguments: Option<Json>)
    requires
        forall|i: int| 0 <= i < catalog().len() ==> #[trigger] catalog()[i].name != name,
    ensures
        outcome(name, arguments) == Err::<Seq<char>, (ToolFailure, Seq<char>)>(
            (ToolFailure::UnknownTool, unknown_tool_text(name)),
        ),
{
    assert(catalog()[0].name != name);
    assert(catalog()[1].name != name);
}

fn param(name: &str, kind: ParamKind, description: &str) -> (p: ToolParam)
    ensures
        p.name@ == name@,
        p.kind == kind,
        p.description@ == description@,
{
    ToolParam { name: String::from_str(name), kind, description: String::from_str(description) }
}

/// The catalog, freshly built: the same tools in the same order on every call.
pub fn list_tools() -> (r: Vec<ToolDescriptor>)
    ensures
        catalog_of(r@) == catalog(),
{
    let mut name_params: Vec<ToolParam> = Vec::new();
    name_params.push(param("name", ParamKind::Text, "元素的中文名称，如'氢'、'氦'等"));
    let d1 = ToolDescriptor {
        name: String::from_str("get_element"),
        description: String::from_str("根据元素名称获取元素周期表元素信息"),
        params: name_params,
    };
    assert(d1@.params =~= get_element_tool().params);
    let mut position_params: Vec<ToolParam> = Vec::new();
    position_params.push(param("position", ParamKind::Number, "元素的原子序数，范围从1到118"));
    let d2 = ToolDescriptor {
        name: String::from_str("get_element_by_position"),
        description: String::from_str("根据元素在周期表中的位置（原子序数）查询元素信息"),
        params: position_params,
    };
    assert(d2@.params =~= get_element_by_position_tool().params);
    let mut r: Vec<ToolDescriptor> = Vec::new();
    r.push(d1);
    r.push(d2);
    assert(catalog_of(r@) =~= catalog());
    r
}

fn failure(kind: ToolFailure, message: &str) -> (e: ToolError)
    ensures
        e.kind == kind,
        e.message@ == message@,
{
    ToolError { kind, message: String::from_str(message) }
}

/// Runs the tool `name` on `arguments`.
pub fn call_tool(name: &str, arguments: Option<&Json>) -> (r: Result<String, ToolError>)
    ensures
        outcome_of(r) == outcome(name@, match arguments { Some(a) => Some(*a), None => None }),
{
    let ghost args = match arguments { Some(a) => Some(*a), None => None };
    if str_eq(name, "get_element") {
        let v = match arguments {
            Some(a) => a.get("name"),
            None => None,
        };
        assert(match v { Some(x) => argument(args, "name"@) == Some(*x), None => argument(args, "name"@) is None });
        match v {
            Some(Json::Str(s)) => if s.as_str().unicode_len() == 0 {
                Ok(String::from_str("元素不存在"))
            } else {
                Ok(get_element_by_name(s.as_str()))
            },
            _ => Err(failure(ToolFailure::InvalidArguments, "Missing element name")),
        }
    } else if str_eq(name, "get_element_by_position") {
        let v = match arguments {
            Some(a) => a.get("position"),
            None => None,
        };
        assert(match v { Some(x) => argument(args, "position"@) == Some(*x), None => argument(args, "position"@) is None });
        match v {
            Some(x) => match x.as_u64() {
                Some(p) => if 1 <= p && p <= MAX_POSITION {
                    Ok(get_element_by_position(p as u8))
                } else {
                    Err(failure(ToolFailure::InvalidArguments, "原子序数必须在1-118之间"))
                },
                None => Err(failure(ToolFailure::InvalidArguments, "Missing position")),
            },
            None => Err(failure(ToolFailure::InvalidArguments, "Missing position")),
        }
    } else {
        let mut m = String::from_str("Unknown tool: ");
        m.append(name);
        Err(ToolError { kind: ToolFailure::UnknownTool, message: m })
    }
}

} // verus!
