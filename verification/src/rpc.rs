//! JSON-RPC requests and responses of the server, and the answer to each
//! method: `initialize`, `tools/list` and `tools/call`.
use vstd::prelude::*;
use crate::json::{
    field, member_models, models_of, push_item, push_member, same_text, text_of, JsonModel,
    JsonValue,
};
use crate::prompts::{tool_text, tool_text_model};
use crate::tools::{catalogue, catalogue_tools, Tool};

verus! {

/// A JSON-RPC request.
pub struct JsonRpcRequest {
    pub jsonrpc: String,
    pub id: Option<JsonValue>,
    pub method: String,
    pub params: Option<JsonValue>,
}

/// A JSON-RPC response.
pub struct JsonRpcResponse {
    pub jsonrpc: String,
    pub id: JsonValue,
    pub result: JsonValue,
}

/// The answer to `initialize`: the protocol version, no capabilities, and
/// the server's name and version.
pub open spec fn initialize_result() -> JsonModel {
    JsonModel::Object(
        seq![
            ("protocolVersion"@, JsonModel::Str("2024-11-05"@)),
            ("capabilities"@, JsonModel::Object(seq![])),
            (
                "serverInfo"@,
                JsonModel::Object(
                    seq![
                        ("name"@, JsonModel::Str("mcp-promax-problem-solving"@)),
                        ("version"@, JsonModel::Str("0.1.0"@)),
                    ],
                ),
            ),
        ],
    )
}

/// The schema of a string parameter.
pub open spec fn string_schema() -> JsonModel {
    JsonModel::Object(seq![("type"@, JsonModel::Str("string"@))])
}

/// The schema of the root cause method parameter: one of three names.
pub open spec fn method_schema() -> JsonModel {
    JsonModel::Object(
        seq![
            ("type"@, JsonModel::Str("string"@)),
            (
                "enum"@,
                JsonModel::Array(
                    seq![
                        JsonModel::Str("5_whys"@),
                        JsonModel::Str("fishbone"@),
                        JsonModel::Str("fault_tree"@),
                    ],
                ),
            ),
        ],
    )
}

/// The schema of a tool's arguments: a required `context` string, and
/// for the root cause tool an optional `method`.
pub open spec fn input_schema(t: Tool) -> JsonModel {
    let properties = if t == Tool::RunRootCause {
        seq![("context"@, string_schema()), ("method"@, method_schema())]
    } else {
        seq![("context"@, string_schema())]
    };
    JsonModel::Object(
        seq![
            ("type"@, JsonModel::Str("object"@)),
            ("properties"@, JsonModel::Object(properties)),
            ("required"@, JsonModel::Array(seq![JsonModel::Str("context"@)])),
        ],
    )
}

/// The entry of a tool in the answer to `tools/list`.
pub open spec fn tool_entry(t: Tool) -> JsonModel {
    JsonModel::Object(
        seq![
            ("name"@, JsonModel::Str(t.name_model())),
            ("description"@, JsonModel::Str(t.description_model())),
            ("inputSchema"@, input_schema(t)),
        ],
    )
}

/// The answer to `tools/list`: the entries of the catalogue, in order.
pub open spec fn tools_list_result() -> JsonModel {
    JsonModel::Object(
        seq![("tools"@, JsonModel::Array(catalogue().map_values(|t: Tool| tool_entry(t))))],
    )
}

/// The answer to a method that the server does not know.
pub open spec fn method_not_found_result() -> JsonModel {
    JsonModel::Object(
        seq![
            (
                "error"@,
                JsonModel::Object(
                    seq![
                        ("code"@, JsonModel::Number("-32601"@)),
                        ("message"@, JsonModel::Str("Method not found"@)),
                    ],
                ),
            ),
        ],
    )
}

/// The answer of a tool: one content item of type `text`.
pub open spec fn text_content(text: Seq<char>) -> JsonModel {
    JsonModel::Object(
        seq![
            (
                "content"@,
                JsonModel::Array(
                    seq![
                        JsonModel::Object(
                            seq![("type"@, JsonModel::Str("text"@)), ("text"@, JsonModel::Str(text))],
                        ),
                    ],
                ),
            ),
        ],
    )
}

/// The text of a string value, or the default where there is none.
pub open spec fn text_or(v: Option<Seq<char>>, default: Seq<char>) -> Seq<char> {
    match v {
        Some(s) => s,
        None => default,
    }
}

/// The `arguments` of a tool call, or null where there are none.
pub open spec fn call_arguments(params: JsonModel) -> JsonModel {
    match field(params, "arguments"@) {
        Some(a) => a,
        None => JsonModel::Null,
    }
}

/// The answer to `tools/call`: the tool is named by the string `name` of
/// the parameters (empty where missing); its description is the string
/// `context` of the `arguments` (empty where missing) and its root cause
/// method the string `method` there (`5_whys` where missing).
pub open spec fn tool_call_result(params: JsonModel) -> JsonModel {
    let name = text_or(text_of(field(params, "name"@)), ""@);
    let arguments = call_arguments(params);
    let context = text_or(text_of(field(arguments, "context"@)), ""@);
    let method = text_or(text_of(field(arguments, "method"@)), "5_whys"@);
    text_content(tool_text_model(name, context, method))
}

/// The result for a method with the given parameters (null where absent).
pub open spec fn request_result(method: Seq<char>, params: JsonModel) -> JsonModel {
    if method == "initialize"@ {
        initialize_result()
    } else if method == "tools/list"@ {
        tools_list_result()
    } else if method == "tools/call"@ {
        tool_call_result(params)
    } else {
        method_not_found_result()
    }
}

/// The model of an optional value: null where there is none.
pub open spec fn model_or_null(v: Option<JsonValue>) -> JsonModel {
    match v {
        Some(x) => x@,
        None => JsonModel::Null,
    }
}

/// The answer to `initialize`.
pub fn initialize() -> (r: JsonValue)
    ensures
        r@ == initialize_result(),
{
    let mut info: Vec<(String, JsonValue)> = Vec::new();
    push_member(&mut info, "name", JsonValue::text("mcp-promax-problem-solving"));
    push_member(&mut info, "version", JsonValue::text("0.1.0"));
    let capabilities: Vec<(String, JsonValue)> = Vec::new();
    let mut members: Vec<(String, JsonValue)> = Vec::new();
    push_member(&mut members, "protocolVersion", JsonValue::text("2024-11-05"));
    push_member(&mut members, "capabilities", JsonValue::Object(capabilities));
    push_member(&mut members, "serverInfo", JsonValue::Object(info));
    assert(member_models(capabilities@) =~= seq![]);
    assert(member_models(info@) =~= seq![
        ("name"@, JsonModel::Str("mcp-promax-problem-solving"@)),
        ("version"@, JsonModel::Str("0.1.0"@)),
    ]);
    assert(member_models(members@) =~= seq![
        ("protocolVersion"@, JsonModel::Str("2024-11-05"@)),
        ("capabilities"@, JsonModel::Object(seq![])),
        ("serverInfo"@, JsonModel::Object(member_models(info@))),
    ]);
    JsonValue::Object(members)
}

/// The schema of a string parameter.
fn string_schema_value() -> (r: JsonValue)
    ensures
        r@ == string_schema(),
{
    let mut m: Vec<(String, JsonValue)> = Vec::new();
    push_member(&mut m, "type", JsonValue::text("string"));
    assert(member_models(m@) =~= seq![("type"@, JsonModel::Str("string"@))]);
    JsonValue::Object(m)
}

/// The schema of a tool's arguments.
fn input_schema_value(t: Tool) -> (r: JsonValue)
    ensures
        r@ == input_schema(t),
{
    let mut properties: Vec<(String, JsonValue)> = Vec::new();
    push_member(&mut properties, "context", string_schema_value());
    if t == Tool::RunRootCause {
        let mut names: Vec<JsonValue> = Vec::new();
        push_item(&mut names, JsonValue::text("5_whys"));
        push_item(&mut names, JsonValue::text("fishbone"));
        push_item(&mut names, JsonValue::text("fault_tree"));
        let mut method: Vec<(String, JsonValue)> = Vec::new();
        push_member(&mut method, "type", JsonValue::text("string"));
        push_member(&mut method, "enum", JsonValue::Array(names));
        push_member(&mut properties, "method", JsonValue::Object(method));
        assert(models_of(names@) =~= seq![
            JsonModel::Str("5_whys"@),
            JsonModel::Str("fishbone"@),
            JsonModel::Str("fault_tree"@),
        ]);
        assert(member_models(method@) =~= seq![
            ("type"@, JsonModel::Str("string"@)),
            ("enum"@, JsonModel::Array(models_of(names@))),
        ]);
    }
    assert(member_models(properties@) =~= (if t == Tool::RunRootCause {
        seq![("context"@, string_schema()), ("method"@, method_schema())]
    } else {
        seq![("context"@, string_schema())]
    }));
    let mut required: Vec<JsonValue> = Vec::new();
    push_item(&mut required, JsonValue::text("context"));
    let mut m: Vec<(String, JsonValue)> = Vec::new();
    push_member(&mut m, "type", JsonValue::text("object"));
    push_member(&mut m, "properties", JsonValue::Object(properties));
    push_member(&mut m, "required", JsonValue::Array(required));
    assert(models_of(required@) =~= seq![JsonModel::Str("context"@)]);
    assert(member_models(m@) =~= seq![
        ("type"@, JsonModel::Str("object"@)),
        ("properties"@, JsonModel::Object(member_models(properties@))),
        ("required"@, JsonModel::Array(models_of(required@))),
    ]);
    JsonValue::Object(m)
}

/// The entry of a tool in the answer to `tools/list`.
pub fn tool_entry_value(t: Tool) -> (r: JsonValue)
    ensures
        r@ == tool_entry(t),
{
    let mut m: Vec<(String, JsonValue)> = Vec::new();
    push_member(&mut m, "name", JsonValue::text(t.name()));
    push_member(&mut m, "description", JsonValue::text(t.description()));
    push_member(&mut m, "inputSchema", input_schema_value(t));
    assert(member_models(m@) =~= seq![
        ("name"@, JsonModel::Str(t.name_model())),
        ("description"@, JsonModel::Str(t.description_model())),
        ("inputSchema"@, input_schema(t)),
    ]);
    JsonValue::Object(m)
}

/// The answer to `tools/list`.
pub fn tools_list() -> (r: JsonValue)
    ensures
        r@ == tools_list_result(),
{
    let tools = catalogue_tools();
    let mut entries: Vec<JsonValue> = Vec::new();
    let mut i: usize = 0;
    while i < tools.len()
        invariant
            tools@ == catalogue(),
            i <= tools@.len(),
            models_of(entries@) == catalogue().take(i as int).map_values(|t: Tool| tool_entry(t)),
        decreases tools@.len() - i,
    {
        push_item(&mut entries, tool_entry_value(tools[i]));
        assert(catalogue().take(i + 1).map_values(|t: Tool| tool_entry(t)) =~= catalogue().take(
            i as int,
        ).map_values(|t: Tool| tool_entry(t)).push(tool_entry(tools@[i as int])));
        i = i + 1;
    }
    assert(catalogue().take(8) =~= catalogue());
    let mut m: Vec<(String, JsonValue)> = Vec::new();
    push_member(&mut m, "tools", JsonValue::Array(entries));
    JsonValue::Object(m)
}

/// The answer to a method that the server does not know.
pub fn method_not_found() -> (r: JsonValue)
    ensures
        r@ == method_not_found_result(),
{
    let mut error: Vec<(String, JsonValue)> = Vec::new();
    push_member(&mut error, "code", JsonValue::number("-32601"));
    push_member(&mut error, "message", JsonValue::text("Method not found"));
    let mut m: Vec<(String, JsonValue)> = Vec::new();
    push_member(&mut m, "error", JsonValue::Object(error));
    assert(member_models(error@) =~= seq![
        ("code"@, JsonModel::Number("-32601"@)),
        ("message"@, JsonModel::Str("Method not found"@)),
    ]);
    assert(member_models(m@) =~= seq![("error"@, JsonModel::Object(member_models(error@)))]);
    JsonValue::Object(m)
}

/// The answer of a tool with the given text.
pub fn text_content_value(text: String) -> (r: JsonValue)
    ensures
        r@ == text_content(text@),
{
    let mut item: Vec<(String, JsonValue)> = Vec::new();
    push_member(&mut item, "type", JsonValue::text("text"));
    push_member(&mut item, "text", JsonValue::Str(text));
    let mut content: Vec<JsonValue> = Vec::new();
    push_item(&mut content, JsonValue::Object(item));
    let mut m: Vec<(String, JsonValue)> = Vec::new();
    push_member(&mut m, "content", JsonValue::Array(content));
    let r = JsonValue::Object(m);
    assert(member_models(m@) =~= seq![("content"@, JsonModel::Array(models_of(content@)))]);
    assert(models_of(content@) =~= seq![JsonModel::Object(member_models(item@))]);
    assert(member_models(item@) =~= seq![("type"@, JsonModel::Str("text"@)), ("text"@, JsonModel::Str(text@))]);
    r
}

/// The string member of a value with the given key, or the default.
fn text_field<'a>(v: &'a JsonValue, key: &str, default: &'a str) -> (r: &'a str)
    ensures
        r@ == text_or(text_of(field(v@, key@)), default@),
{
    match v.get(key) {
        Some(x) => match x.as_str() {
            Some(s) => s,
            None => default,
        },
        None => default,
    }
}

/// Answers `tools/call` with the given parameters.
pub fn handle_tool_call(params: JsonValue) -> (r: JsonValue)
    ensures
        r@ == tool_call_result(params@),
{
    let tool_name = text_field(&params, "name", "");
    let null = JsonValue::Null;
    let arguments: &JsonValue = match params.get("arguments") {
        Some(a) => a,
        None => &null,
    };
    assert(arguments@ == call_arguments(params@));
    let context = text_field(arguments, "context", "");
    let method = text_field(arguments, "method", "5_whys");
    let text = tool_text(tool_name, context, method);
    text_content_value(text)
}

/// Answers a request: the response carries JSON-RPC version 2.0, the
/// request's id (null where there is none) and the result for its method.
pub fn handle_request(req: JsonRpcRequest) -> (r: JsonRpcResponse)
    ensures
        r.jsonrpc@ == "2.0"@,
        r.id@ == model_or_null(req.id),
        r.result@ == request_result(req.method@, model_or_null(req.params)),
{
    let id = match req.id {
        Some(v) => v,
        None => JsonValue::Null,
    };
    let method = req.method.as_str();
    let result = if same_text(method, "initialize") {
        initialize()
    } else if same_text(method, "tools/list") {
        tools_list()
    } else if same_text(method, "tools/call") {
        let params = match req.params {
            Some(p) => p,
            None => JsonValue::Null,
        };
        handle_tool_call(params)
    } else {
        method_not_found()
    };
    JsonRpcResponse { jsonrpc: String::from_str("2.0"), id, result }
}

} // verus!
