use vstd::prelude::*;
use crate::errors::AutonavError;
use crate::json::{JsonValue, lookup, merged_lookup};

verus! {

/// A capability advertised to the model: a name, a description, and a
/// JSON-schema-shaped input contract.
#[derive(Debug)]
pub struct Tool {
    pub name: String,
    pub description: String,
    pub input_schema: JsonValue,
}

/// One tool invocation requested by the model.
#[derive(Debug, Clone)]
pub struct ToolCall {
    pub id: String,
    pub name: String,
    pub input: JsonValue,
}

/// What one tool invocation produced, correlated by the call's id.
#[derive(Debug, Clone)]
pub struct ToolResult {
    pub tool_use_id: String,
    pub tool_name: String,
    pub result: JsonValue,
}

/// The persisted plugin configuration as the tools see it: nothing at
/// all when the navigator has no plugin-configuration path, else the
/// parsed document (an empty object when the file does not exist yet).
#[derive(Debug)]
pub struct PluginStore {
    pub doc: Option<JsonValue>,
}

fn obj_entry(key: &str, val: JsonValue) -> (r: (String, JsonValue))
    ensures
        r.0@ == key@,
        r.1 == val,
{
    (String::from_str(key), val)
}

fn str_val(text: &str) -> (r: JsonValue)
    ensures
        r matches JsonValue::Str(s) && s@ == text@,
{
    JsonValue::Str(String::from_str(text))
}

/// The tool the model must call to hand in a structured answer.
pub fn submit_answer_tool() -> (r: Tool)
    ensures
        r.name@ == "submit_answer"@,
        r.description@ == "Submit a grounded answer with sources and confidence score"@,
        r.input_schema is Obj,
{
    let mut source_props: Vec<(String, JsonValue)> = Vec::new();
    source_props.push(obj_entry("file", schema_of("string", "Relative path to source file")));
    source_props.push(obj_entry("section", schema_of("string", "Section or heading reference")));
    source_props.push(obj_entry("relevance", schema_of("string", "Why this source is relevant")));
    let mut source_required: Vec<JsonValue> = Vec::new();
    source_required.push(str_val("file"));
    source_required.push(str_val("section"));
    source_required.push(str_val("relevance"));
    let mut source_schema: Vec<(String, JsonValue)> = Vec::new();
    source_schema.push(obj_entry("type", str_val("object")));
    source_schema.push(obj_entry("properties", JsonValue::Obj(source_props)));
    source_schema.push(obj_entry("required", JsonValue::Arr(source_required)));

    let mut sources_schema: Vec<(String, JsonValue)> = Vec::new();
    sources_schema.push(obj_entry("type", str_val("array")));
    sources_schema.push(obj_entry("items", JsonValue::Obj(source_schema)));
    sources_schema.push(obj_entry("description", str_val("Sources cited in the answer")));

    let mut confidence_schema: Vec<(String, JsonValue)> = Vec::new();
    confidence_schema.push(obj_entry("type", str_val("number")));
    confidence_schema.push(obj_entry("minimum", JsonValue::Num(String::from_str("0"))));
    confidence_schema.push(obj_entry("maximum", JsonValue::Num(String::from_str("1"))));
    confidence_schema.push(obj_entry("description", str_val("Confidence score (0-1)")));

    let mut props: Vec<(String, JsonValue)> = Vec::new();
    props.push(obj_entry("answer", schema_of("string", "The grounded answer with citations")));
    props.push(obj_entry("sources", JsonValue::Obj(sources_schema)));
    props.push(obj_entry("confidence", JsonValue::Obj(confidence_schema)));

    let mut required: Vec<JsonValue> = Vec::new();
    required.push(str_val("answer"));
    required.push(str_val("sources"));
    required.push(str_val("confidence"));

    let mut schema: Vec<(String, JsonValue)> = Vec::new();
    schema.push(obj_entry("type", str_val("object")));
    schema.push(obj_entry("properties", JsonValue::Obj(props)));
    schema.push(obj_entry("required", JsonValue::Arr(required)));

    Tool {
        name: String::from_str("submit_answer"),
        description: String::from_str("Submit a grounded answer with sources and confidence score"),
        input_schema: JsonValue::Obj(schema),
    }
}

fn schema_of(ty: &str, description: &str) -> (r: JsonValue)
    ensures
        r is Obj,
{
    let mut entries: Vec<(String, JsonValue)> = Vec::new();
    entries.push(obj_entry("type", str_val(ty)));
    entries.push(obj_entry("description", str_val(description)));
    JsonValue::Obj(entries)
}

/// The two self-configuration tools, offered only when the navigator
/// has a plugin-configuration path.
pub fn self_config_tools() -> (r: Vec<Tool>)
    ensures
        r@.len() == 2,
        r@[0].name@ == "get_plugin_config"@,
        r@[1].name@ == "update_plugin_config"@,
{
    let mut get_schema: Vec<(String, JsonValue)> = Vec::new();
    get_schema.push(obj_entry("type", str_val("object")));
    let mut get_props: Vec<(String, JsonValue)> = Vec::new();
    get_props.push(
        obj_entry("plugin", schema_of("string", "Plugin name or 'all' for all plugins")),
    );
    get_schema.push(obj_entry("properties", JsonValue::Obj(get_props)));
    let mut get_required: Vec<JsonValue> = Vec::new();
    get_required.push(str_val("plugin"));
    get_schema.push(obj_entry("required", JsonValue::Arr(get_required)));

    let mut upd_schema: Vec<(String, JsonValue)> = Vec::new();
    upd_schema.push(obj_entry("type", str_val("object")));
    let mut upd_props: Vec<(String, JsonValue)> = Vec::new();
    upd_props.push(obj_entry("plugin", schema_of("string", "Plugin to update")));
    upd_props.push(obj_entry("updates", schema_of("object", "Configuration updates to apply")));
    upd_props.push(
        obj_entry("reason", schema_of("string", "Reason for the update (for audit trail)")),
    );
    upd_schema.push(obj_entry("properties", JsonValue::Obj(upd_props)));
    let mut upd_required: Vec<JsonValue> = Vec::new();
    upd_required.push(str_val("plugin"));
    upd_required.push(str_val("updates"));
    upd_required.push(str_val("reason"));
    upd_schema.push(obj_entry("required", JsonValue::Arr(upd_required)));

    let mut tools: Vec<Tool> = Vec::new();
    tools.push(
        Tool {
            name: String::from_str("get_plugin_config"),
            description: String::from_str("Get current plugin configuration"),
            input_schema: JsonValue::Obj(get_schema),
        },
    );
    tools.push(
        Tool {
            name: String::from_str("update_plugin_config"),
            description: String::from_str("Update plugin configuration"),
            input_schema: JsonValue::Obj(upd_schema),
        },
    );
    tools
}

/// The `plugin` string of a tool input, when there is one.
pub open spec fn input_plugin(input: JsonValue) -> Option<Seq<char>> {
    match input {
        JsonValue::Obj(e) => match lookup(e@, "plugin"@) {
            Some(JsonValue::Str(s)) => Some(s@),
            _ => None,
        },
        _ => None,
    }
}

/// The names the configuration tools know.
pub open spec fn known_plugin_name(n: Seq<char>) -> bool {
    ||| n == "slack"@
    ||| n == "signal"@
    ||| n == "github"@
    ||| n == "email"@
    ||| n == "file_watcher"@
}

fn read_plugin_name(input: &JsonValue) -> (r: Option<String>)
    ensures
        match r {
            Some(s) => input_plugin(*input) == Some(s@),
            None => input_plugin(*input) is None,
        },
{
    match crate::json::get(input, "plugin") {
        Some(JsonValue::Str(s)) => Some(s.clone()),
        _ => None,
    }
}

fn is_known_plugin(name: &str) -> (r: bool)
    ensures
        r == known_plugin_name(name@),
{
    crate::strutil::str_eq(name, "slack") || crate::strutil::str_eq(name, "signal")
        || crate::strutil::str_eq(name, "github") || crate::strutil::str_eq(name, "email")
        || crate::strutil::str_eq(name, "file_watcher")
}

/// What the read tool must answer for a request: the shape of the
/// whole stored document for "all", else the shape of the named
/// sub-record, null when the document holds none.
pub open spec fn config_payload_right(
    payload: JsonValue,
    doc: JsonValue,
    name: Seq<char>,
) -> bool {
    if name == "all"@ {
        crate::json::shape_of(payload) == crate::json::shape_of(doc)
    } else {
        match doc {
            JsonValue::Obj(e) => match lookup(e@, name) {
                Some(sub) => crate::json::shape_of(payload) == crate::json::shape_of(sub),
                None => payload is Null,
            },
            _ => payload is Null,
        }
    }
}

/// Read plugin configuration for the model: the named sub-record, or the
/// whole document for "all". Succeeds exactly when the input names a
/// plugin, a configuration path exists, and the name is known (or
/// "all"); the store is never touched, and the payload carries the
/// stored record, shape for shape.
pub fn get_plugin_config(input: &JsonValue, store: &PluginStore) -> (r: Result<
    JsonValue,
    AutonavError,
>)
    ensures
        r is Ok <==> {
            &&& input_plugin(*input) is Some
            &&& store.doc is Some
            &&& (known_plugin_name(input_plugin(*input)->0) || input_plugin(*input)->0 == "all"@)
        },
        r is Err ==> r->Err_0 is ToolError,
        r is Ok ==> (r->Ok_0 matches JsonValue::Obj(e) && lookup(e@, "success"@) == Some(
            JsonValue::Bool(true),
        ) && (lookup(e@, "config"@) matches Some(payload) && config_payload_right(
            payload,
            store.doc->0,
            input_plugin(*input)->0,
        ))),
{
    proof {
        broadcast use vstd::string::group_string_axioms;

        reveal_strlit("success");
        reveal_strlit("config");
        assert("success"@.len() == 7);
        assert("config"@.len() == 6);
        assert("success"@ != "config"@);
    }
    let plugin = match read_plugin_name(input) {
        Some(p) => p,
        None => {
            return Err(AutonavError::ToolError(String::from_str("Missing plugin field")));
        },
    };
    let doc = match &store.doc {
        Some(d) => d,
        None => {
            return Err(AutonavError::ToolError(String::from_str("No plugins config path")));
        },
    };
    let payload: JsonValue = if crate::strutil::str_eq(plugin.as_str(), "all") {
        crate::json::copy_json(doc)
    } else if is_known_plugin(plugin.as_str()) {
        match crate::json::get(doc, plugin.as_str()) {
            Some(sub) => crate::json::copy_json(sub),
            None => JsonValue::Null,
        }
    } else {
        return Err(AutonavError::ToolError(String::from_str("Unknown plugin")));
    };
    let ghost gpayload = payload;
    let mut out: Vec<(String, JsonValue)> = Vec::new();
    out.push(obj_entry("success", JsonValue::Bool(true)));
    out.push(obj_entry("config", payload));
    let r = JsonValue::Obj(out);
    proof {
        let e = r->Obj_0@;
        assert(e[0].0@ == "success"@);
        assert(e[1].0@ == "config"@ && e[1].1 == gpayload);
        assert(lookup(e, "success"@) == Some(JsonValue::Bool(true)));
        assert(e.drop_first() =~= seq![e[1]]);
        assert(lookup(e.drop_first(), "config"@) == Some(gpayload));
        assert(lookup(e, "config"@) == Some(gpayload));
    }
    Ok(r)
}

/// What the update tool starts from for the named plugin: the present
/// sub-object's entries, or none for a fresh record.
pub open spec fn sub_entries(doc: Seq<(String, JsonValue)>, name: Seq<char>) -> Seq<
    (String, JsonValue),
> {
    match lookup(doc, name) {
        Some(JsonValue::Obj(es)) => es@,
        _ => Seq::empty(),
    }
}

/// The `reason` string of an update input, when there is one.
pub open spec fn input_reason(input: JsonValue) -> Option<Seq<char>> {
    match input {
        JsonValue::Obj(e) => match lookup(e@, "reason"@) {
            Some(JsonValue::Str(s)) => Some(s@),
            _ => None,
        },
        _ => None,
    }
}

/// Apply a configuration update for the model: shallow-merge the given
/// partial update into the named plugin's sub-record and store the
/// result. Unspecified fields keep their prior values; specified fields
/// are fully overwritten (the merge is one level deep, not recursive);
/// every other key of the document is untouched. The human-readable
/// reason is mandatory and is echoed for the audit trail.
#[verifier::rlimit(30)]
pub fn update_plugin_config(input: JsonValue, store: &mut PluginStore) -> (r: Result<
    JsonValue,
    AutonavError,
>)
    ensures
        r is Err ==> r->Err_0 is ToolError && final(store).doc == old(store).doc,
        r is Ok <==> {
            &&& input_plugin(input) is Some
            &&& known_plugin_name(input_plugin(input)->0)
            &&& input_reason(input) is Some
            &&& (input matches JsonValue::Obj(e) && lookup(e@, "updates"@) is Some)
            &&& (old(store).doc matches Some(d) && d is Obj)
        },
        r is Ok ==> {
            &&& (final(store).doc matches Some(nd) && nd is Obj)
            &&& {
                let name = input_plugin(input)->0;
                let d = old(store).doc->0->Obj_0@;
                let nd = final(store).doc->0->Obj_0@;
                let upd = lookup(input->Obj_0@, "updates"@)->0;
                &&& forall|k: Seq<char>| k != name ==> #[trigger] lookup(nd, k) == lookup(d, k)
                &&& (lookup(nd, name) matches Some(m) && m is Obj)
                &&& (upd is Obj ==> forall|kk: Seq<char>|
                    #[trigger] lookup(lookup(nd, name)->0->Obj_0@, kk) == merged_lookup(
                        sub_entries(d, name),
                        upd->Obj_0@,
                        kk,
                    ))
                &&& (!(upd is Obj) ==> forall|kk: Seq<char>|
                    #[trigger] lookup(lookup(nd, name)->0->Obj_0@, kk) == lookup(
                        sub_entries(d, name),
                        kk,
                    ))
            }
            &&& (r->Ok_0 matches JsonValue::Obj(e) && lookup(e@, "success"@) == Some(
                JsonValue::Bool(true),
            ))
        },
{
    let mut input = input;
    let plugin = match read_plugin_name(&input) {
        Some(p) => p,
        None => {
            return Err(AutonavError::ToolError(String::from_str("Missing plugin field")));
        },
    };
    if !is_known_plugin(plugin.as_str()) {
        return Err(AutonavError::ToolError(String::from_str("Unknown plugin")));
    }
    let reason: String = match crate::json::get(&input, "reason") {
        Some(JsonValue::Str(s)) => s.clone(),
        _ => {
            return Err(AutonavError::ToolError(String::from_str("Missing reason field")));
        },
    };
    let updates = match &mut input {
        JsonValue::Obj(entries) => {
            match crate::json::take_entry(entries, "updates") {
                Some(u) => u,
                None => {
                    return Err(AutonavError::ToolError(String::from_str("Missing updates field")));
                },
            }
        },
        _ => {
            return Err(AutonavError::ToolError(String::from_str("Missing updates field")));
        },
    };
    let doc_present = match &store.doc {
        Some(JsonValue::Obj(_)) => true,
        _ => false,
    };
    if !doc_present {
        return Err(AutonavError::ToolError(String::from_str("No plugins config path")));
    }
    let ghost old_doc_entries = store.doc->0->Obj_0@;
    let mut doc = store.doc.take().unwrap();
    let current: JsonValue = match &mut doc {
        JsonValue::Obj(entries) => {
            match crate::json::take_entry(entries, plugin.as_str()) {
                Some(sub @ JsonValue::Obj(_)) => sub,
                _ => JsonValue::Obj(Vec::new()),
            }
        },
        _ => JsonValue::Obj(Vec::new()),
    };
    proof {
        assert(current is Obj);
        assert(current->Obj_0@ =~= sub_entries(old_doc_entries, plugin@));
    }
    let merged = crate::json::merge_json(current, updates);
    match &mut doc {
        JsonValue::Obj(entries) => {
            crate::json::set_entry(entries, plugin.clone(), merged);
        },
        _ => {},
    }
    store.doc = Some(doc);
    let mut out: Vec<(String, JsonValue)> = Vec::new();
    out.push(obj_entry("success", JsonValue::Bool(true)));
    out.push(obj_entry("message", str_val("Updated plugin configuration")));
    out.push(obj_entry("reason", JsonValue::Str(reason)));
    let r = JsonValue::Obj(out);
    proof {
        assert(lookup(r->Obj_0@, "success"@) == Some(JsonValue::Bool(true)));
    }
    Ok(r)
}

} // verus!
