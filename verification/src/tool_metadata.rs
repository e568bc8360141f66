//! Browser tool definitions: reading a definition document into a tool
//! schema, the registry of approval metadata it fills, and the approval
//! question asked about an action.

use vstd::prelude::*;
use crate::assoc::Assoc;
use crate::json::{get_str, get_str_field, json_get, json_str, JsonValue};
use crate::text::{join_spec, join_strs, str_eq, str_views, views};

verus! {

/// When a tool's actions need a person's approval.
#[derive(Debug, Clone, Copy, PartialEq, Eq, Structural)]
pub enum ApprovalLevel {
    Always,
    Maybe,
    Never,
}

/// Approval metadata attached to a tool.
#[derive(Debug, Clone, Copy, PartialEq, Eq, Structural)]
pub struct ToolMetadata {
    pub approval: ApprovalLevel,
}

/// The parameter schema of a tool.
#[derive(Debug)]
pub struct ParametersSchema {
    pub schema_type: String,
    pub properties: JsonValue,
    pub required: Vec<String>,
}

/// A tool as offered to the model.
#[derive(Debug)]
pub struct ToolSchema {
    pub name: String,
    pub description: String,
    pub parameters: ParametersSchema,
}

/// Why a tool definition was refused.
#[derive(Debug, Clone, Copy, PartialEq, Eq, Structural)]
pub enum ToolLoadError {
    /// The document lacks a member, or a member has the wrong kind.
    InvalidDefinition,
}

impl ToolLoadError {
    /// A description of the error.
    pub fn to_string(&self) -> (r: String)
        ensures
            r@ == "invalid tool definition"@,
    {
        String::from_str("invalid tool definition")
    }
}

/// The approval level named by a metadata string.
pub open spec fn approval_named(s: Seq<char>) -> Option<ApprovalLevel> {
    if s == "always"@ {
        Some(ApprovalLevel::Always)
    } else if s == "maybe"@ {
        Some(ApprovalLevel::Maybe)
    } else if s == "never"@ {
        Some(ApprovalLevel::Never)
    } else {
        None
    }
}

/// The metadata a definition carries: `Some(None)` when it has none (or
/// `null`), `Some(Some(m))` when it is well formed, `None` when malformed.
pub open spec fn def_metadata(def: JsonValue) -> Option<Option<ToolMetadata>> {
    match json_get(def, "metadata"@) {
        None => Some(None),
        Some(JsonValue::Null) => Some(None),
        Some(m) => match get_str(m, "requires_approval"@) {
            Some(s) => match approval_named(s) {
                Some(a) => Some(Some(ToolMetadata { approval: a })),
                None => None,
            },
            None => None,
        },
    }
}

/// Whether every element is a string.
pub open spec fn all_strings(items: Seq<JsonValue>) -> bool {
    forall|i: int| 0 <= i < items.len() ==> (#[trigger] items[i]) is String
}

/// The texts of a sequence of strings.
pub open spec fn string_texts(items: Seq<JsonValue>) -> Seq<Seq<char>> {
    items.map_values(|x: JsonValue| json_str(x)->0)
}

/// The `function` member of a definition.
pub open spec fn def_function(def: JsonValue) -> JsonValue {
    json_get(def, "function"@)->0
}

/// The `parameters` member of a definition's function.
pub open spec fn def_parameters(def: JsonValue) -> JsonValue {
    json_get(def_function(def), "parameters"@)->0
}

/// The `required` list of a definition's parameters.
pub open spec fn def_required(def: JsonValue) -> Seq<JsonValue> {
    json_get(def_parameters(def), "required"@)->0->Array_0@
}

/// Whether a definition document has every member a tool needs, of the
/// right kind: `function` with string `name` and `description` and a
/// `parameters` object with a string `type`, a `properties` value and a
/// `required` list of strings; and well-formed or absent `metadata`.
pub open spec fn tool_def_valid(def: JsonValue) -> bool {
    &&& json_get(def, "function"@) is Some
    &&& get_str(def_function(def), "name"@) is Some
    &&& get_str(def_function(def), "description"@) is Some
    &&& json_get(def_function(def), "parameters"@) is Some
    &&& get_str(def_parameters(def), "type"@) is Some
    &&& json_get(def_parameters(def), "properties"@) is Some
    &&& json_get(def_parameters(def), "required"@) matches Some(JsonValue::Array(items)) && all_strings(items@)
    &&& def_metadata(def) is Some
}

/// The approval metadata registered so far, by tool name.
pub struct ToolRegistry {
    entries: Assoc<ToolMetadata>,
}

impl View for ToolRegistry {
    type V = Map<Seq<char>, ToolMetadata>;

    closed spec fn view(&self) -> Map<Seq<char>, ToolMetadata> {
        self.entries@
    }
}

impl ToolRegistry {
    /// An empty registry.
    pub fn new() -> (r: ToolRegistry)
        ensures
            r@ == Map::<Seq<char>, ToolMetadata>::empty(),
    {
        ToolRegistry { entries: Assoc::new() }
    }
}

/// The member named `key` of an object, moved out of it.
fn take_member(value: JsonValue, key: &str) -> (r: Option<JsonValue>)
    ensures
        r == json_get(value, key@),
{
    match value {
        JsonValue::Object(fields) => {
            let ghost orig = fields@;
            let mut fields = fields;
            let mut i: usize = 0;
            while i < fields.len()
                invariant
                    fields@ == orig,
                    json_get(value, key@) == crate::json::member(orig, key@),
                    i <= fields@.len(),
                    forall|j: int| 0 <= j < i ==> (#[trigger] fields@[j]).0@ != key@,
                decreases fields@.len() - i,
            {
                if str_eq(fields[i].0.as_str(), key) {
                    proof {
                        assert(crate::json::first_member(orig, key@, i as int));
                        crate::json::lemma_member_at(orig, key@, i as int);
                    }
                    let (_, v) = fields.remove(i);
                    return Some(v);
                }
                i = i + 1;
            }
            None
        },
        _ => None,
    }
}

/// Reads a tool definition into a schema and, when it carries approval
/// metadata, records that under the tool's name. A malformed definition is
/// refused and leaves the registry unchanged.
pub fn load_tool(registry: &mut ToolRegistry, def: JsonValue) -> (r: Result<ToolSchema, ToolLoadError>)
    ensures
        (r is Ok) == tool_def_valid(def),
        r matches Ok(s) ==> {
            &&& s.name@ == get_str(def_function(def), "name"@)->0
            &&& s.description@ == get_str(def_function(def), "description"@)->0
            &&& s.parameters.schema_type@ == get_str(def_parameters(def), "type"@)->0
            &&& s.parameters.properties == json_get(def_parameters(def), "properties"@)->0
            &&& views(s.parameters.required@) == string_texts(def_required(def))
        },
        final(registry)@ == (if tool_def_valid(def) && def_metadata(def)->0 is Some {
            old(registry)@.insert(get_str(def_function(def), "name"@)->0, def_metadata(def)->0->0)
        } else {
            old(registry)@
        }),
{
    let metadata: Option<ToolMetadata> = match def.get("metadata") {
        None => None,
        Some(JsonValue::Null) => None,
        Some(m) => match get_str_field(m, "requires_approval") {
            Some(s) => {
                if str_eq(s, "always") {
                    Some(ToolMetadata { approval: ApprovalLevel::Always })
                } else if str_eq(s, "maybe") {
                    Some(ToolMetadata { approval: ApprovalLevel::Maybe })
                } else if str_eq(s, "never") {
                    Some(ToolMetadata { approval: ApprovalLevel::Never })
                } else {
                    return Err(ToolLoadError::InvalidDefinition);
                }
            },
            None => {
                return Err(ToolLoadError::InvalidDefinition);
            },
        },
    };
    assert(def_metadata(def) == Some(metadata));
    let (name, description, schema_type, required) = {
        let f = match def.get("function") {
            Some(f) => f,
            None => {
                return Err(ToolLoadError::InvalidDefinition);
            },
        };
        let name = match get_str_field(f, "name") {
            Some(s) => String::from_str(s),
            None => {
                return Err(ToolLoadError::InvalidDefinition);
            },
        };
        let description = match get_str_field(f, "description") {
            Some(s) => String::from_str(s),
            None => {
                return Err(ToolLoadError::InvalidDefinition);
            },
        };
        let p = match f.get("parameters") {
            Some(p) => p,
            None => {
                return Err(ToolLoadError::InvalidDefinition);
            },
        };
        let schema_type = match get_str_field(p, "type") {
            Some(s) => String::from_str(s),
            None => {
                return Err(ToolLoadError::InvalidDefinition);
            },
        };
        if p.get("properties").is_none() {
            return Err(ToolLoadError::InvalidDefinition);
        }
        let items = match p.get("required") {
            Some(JsonValue::Array(items)) => items,
            _ => {
                return Err(ToolLoadError::InvalidDefinition);
            },
        };
        assert(def_function(def) == *f);
        assert(def_parameters(def) == *p);
        let mut required: Vec<String> = Vec::new();
        let mut i: usize = 0;
        while i < items.len()
            invariant
                i <= items@.len(),
                registry@ == old(registry)@,
                json_get(def_parameters(def), "required"@) == Some(JsonValue::Array(*items)),
                forall|j: int| 0 <= j < i ==> (#[trigger] items@[j]) is String,
                views(required@) == string_texts(items@.subrange(0, i as int)),
            decreases items@.len() - i,
        {
            match &items[i] {
                JsonValue::String(s) => {
                    let ghost prev = required@;
                    let c = String::from_str(s.as_str());
                    let ghost cv = c@;
                    required.push(c);
                    proof {
                        assert(required@ == prev.push(c));
                        assert(views(required@) =~= views(prev).push(cv));
                        assert(string_texts(items@.subrange(0, i + 1)) =~= string_texts(items@.subrange(0, i as int)).push(cv));
                    }
                },
                _ => {
                    return Err(ToolLoadError::InvalidDefinition);
                },
            }
            i = i + 1;
        }
        assert(items@.subrange(0, items@.len() as int) =~= items@);
        (name, description, schema_type, required)
    };
    assert(tool_def_valid(def));
    let ghost d = def;
    match metadata {
        Some(m) => {
            let key = String::from_str(name.as_str());
            registry.entries.insert(key, m);
        },
        None => {},
    }
    let properties = match take_member(def, "function") {
        Some(f) => match take_member(f, "parameters") {
            Some(p) => match take_member(p, "properties") {
                Some(x) => x,
                None => {
                    return Err(ToolLoadError::InvalidDefinition);
                },
            },
            None => {
                return Err(ToolLoadError::InvalidDefinition);
            },
        },
        None => {
            return Err(ToolLoadError::InvalidDefinition);
        },
    };
    assert(properties == json_get(def_parameters(d), "properties"@)->0);
    Ok(ToolSchema { name, description, parameters: ParametersSchema { schema_type, properties, required } })
}

/// The approval metadata registered for `tool_name`, if any.
pub fn get_tool_metadata(registry: &ToolRegistry, tool_name: &str) -> (r: Option<ToolMetadata>)
    ensures
        r is Some <==> registry@.dom().contains(tool_name@),
        r matches Some(m) ==> m == registry@[tool_name@],
{
    match registry.entries.get(tool_name) {
        Some(m) => Some(*m),
        None => None,
    }
}

/// The approval question: examples of guarded actions, examples of actions
/// that are not, and the category (by default "actions that require approval").
pub open spec fn approval_prompt_spec(
    guarded: Seq<Seq<char>>,
    unguarded: Seq<Seq<char>>,
    category: Option<Seq<char>>,
) -> Seq<char> {
    let c = match category {
        Some(c) => c,
        None => "actions that require approval"@,
    };
    "Is this action something that would require human approval before being done? Example: "@
        + join_spec(guarded, ", "@) + "; but "@ + join_spec(unguarded, ", "@) + " are not "@ + c + "."@
}

/// The approval question (see `approval_prompt_spec`).
pub fn make_approval_prompt(guarded_examples: &[&str], unguarded_examples: &[&str], category: Option<&str>) -> (r: String)
    ensures
        r@ == approval_prompt_spec(str_views(guarded_examples@), str_views(unguarded_examples@), match category {
            Some(c) => Some(c@),
            None => None,
        }),
{
    let c = match category {
        Some(c) => c,
        None => "actions that require approval",
    };
    let mut r = String::from_str("Is this action something that would require human approval before being done? Example: ");
    let g = join_strs(guarded_examples, ", ");
    r.append(g.as_str());
    r.append("; but ");
    let u = join_strs(unguarded_examples, ", ");
    r.append(u.as_str());
    r.append(" are not ");
    r.append(c);
    r.append(".");
    r
}

/// The approval question for irreversible actions.
pub fn irreversible_action_prompt() -> (r: String)
    ensures
        r@ == approval_prompt_spec(
            seq!["buying a product"@, "submitting a form"@],
            seq!["navigating a website"@, "things that can be undone"@],
            Some("irreversible actions"@),
        ),
{
    let guarded: [&str; 2] = ["buying a product", "submitting a form"];
    let unguarded: [&str; 2] = ["navigating a website", "things that can be undone"];
    let r = make_approval_prompt(guarded.as_slice(), unguarded.as_slice(), Some("irreversible actions"));
    proof {
        assert(str_views(guarded@) =~= seq!["buying a product"@, "submitting a form"@]);
        assert(str_views(unguarded@) =~= seq!["navigating a website"@, "things that can be undone"@]);
    }
    r
}


/// After a definition with approval metadata is loaded, the registry
/// answers that metadata for the tool's name, and keeps every other tool's.
pub proof fn lemma_load_then_get(before: Map<Seq<char>, ToolMetadata>, def: JsonValue, other: Seq<char>)
    requires
        tool_def_valid(def),
        def_metadata(def)->0 is Some,
    ensures
        ({
            let name = get_str(def_function(def), "name"@)->0;
            let after = before.insert(name, def_metadata(def)->0->0);
            &&& after.dom().contains(name)
            &&& after[name] == def_metadata(def)->0->0
            &&& other != name ==> (after.dom().contains(other) == before.dom().contains(other))
            &&& (other != name && before.dom().contains(other)) ==> after[other] == before[other]
        }),
{
}
/// The approval names map to their levels: metadata asking `always`,
/// `maybe` or `never` is read as `Always`, `Maybe` or `Never` respectively,
/// and any other name makes the definition malformed.
pub proof fn lemma_approval_names(def: JsonValue, m: JsonValue, s: Seq<char>)
    requires
        json_get(def, "metadata"@) == Some(m),
        get_str(m, "requires_approval"@) == Some(s),
    ensures
        s == "always"@ ==> def_metadata(def) == Some(Some(ToolMetadata { approval: ApprovalLevel::Always })),
        s == "maybe"@ ==> def_metadata(def) == Some(Some(ToolMetadata { approval: ApprovalLevel::Maybe })),
        s == "never"@ ==> def_metadata(def) == Some(Some(ToolMetadata { approval: ApprovalLevel::Never })),
        (s != "always"@ && s != "maybe"@ && s != "never"@) ==> def_metadata(def) is None,
{
    reveal_strlit("always");
    reveal_strlit("maybe");
    reveal_strlit("never");
    assert("maybe"@.len() != "always"@.len());
    assert("never"@[0] != "always"@[0] && "never"@[0] != "maybe"@[0]);
    assert(m !is Null);
    assert(def_metadata(def) == match approval_named(s) {
        Some(a) => Some(Some(ToolMetadata { approval: a })),
        None => None::<Option<ToolMetadata>>,
    });
}

} // verus!
