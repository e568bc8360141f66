use mini_magentic::json::JsonValue;
use mini_magentic::tool_metadata::{
    get_tool_metadata, irreversible_action_prompt, load_tool, make_approval_prompt, ApprovalLevel, ToolLoadError,
    ToolRegistry,
};

fn obj(fields: Vec<(&str, JsonValue)>) -> JsonValue {
    JsonValue::Object(fields.into_iter().map(|(k, v)| (k.to_string(), v)).collect())
}

fn s(x: &str) -> JsonValue {
    JsonValue::String(x.to_string())
}

fn def(name: &str, approval: Option<&str>) -> JsonValue {
    let function = obj(vec![
        ("name", s(name)),
        ("description", s("Navigate to a URL.")),
        (
            "parameters",
            obj(vec![
                ("type", s("object")),
                ("properties", obj(vec![("url", obj(vec![("type", s("string"))]))])),
                ("required", JsonValue::Array(vec![s("explanation"), s("url")])),
            ]),
        ),
    ]);
    match approval {
        Some(a) => obj(vec![("function", function), ("metadata", obj(vec![("requires_approval", s(a))]))]),
        None => obj(vec![("function", function)]),
    }
}

#[test]
fn load_then_get_metadata() {
    let mut registry = ToolRegistry::new();
    assert!(get_tool_metadata(&registry, "visit_url").is_none());
    let schema = load_tool(&mut registry, def("visit_url", Some("maybe"))).unwrap();
    assert_eq!(schema.name, "visit_url");
    assert_eq!(schema.description, "Navigate to a URL.");
    assert_eq!(schema.parameters.schema_type, "object");
    assert_eq!(schema.parameters.required, vec!["explanation".to_string(), "url".to_string()]);
    assert_eq!(get_tool_metadata(&registry, "visit_url").unwrap().approval, ApprovalLevel::Maybe);
    load_tool(&mut registry, def("visit_url", Some("always"))).unwrap();
    assert_eq!(get_tool_metadata(&registry, "visit_url").unwrap().approval, ApprovalLevel::Always);
}

#[test]
fn tool_without_metadata_is_not_registered() {
    let mut registry = ToolRegistry::new();
    load_tool(&mut registry, def("click", None)).unwrap();
    assert!(get_tool_metadata(&registry, "click").is_none());
}

#[test]
fn malformed_definitions_are_refused() {
    let mut registry = ToolRegistry::new();
    assert_eq!(load_tool(&mut registry, def("x", Some("sometimes"))).unwrap_err(), ToolLoadError::InvalidDefinition);
    assert!(get_tool_metadata(&registry, "x").is_none());
    assert!(load_tool(&mut registry, obj(vec![])).is_err());
    assert!(load_tool(&mut registry, s("nope")).is_err());
    let bad_required = obj(vec![(
        "function",
        obj(vec![
            ("name", s("y")),
            ("description", s("d")),
            ("parameters", obj(vec![("type", s("object")), ("properties", JsonValue::Null), ("required", JsonValue::Array(vec![JsonValue::Bool(true)]))])),
        ]),
    )]);
    assert!(load_tool(&mut registry, bad_required).is_err());
    assert_eq!(ToolLoadError::InvalidDefinition.to_string(), "invalid tool definition");
}

#[test]
fn approval_prompt_text() {
    assert_eq!(
        make_approval_prompt(&["a", "b"], &["c"], None),
        "Is this action something that would require human approval before being done? Example: a, b; but c are not actions that require approval."
    );
    assert_eq!(
        irreversible_action_prompt(),
        "Is this action something that would require human approval before being done? Example: buying a product, submitting a form; but navigating a website, things that can be undone are not irreversible actions."
    );
}
