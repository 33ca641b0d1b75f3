use provider_launcher::json::JsonValue;
use provider_launcher::providers::{effort_level_options, get_provider, providers, ExtraBodyValueType};
use provider_launcher::tui::screens::extra_body::{
    build_extra_body, deserialize_value, get_nested_path, parse_extra_body, serialize_value, set_nested_path,
};

#[test]
fn providers_are_found_by_id() {
    let p = get_provider("openrouter").expect("built in");
    assert_eq!(p.name, "OpenRouter");
    assert!(p.supports_statusline);
    assert!(get_provider("nope").is_none());
    assert_eq!(get_provider("deepseek").unwrap().name, "DeepSeek");
}

#[test]
fn provider_ids_are_distinct() {
    let ps = providers();
    for i in 0..ps.len() {
        for j in (i + 1)..ps.len() {
            assert_ne!(ps[i].id, ps[j].id);
        }
        assert_eq!(get_provider(ps[i].id).unwrap().name, ps[i].name);
    }
}

#[test]
fn openrouter_tabs_cover_fields() {
    let p = get_provider("openrouter").unwrap();
    assert_eq!(p.tab_count(), 2);
    for f in 0..p.fields.len() {
        let t = p.tab_for_field(f).expect("every field has a tab");
        assert!(p.tab_field_indices(t).contains(&f));
    }
    let flat = get_provider("zai").unwrap();
    assert_eq!(flat.tab_count(), 1);
    assert_eq!(flat.tab_field_indices(0), (0..flat.fields.len()).collect::<Vec<_>>());
}

#[test]
fn effort_options() {
    assert_eq!(effort_level_options(), vec!["auto", "low", "medium", "high", "xhigh", "max"]);
}

#[test]
fn nested_path_set_then_get() {
    let mut obj: Vec<(String, JsonValue)> = Vec::new();
    set_nested_path(&mut obj, "provider.only", JsonValue::Str("a".to_string()));
    set_nested_path(&mut obj, "provider.sort", JsonValue::Bool(true));
    let v = JsonValue::Object(obj);
    match get_nested_path(&v, "provider.only") {
        Some(JsonValue::Str(s)) => assert_eq!(s, "a"),
        _ => panic!("missing"),
    }
    assert!(matches!(get_nested_path(&v, "provider.sort"), Some(JsonValue::Bool(true))));
    assert!(get_nested_path(&v, "provider.none").is_none());
    assert!(get_nested_path(&v, "x").is_none());
}

#[test]
fn setting_through_a_non_object_replaces_it() {
    let mut obj = vec![("provider".to_string(), JsonValue::Number("3".to_string()))];
    set_nested_path(&mut obj, "provider.only", JsonValue::Null);
    assert_eq!(obj.len(), 1);
    match &obj[0].1 {
        JsonValue::Object(inner) => {
            assert_eq!(inner.len(), 1);
            assert_eq!(inner[0].0, "only");
        },
        _ => panic!("object expected"),
    }
}

#[test]
fn serialize_form_text() {
    match serialize_value(&ExtraBodyValueType::StringList, " a, ,b ,") {
        Some(JsonValue::Array(items)) => {
            let texts: Vec<String> = items
                .iter()
                .map(|i| match i {
                    JsonValue::Str(s) => s.clone(),
                    _ => panic!(),
                })
                .collect();
            assert_eq!(texts, vec!["a".to_string(), "b".to_string()]);
        },
        _ => panic!("array expected"),
    }
    assert!(serialize_value(&ExtraBodyValueType::StringList, " , ").is_none());
    assert!(matches!(serialize_value(&ExtraBodyValueType::Bool, " Yes "), Some(JsonValue::Bool(true))));
    assert!(matches!(serialize_value(&ExtraBodyValueType::Bool, "0"), Some(JsonValue::Bool(false))));
    assert!(serialize_value(&ExtraBodyValueType::Bool, "maybe").is_none());
    assert!(serialize_value(&ExtraBodyValueType::String, "   ").is_none());
    match serialize_value(&ExtraBodyValueType::Number, " 128 ") {
        Some(JsonValue::Number(n)) => assert_eq!(n, "128"),
        _ => panic!("number expected"),
    }
    assert!(serialize_value(&ExtraBodyValueType::Number, "12x").is_none());
    let number = |t: &str| match serialize_value(&ExtraBodyValueType::Number, t) {
        Some(JsonValue::Number(n)) => Some(n),
        None => None,
        _ => panic!("number expected"),
    };
    assert_eq!(number("+007").as_deref(), Some("7"));
    assert_eq!(number("-12").as_deref(), Some("-12"));
    assert_eq!(number("-9223372036854775808").as_deref(), Some("-9223372036854775808"));
    assert_eq!(number("9223372036854775808"), None);
    assert_eq!(number("-"), None);
    assert_eq!(number("1 2"), None);
}

#[test]
fn stored_values_read_back() {
    let v = serialize_value(&ExtraBodyValueType::String, "  hi  ").unwrap();
    assert_eq!(deserialize_value(&ExtraBodyValueType::String, &v).as_deref(), Some("hi"));
    let l = serialize_value(&ExtraBodyValueType::StringList, "x,y").unwrap();
    assert_eq!(deserialize_value(&ExtraBodyValueType::StringList, &l).as_deref(), Some("x, y"));
    let b = serialize_value(&ExtraBodyValueType::Bool, "true").unwrap();
    assert_eq!(deserialize_value(&ExtraBodyValueType::Bool, &b).as_deref(), Some("true"));
    let n = serialize_value(&ExtraBodyValueType::Number, "-7").unwrap();
    assert_eq!(deserialize_value(&ExtraBodyValueType::Number, &n).as_deref(), Some("-7"));
    assert!(deserialize_value(&ExtraBodyValueType::Bool, &n).is_none());
}

#[test]
fn extra_body_text_round_trip() {
    let members = parse_extra_body(Some(r#"{"provider":{"only":["a"]},"b":true}"#));
    assert_eq!(members.len(), 2);
    assert_eq!(members[0].0, "b");
    assert!(matches!(members[0].1, JsonValue::Bool(true)));
    assert_eq!(members[1].0, "provider");
    assert_eq!(build_extra_body(&members).as_deref(), Some(r#"{"b":true,"provider":{"only":["a"]}}"#));
    assert!(parse_extra_body(Some("not json")).is_empty());
    assert!(parse_extra_body(Some("[1, 2]")).is_empty());
    assert!(parse_extra_body(None).is_empty());
    assert_eq!(build_extra_body(&Vec::new()), None);
    let numbers = vec![("n".to_string(), JsonValue::Number("128".to_string()))];
    assert_eq!(build_extra_body(&numbers).as_deref(), Some(r#"{"n":128}"#));
}
