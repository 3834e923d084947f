use float_pretty_print::PrettyPrintFloat;
use sdm_lister::render;
use sdm_lister::DynamicValue;

/// The number formatting the renderer expects: pretty-printed, then
/// trailing zeros (and a bare trailing dot) trimmed away.
fn number_text(x: f64) -> String {
    let s = format!("{}", PrettyPrintFloat(x));
    if s.contains('e') || !s.contains('.') {
        return s;
    }
    s.trim_end_matches('0').trim_end_matches('.').to_string()
}

#[test]
fn number_renders_without_trailing_zero() {
    let v = DynamicValue::Number(number_text(3.0));
    let lines = render(&v, "");
    assert_eq!(lines, vec!["3".to_string()]);
}

#[test]
fn fractional_number_keeps_its_digits() {
    let v = DynamicValue::Number(number_text(42.5));
    let lines = render(&v, "");
    assert_eq!(lines, vec!["42.5".to_string()]);
}

#[test]
fn object_renders_key_headers_then_values() {
    let v = DynamicValue::Object(vec![
        ("humidity".to_string(), DynamicValue::Number(number_text(42.5))),
        ("on".to_string(), DynamicValue::Bool(true)),
    ]);
    let lines = render(&v, "\t");
    assert_eq!(
        lines,
        vec![
            "[humidity]".to_string(),
            "\t42.5".to_string(),
            "[on]".to_string(),
            "\ttrue".to_string(),
        ]
    );
}

#[test]
fn null_renders_at_prefix() {
    let lines = render(&DynamicValue::Null, "  ");
    assert_eq!(lines, vec!["  NullValue".to_string()]);
}

#[test]
fn text_renders_quoted() {
    let v = DynamicValue::Text("HEATCOOL".to_string());
    let lines = render(&v, "\t");
    assert_eq!(lines, vec!["\t\"HEATCOOL\"".to_string()]);
}

#[test]
fn bool_false_renders_at_prefix() {
    let lines = render(&DynamicValue::Bool(false), "\t");
    assert_eq!(lines, vec!["\tfalse".to_string()]);
}

#[test]
fn object_descent_keeps_the_prefix() {
    let v = DynamicValue::Object(vec![("k".to_string(), DynamicValue::Number("3".to_string()))]);
    let lines = render(&v, "");
    assert_eq!(lines, vec!["[k]".to_string(), "3".to_string()]);
}

#[test]
fn list_descent_deepens_the_prefix() {
    let v = DynamicValue::List(vec![DynamicValue::Number("3".to_string())]);
    let lines = render(&v, "");
    assert_eq!(lines, vec!["\t3".to_string()]);
}

#[test]
fn nested_lists_deepen_twice() {
    let inner = DynamicValue::List(vec![DynamicValue::Number("1".to_string())]);
    let v = DynamicValue::List(vec![inner]);
    let lines = render(&v, "");
    assert_eq!(lines, vec!["\t\t1".to_string()]);
}

#[test]
fn object_nested_in_object_stays_level() {
    let inner = DynamicValue::Object(vec![(
        "inner".to_string(),
        DynamicValue::Bool(true),
    )]);
    let v = DynamicValue::Object(vec![("outer".to_string(), inner)]);
    let lines = render(&v, "\t");
    assert_eq!(
        lines,
        vec!["[outer]".to_string(), "[inner]".to_string(), "\ttrue".to_string()]
    );
}

#[test]
fn empty_object_and_list_render_nothing() {
    assert_eq!(render(&DynamicValue::Object(vec![]), "\t"), Vec::<String>::new());
    assert_eq!(render(&DynamicValue::List(vec![]), "\t"), Vec::<String>::new());
}

#[test]
fn rendering_twice_gives_identical_output() {
    let v = DynamicValue::Object(vec![
        ("a".to_string(), DynamicValue::List(vec![DynamicValue::Null, DynamicValue::Bool(true)])),
        ("b".to_string(), DynamicValue::Text("x".to_string())),
    ]);
    let first = render(&v, "\t");
    let second = render(&v, "\t");
    assert_eq!(first, second);
}
