use arrowhead_adapter::table::{render_report, render_to_string, Serializer};
use arrowhead_adapter::value::Value;

fn scalar(t: &str) -> Value {
    Value::Scalar(t.to_string())
}

#[test]
fn settings_report_scenario() {
    let value = Value::Record(vec![
        (
            "systemName".to_string(),
            Value::Present(Box::new(scalar("sys1"))),
        ),
        ("columnWidth".to_string(), Value::Absent),
    ]);
    let report = render_report("Settings", &value, 10);
    assert_eq!(
        report,
        "Settings:\nsystemNamesys1      \ncolumnWidth<empty>   \n\n"
    );
}

#[test]
fn nested_record_indents_by_one_block() {
    let inner = Value::Record(vec![
        ("x".to_string(), scalar("1")),
        ("y".to_string(), scalar("2")),
    ]);
    let value = Value::Record(vec![
        ("a".to_string(), inner),
        ("b".to_string(), scalar("3")),
    ]);
    let body = render_to_string(&value, 4);
    assert_eq!(body, "a   x   1   \n    y   2   \nb   3   ");
}

#[test]
fn padding_fills_to_width() {
    assert_eq!(render_to_string(&scalar("ab"), 5), "ab   ");
}

#[test]
fn padding_never_truncates_long_tokens() {
    assert_eq!(render_to_string(&scalar("averylongtoken"), 4), "averylongtoken");
}

#[test]
fn absent_renders_as_empty_marker() {
    assert_eq!(render_to_string(&Value::Absent, 10), "<empty>   ");
}

#[test]
fn present_is_transparent() {
    let plain = render_to_string(&scalar("data"), 8);
    let wrapped = render_to_string(&Value::Present(Box::new(scalar("data"))), 8);
    assert_eq!(plain, wrapped);
}

#[test]
fn variant_name_renders_as_scalar() {
    let as_variant = render_to_string(&Value::VariantName("TOKEN".to_string()), 8);
    let as_scalar = render_to_string(&scalar("TOKEN"), 8);
    assert_eq!(as_variant, as_scalar);
}

#[test]
fn empty_sequence_contributes_nothing() {
    assert_eq!(render_to_string(&Value::Sequence(vec![]), 9), "");
}

#[test]
fn empty_inner_frame_leaves_outer_separators_alone() {
    let value = Value::Sequence(vec![Value::Sequence(vec![]), scalar("a")]);
    assert_eq!(render_to_string(&value, 3), "\na  ");
}

#[test]
fn sequence_elements_share_their_depth() {
    let value = Value::Sequence(vec![scalar("a"), scalar("b")]);
    assert_eq!(render_to_string(&value, 3), "a  \nb  ");
}

#[test]
fn mapping_keys_and_values_align() {
    let value = Value::Mapping(vec![
        (scalar("k"), scalar("v")),
        (scalar("K"), scalar("V")),
    ]);
    assert_eq!(render_to_string(&value, 2), "k v \nK V ");
}

#[test]
fn mapping_value_frames_indent_their_later_items() {
    let inner = Value::Sequence(vec![scalar("1"), scalar("2")]);
    let value = Value::Mapping(vec![(scalar("k"), inner)]);
    assert_eq!(render_to_string(&value, 3), "k  1  \n   2  ");
}

#[test]
fn serializer_accumulates_values() {
    let mut ser = Serializer::new(4);
    ser.serialize_value(&scalar("ab"));
    ser.serialize_value(&scalar("cd"));
    assert_eq!(ser.into_output(), "ab  cd  ");
}

#[test]
fn report_has_label_line_and_trailing_blank_line() {
    let report = render_report("Name", &scalar("v"), 3);
    assert_eq!(report, "Name:\nv  \n\n");
}
