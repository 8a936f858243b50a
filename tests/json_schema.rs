use mlb_jsonl_parser::{JsonType, ToRegex};

#[test]
fn json_array_to_regex() {
    let array = JsonType::array(JsonType::integer());
    assert_eq!(array.to_regex(), r"\[(([1-9]\d+)(, ([1-9]\d+))*)?\]");
}

#[test]
fn boolean_options_regex() {
    assert_eq!(JsonType::boolean().to_regex(), "(true|false)");
    assert_eq!(JsonType::boolean_with_options(vec![false]).to_regex(), "(false)");
}

#[test]
fn integer_regexes() {
    assert_eq!(JsonType::integer_max_digits(3).to_regex(), r"([1-9]\d{0,2})");
    assert_eq!(JsonType::integer_max_digits(12).to_regex(), r"([1-9]\d{0,11})");
    assert_eq!(JsonType::integer_with_options(vec![9, 10]).to_regex(), "(9|10)");
}

#[test]
fn string_regexes() {
    assert_eq!(JsonType::string().to_regex(), "\"([^\"]*)\"");
    assert_eq!(JsonType::string_with_regex("a|b").to_regex(), "\"(a|b)\"");
}

#[test]
fn object_and_union_regexes() {
    let object = JsonType::object(vec![
        JsonType::key_value("a", JsonType::integer_with_options(vec![1])),
        JsonType::key_value("b", JsonType::boolean_with_options(vec![true])),
    ]);
    assert_eq!(object.to_regex(), r#"\{ "a": (1), "b": (true) \}"#);
    let union = JsonType::union(vec![JsonType::string_with_regex("x"), JsonType::integer_with_options(vec![2])]);
    assert_eq!(union.to_regex(), r#"(("(x)")|((2)))"#);
    assert_eq!(JsonType::object(vec![]).to_regex(), r"\{  \}");
}
