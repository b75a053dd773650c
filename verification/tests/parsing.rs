use recipe_jsonld::{parse_json, DecodeError, Json, JsonNumber};

fn text(value: &str) -> Json {
    Json::Text(String::from(value))
}

fn unsigned(value: u64) -> Json {
    Json::Number(JsonNumber::Unsigned(value))
}

#[test]
fn null_and_booleans_are_read() {
    assert_eq!(parse_json("null"), Ok(Json::Null));
    assert_eq!(parse_json("true"), Ok(Json::Bool(true)));
    assert_eq!(parse_json(" false "), Ok(Json::Bool(false)));
}

#[test]
fn strings_are_read_with_their_escapes_resolved() {
    assert_eq!(parse_json("\"4 servings\""), Ok(text("4 servings")));
    assert_eq!(parse_json("\"\""), Ok(text("")));
    assert_eq!(parse_json("\"a\\\"b\\n\\u00e9\""), Ok(text("a\"b\n\u{e9}")));
    assert_eq!(parse_json("\"true\""), Ok(text("true")));
}

#[test]
fn non_negative_integers_are_unsigned() {
    assert_eq!(parse_json("0"), Ok(unsigned(0)));
    assert_eq!(parse_json("4"), Ok(unsigned(4)));
    assert_eq!(parse_json("255"), Ok(unsigned(255)));
    assert_eq!(parse_json("18446744073709551615"), Ok(unsigned(u64::MAX)));
}

#[test]
fn negative_integers_are_signed() {
    assert_eq!(parse_json("-3"), Ok(Json::Number(JsonNumber::Signed(-3))));
    assert_eq!(
        parse_json("-9223372036854775808"),
        Ok(Json::Number(JsonNumber::Signed(i64::MIN)))
    );
}

#[test]
fn other_numbers_keep_their_decimal_text() {
    assert_eq!(parse_json("1.5"), Ok(Json::Number(JsonNumber::Real(String::from("1.5")))));
    assert_eq!(parse_json("4.0"), Ok(Json::Number(JsonNumber::Real(String::from("4.0")))));
    assert_eq!(parse_json("-0"), Ok(Json::Number(JsonNumber::Real(String::from("-0.0")))));
    assert_eq!(parse_json("25e-1"), Ok(Json::Number(JsonNumber::Real(String::from("2.5")))));
}

#[test]
fn an_integer_too_large_for_sixty_four_bits_is_no_integer() {
    match parse_json("18446744073709551616") {
        Ok(Json::Number(JsonNumber::Real(text))) => assert!(text.contains('e')),
        other => panic!("{:?}", other),
    }
}

#[test]
fn arrays_keep_their_items_in_order() {
    assert_eq!(parse_json("[]"), Ok(Json::Array(vec![])));
    assert_eq!(parse_json("[4, 6]"), Ok(Json::Array(vec![unsigned(4), unsigned(6)])));
    assert_eq!(
        parse_json("[\"4\", 6, null, [true]]"),
        Ok(Json::Array(vec![
            text("4"),
            unsigned(6),
            Json::Null,
            Json::Array(vec![Json::Bool(true)]),
        ]))
    );
}

#[test]
fn objects_hold_each_key_with_its_value() {
    assert_eq!(parse_json("{}"), Ok(Json::Object(vec![])));
    assert_eq!(
        parse_json("{\"@type\": \"Recipe\"}"),
        Ok(Json::Object(vec![(String::from("@type"), text("Recipe"))]))
    );
    assert_eq!(
        parse_json("{\"a\": {\"b\": [1]}}"),
        Ok(Json::Object(vec![(
            String::from("a"),
            Json::Object(vec![(String::from("b"), Json::Array(vec![unsigned(1)]))]),
        )]))
    );
}

#[test]
fn members_come_out_as_the_map_orders_them() {
    assert_eq!(
        parse_json("{\"name\": \"Soup\", \"@type\": \"Recipe\", \"image\": null}"),
        Ok(Json::Object(vec![
            (String::from("@type"), text("Recipe")),
            (String::from("image"), Json::Null),
            (String::from("name"), text("Soup")),
        ]))
    );
}

#[test]
fn a_key_written_twice_is_held_once_with_its_last_value() {
    assert_eq!(
        parse_json("{\"name\": \"Soup\", \"name\": \"Stew\"}"),
        Ok(Json::Object(vec![(String::from("name"), text("Stew"))]))
    );
}

#[test]
fn text_that_is_not_json_is_a_syntax_error() {
    assert_eq!(parse_json(""), Err(DecodeError::Syntax));
    assert_eq!(parse_json("   "), Err(DecodeError::Syntax));
    assert_eq!(parse_json("{"), Err(DecodeError::Syntax));
    assert_eq!(parse_json("[1,]"), Err(DecodeError::Syntax));
    assert_eq!(parse_json("{'a': 1}"), Err(DecodeError::Syntax));
    assert_eq!(parse_json("nul"), Err(DecodeError::Syntax));
    assert_eq!(parse_json("{\"a\": 1} trailing"), Err(DecodeError::Syntax));
    assert_eq!(parse_json("1 2"), Err(DecodeError::Syntax));
    assert_eq!(parse_json("<!-- {\"a\": 1} -->"), Err(DecodeError::Syntax));
}

#[test]
fn nesting_beyond_the_parsers_limit_is_a_syntax_error() {
    let mut text = String::new();
    for _ in 0..200 {
        text.push('[');
    }
    for _ in 0..200 {
        text.push(']');
    }
    assert_eq!(parse_json(&text), Err(DecodeError::Syntax));
}

#[test]
fn a_copy_of_a_value_is_equal_to_it() {
    let json = parse_json("{\"a\": [1, -2, 3.5, \"x\", null, true, {\"b\": []}]}").unwrap();
    assert_eq!(json.copy(), json);
    assert_eq!(json.clone(), json);
    let number = JsonNumber::Real(String::from("3.5"));
    assert_eq!(number.copy(), number);
    assert_eq!(number.clone(), number);
}
