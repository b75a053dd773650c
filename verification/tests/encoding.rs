use recipe_jsonld::encode::{
    encode_image, encode_instruction, encode_instructions, encode_kind, encode_numbers,
    encode_text, encode_texts, encode_yield, push_field,
};
use recipe_jsonld::decode::decode_yield;
use recipe_jsonld::{
    decode_recipe, encode_recipe, parse_json, recipe_in_block, Image, Json, JsonNumber, Kind,
    Recipe, RecipeInstruction, RecipeYield,
};
use serde_json::{Number, Value};

fn json(text: &str) -> Json {
    parse_json(text).unwrap()
}

fn text(value: &str) -> Json {
    Json::Text(String::from(value))
}

fn member(key: &str, value: Json) -> (String, Json) {
    (String::from(key), value)
}

fn value_of(json: &Json) -> Value {
    match json {
        Json::Null => Value::Null,
        Json::Bool(flag) => Value::Bool(*flag),
        Json::Number(JsonNumber::Unsigned(number)) => Value::Number(Number::from(*number)),
        Json::Number(JsonNumber::Signed(number)) => Value::Number(Number::from(*number)),
        Json::Number(JsonNumber::Real(text)) => Value::Number(text.parse().unwrap()),
        Json::Text(text) => Value::String(text.clone()),
        Json::Array(items) => Value::Array(items.iter().map(value_of).collect()),
        Json::Object(members) => {
            let mut map = serde_json::Map::new();
            for (key, value) in members {
                map.insert(key.clone(), value_of(value));
            }
            Value::Object(map)
        }
    }
}

fn empty() -> Recipe {
    Recipe {
        context: None,
        kind: None,
        cook_time: None,
        date_published: None,
        description: None,
        image: None,
        recipe_ingredient: None,
        name: None,
        recipe_instructions: None,
        recipe_yield: None,
    }
}

fn full() -> Recipe {
    Recipe {
        context: Some(String::from("https://schema.org")),
        kind: Some(Kind::TextList(vec![String::from("Recipe"), String::from("NewsArticle")])),
        cook_time: Some(String::from("PT30M")),
        date_published: Some(String::from("2024-05-01")),
        description: Some(String::from("A soup.")),
        image: Some(Image::ImageObject(vec![
            member("url", text("https://example.org/soup.jpg")),
            member("width", Json::Number(JsonNumber::Unsigned(1200))),
        ])),
        recipe_ingredient: Some(vec![String::from("salt"), String::from("water")]),
        name: Some(String::from("Soup")),
        recipe_instructions: Some(vec![RecipeInstruction {
            kind: String::from("HowToStep"),
            text: String::from("Boil."),
        }]),
        recipe_yield: Some(RecipeYield::NumberList(vec![4, 6])),
    }
}

#[test]
fn a_recipe_without_fields_is_written_as_an_empty_object() {
    assert_eq!(encode_recipe(&empty()), Json::Object(vec![]));
}

#[test]
fn every_present_field_is_written_under_its_own_key() {
    assert_eq!(
        encode_recipe(&full()),
        Json::Object(vec![
            member("@context", text("https://schema.org")),
            member("@type", Json::Array(vec![text("Recipe"), text("NewsArticle")])),
            member("cookTime", text("PT30M")),
            member("datePublished", text("2024-05-01")),
            member("description", text("A soup.")),
            member(
                "image",
                Json::Object(vec![
                    member("url", text("https://example.org/soup.jpg")),
                    member("width", Json::Number(JsonNumber::Unsigned(1200))),
                ])
            ),
            member("recipeIngredient", Json::Array(vec![text("salt"), text("water")])),
            member("name", text("Soup")),
            member(
                "recipeInstructions",
                Json::Array(vec![Json::Object(vec![
                    member("@type", text("HowToStep")),
                    member("text", text("Boil.")),
                ])])
            ),
            member(
                "recipeYield",
                Json::Array(vec![
                    Json::Number(JsonNumber::Unsigned(4)),
                    Json::Number(JsonNumber::Unsigned(6)),
                ])
            ),
        ])
    );
}

#[test]
fn an_absent_field_is_left_out() {
    let recipe = Recipe {
        context: Some(String::from("http://schema.org")),
        name: Some(String::from("Soup")),
        ..empty()
    };
    assert_eq!(
        encode_recipe(&recipe),
        Json::Object(vec![
            member("@context", text("http://schema.org")),
            member("name", text("Soup")),
        ])
    );
}

#[test]
fn what_is_written_is_read_back() {
    assert_eq!(decode_recipe(&encode_recipe(&full())), Some(full()));
    assert_eq!(decode_recipe(&encode_recipe(&empty())), Some(empty()));
    for recipe_yield in [
        RecipeYield::Text(String::from("4 servings")),
        RecipeYield::Number(4),
        RecipeYield::Number(255),
        RecipeYield::NumberList(vec![]),
        RecipeYield::NumberList(vec![0, 255]),
        RecipeYield::TextList(vec![String::from("4"), String::from("6 servings")]),
    ] {
        let written = encode_yield(&recipe_yield);
        assert_eq!(decode_yield(&written), Some(recipe_yield));
    }
}

#[test]
fn an_empty_list_of_texts_is_read_back_as_an_empty_list_of_numbers() {
    let written = encode_yield(&RecipeYield::TextList(vec![]));
    assert_eq!(written, Json::Array(vec![]));
    assert_eq!(decode_yield(&written), Some(RecipeYield::NumberList(vec![])));
}

#[test]
fn reading_then_writing_keeps_present_fields_and_drops_the_rest() {
    let source = json(
        "{\"@context\": \"https://schema.org\", \"@type\": \"Recipe\", \"name\": \"Soup\", \"cookTime\": null, \"recipeYield\": \"4 servings\", \"image\": {\"url\": \"https://example.org/soup.jpg\"}, \"author\": {\"name\": \"Cook\"}, \"recipeInstructions\": [{\"@type\": \"HowToStep\", \"name\": \"First\", \"text\": \"Boil.\"}]}",
    );
    let recipe = decode_recipe(&source).unwrap();
    let written = encode_recipe(&recipe);
    assert_eq!(
        written,
        Json::Object(vec![
            member("@context", text("https://schema.org")),
            member("@type", text("Recipe")),
            member("image", Json::Object(vec![member("url", text("https://example.org/soup.jpg"))])),
            member("name", text("Soup")),
            member(
                "recipeInstructions",
                Json::Array(vec![Json::Object(vec![
                    member("@type", text("HowToStep")),
                    member("text", text("Boil.")),
                ])])
            ),
            member("recipeYield", text("4 servings")),
        ])
    );
    assert_eq!(decode_recipe(&written), Some(recipe));
}

#[test]
fn each_shape_is_written_as_it_is_read() {
    assert_eq!(encode_text(&String::from("PT30M")), text("PT30M"));
    assert_eq!(encode_texts(&vec![]), Json::Array(vec![]));
    assert_eq!(
        encode_texts(&vec![String::from("salt"), String::from("water")]),
        json("[\"salt\", \"water\"]")
    );
    assert_eq!(encode_numbers(&vec![4, 6]), json("[4, 6]"));
    assert_eq!(encode_kind(&Kind::Text(String::from("Recipe"))), json("\"Recipe\""));
    assert_eq!(
        encode_kind(&Kind::TextList(vec![String::from("Recipe")])),
        json("[\"Recipe\"]")
    );
    assert_eq!(
        encode_image(&Image::URL(String::from("https://example.org/soup.jpg"))),
        json("\"https://example.org/soup.jpg\"")
    );
    assert_eq!(
        encode_image(&Image::ImageObject(vec![member("height", Json::Number(JsonNumber::Unsigned(800)))])),
        json("{\"height\": 800}")
    );
    let step = RecipeInstruction { kind: String::from("HowToStep"), text: String::from("Boil.") };
    assert_eq!(encode_instruction(&step), json("{\"@type\": \"HowToStep\", \"text\": \"Boil.\"}"));
    assert_eq!(
        encode_instructions(&vec![step]),
        json("[{\"@type\": \"HowToStep\", \"text\": \"Boil.\"}]")
    );
    assert_eq!(encode_yield(&RecipeYield::Number(4)), json("4"));
    assert_eq!(encode_yield(&RecipeYield::Text(String::from("4"))), json("\"4\""));
}

#[test]
fn a_field_is_pushed_only_where_there_is_a_value() {
    let mut members = vec![member("name", text("Soup"))];
    push_field(&mut members, "cookTime", None);
    assert_eq!(members, vec![member("name", text("Soup"))]);
    push_field(&mut members, "cookTime", Some(text("PT30M")));
    assert_eq!(members, vec![member("name", text("Soup")), member("cookTime", text("PT30M"))]);
}

#[test]
fn the_written_text_holds_the_present_fields_under_their_keys() {
    let source = "{\"name\": \"Soup\", \"@type\": \"Recipe\", \"cookTime\": null, \"recipeYield\": [4, 6], \"@context\": \"https://schema.org\", \"publisher\": \"Kitchen\"}";
    let recipe = recipe_in_block(source).unwrap();
    let text = serde_json::to_string(&value_of(&encode_recipe(&recipe))).unwrap();
    assert_eq!(
        text,
        "{\"@context\":\"https://schema.org\",\"@type\":\"Recipe\",\"name\":\"Soup\",\"recipeYield\":[4,6]}"
    );
    assert_eq!(recipe_in_block(&text), Some(recipe));
}

#[test]
fn the_written_text_of_a_full_recipe_is_read_back() {
    let text = serde_json::to_string_pretty(&value_of(&encode_recipe(&full()))).unwrap();
    for key in [
        "\"@context\":",
        "\"@type\":",
        "\"cookTime\":",
        "\"datePublished\":",
        "\"description\":",
        "\"image\":",
        "\"recipeIngredient\":",
        "\"name\":",
        "\"recipeInstructions\":",
        "\"recipeYield\":",
    ] {
        assert!(text.contains(key));
    }
    assert_eq!(recipe_in_block(&text), Some(full()));
}

#[test]
fn numbers_of_an_image_keep_their_text() {
    let source = json("{\"image\": {\"ratio\": 1.5, \"shift\": -3, \"width\": 1200}}");
    let recipe = decode_recipe(&source).unwrap();
    let written = encode_recipe(&recipe);
    assert_eq!(written, source);
    assert_eq!(
        serde_json::to_string(&value_of(&written)).unwrap(),
        "{\"image\":{\"ratio\":1.5,\"shift\":-3,\"width\":1200}}"
    );
}
