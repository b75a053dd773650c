use recipe_jsonld::{
    decode_block, extract_recipe, find_blocks, find_ld_json_blocks, find_recipe, parse_json,
    recipe_in_block, recipe_in_json, recipe_in_script, DecodeError, Kind, Recipe, RecipeScript,
    SelectorRefused,
};

fn named(context: &str, kind: &str, name: &str) -> Recipe {
    Recipe {
        context: Some(String::from(context)),
        kind: Some(Kind::Text(String::from(kind))),
        cook_time: None,
        date_published: None,
        description: None,
        image: None,
        recipe_ingredient: None,
        name: Some(String::from(name)),
        recipe_instructions: None,
        recipe_yield: None,
    }
}

fn recipe(name: &str) -> Recipe {
    named("https://schema.org", "Recipe", name)
}

fn block(kind: &str, name: &str) -> String {
    format!("{{\"@context\": \"https://schema.org\", \"@type\": \"{}\", \"name\": \"{}\"}}", kind, name)
}

fn page(blocks: &[&str]) -> String {
    let mut markup = String::from("<!DOCTYPE html><html><head><title>Soup</title>");
    for text in blocks {
        markup.push_str("<script type=\"application/ld+json\">");
        markup.push_str(text);
        markup.push_str("</script>");
    }
    markup.push_str("</head><body><h1>Soup</h1></body></html>");
    markup
}

#[test]
fn a_single_object_that_is_a_recipe_is_chosen() {
    assert_eq!(
        recipe_in_script(RecipeScript::JSONObject(recipe("Soup"))),
        Some(recipe("Soup"))
    );
    assert_eq!(
        recipe_in_script(RecipeScript::JSONObject(named("http://schema.org", "Recipe", "Soup"))),
        Some(named("http://schema.org", "Recipe", "Soup"))
    );
}

#[test]
fn a_single_object_that_is_no_recipe_is_not_chosen() {
    assert_eq!(
        recipe_in_script(RecipeScript::JSONObject(named(
            "https://schema.org",
            "BreadcrumbList",
            "Crumbs"
        ))),
        None
    );
    assert_eq!(
        recipe_in_script(RecipeScript::JSONObject(named("https://example.org", "Recipe", "Soup"))),
        None
    );
}

#[test]
fn the_second_object_of_an_array_is_chosen_when_the_first_is_no_recipe() {
    let text = format!("[{}, {}]", block("BreadcrumbList", "Crumbs"), block("Recipe", "Soup"));
    assert_eq!(recipe_in_block(&text), Some(recipe("Soup")));
    assert_eq!(recipe_in_json(&parse_json(&text).unwrap()), Some(recipe("Soup")));
}

#[test]
fn the_first_recipe_of_an_array_is_chosen() {
    assert_eq!(
        recipe_in_script(RecipeScript::JSONArray(vec![
            named("https://schema.org", "Organization", "Kitchen"),
            recipe("Soup"),
            recipe("Stew"),
            named("https://schema.org", "WebSite", "Site"),
        ])),
        Some(recipe("Soup"))
    );
    assert_eq!(
        recipe_in_script(RecipeScript::JSONArray(vec![recipe("Stew"), recipe("Soup")])),
        Some(recipe("Stew"))
    );
    assert_eq!(
        recipe_in_script(RecipeScript::JSONArray(vec![
            named("https://schema.org", "Organization", "Kitchen"),
            named("https://schema.org", "WebSite", "Site"),
            recipe("Soup"),
        ])),
        Some(recipe("Soup"))
    );
}

#[test]
fn an_array_without_a_recipe_has_none() {
    assert_eq!(recipe_in_script(RecipeScript::JSONArray(vec![])), None);
    assert_eq!(
        recipe_in_script(RecipeScript::JSONArray(vec![
            named("https://schema.org", "Organization", "Kitchen"),
            named("https://schema.org", "WebSite", "Site"),
        ])),
        None
    );
}

#[test]
fn a_block_decodes_or_says_why_not() {
    assert_eq!(
        decode_block(&block("Recipe", "Soup")),
        Ok(RecipeScript::JSONObject(recipe("Soup")))
    );
    assert_eq!(decode_block("{\"@type\": \"Recipe\""), Err(DecodeError::Syntax));
    assert_eq!(decode_block(""), Err(DecodeError::Syntax));
    assert_eq!(decode_block("{\"@type\": 5}"), Err(DecodeError::Shape));
    assert_eq!(decode_block("\"Recipe\""), Err(DecodeError::Shape));
}

#[test]
fn a_block_that_does_not_decode_has_no_recipe() {
    assert_eq!(recipe_in_block("{\"@type\": \"Recipe\""), None);
    assert_eq!(recipe_in_block("{\"@context\": \"https://schema.org\", \"@type\": \"Recipe\", \"name\": 5}"), None);
    assert_eq!(recipe_in_json(&parse_json("5").unwrap()), None);
}

#[test]
fn one_item_that_does_not_fit_spoils_the_whole_array() {
    let text = format!("[{}, {{\"name\": 5}}]", block("Recipe", "Soup"));
    assert_eq!(recipe_in_block(&text), None);
}

#[test]
fn no_blocks_give_no_recipe() {
    assert_eq!(extract_recipe(&vec![]), None);
}

#[test]
fn the_only_block_with_a_recipe_is_chosen_wherever_it_stands() {
    let others = [
        String::from("{ not json"),
        block("BreadcrumbList", "Crumbs"),
        String::from("[1, 2, 3]"),
        format!("[{}]", block("Organization", "Kitchen")),
        String::from(""),
    ];
    for k in 0..=others.len() {
        let mut blocks: Vec<String> = others.to_vec();
        blocks.insert(k, block("Recipe", "Soup"));
        assert_eq!(extract_recipe(&blocks), Some(recipe("Soup")));
    }
}

#[test]
fn the_first_block_with_a_recipe_is_chosen() {
    let blocks = vec![
        block("WebSite", "Site"),
        String::from("{\"@type\": \"Recipe\","),
        block("Recipe", "Soup"),
        block("Recipe", "Stew"),
    ];
    assert_eq!(extract_recipe(&blocks), Some(recipe("Soup")));
}

#[test]
fn a_later_block_is_tried_after_an_array_without_a_recipe() {
    let blocks = vec![
        format!("[{}, {}]", block("WebSite", "Site"), block("Organization", "Kitchen")),
        format!("[{}, {}]", block("BreadcrumbList", "Crumbs"), block("Recipe", "Soup")),
    ];
    assert_eq!(extract_recipe(&blocks), Some(recipe("Soup")));
}

#[test]
fn an_earlier_array_wins_over_a_later_block() {
    let blocks = vec![
        format!("[{}, {}]", block("WebSite", "Site"), block("Recipe", "Stew")),
        block("Recipe", "Soup"),
    ];
    assert_eq!(extract_recipe(&blocks), Some(recipe("Stew")));
}

#[test]
fn blocks_without_a_recipe_give_none() {
    let blocks = vec![
        block("WebSite", "Site"),
        String::from("oops"),
        String::from("{\"@context\": \"https://schema.org\"}"),
        String::from("{\"@type\": \"Recipe\"}"),
        String::from("{\"@context\": \"https://schema.org\", \"@type\": [\"Article\"]}"),
    ];
    assert_eq!(extract_recipe(&blocks), None);
}

#[test]
fn a_block_that_is_not_json_does_not_stop_the_scan() {
    let blocks = vec![String::from("{\"@type\": "), block("Recipe", "Soup")];
    assert_eq!(extract_recipe(&blocks), Some(recipe("Soup")));
    let blocks = vec![String::from("<b>not json</b>"), String::from("]"), block("Recipe", "Soup")];
    assert_eq!(extract_recipe(&blocks), Some(recipe("Soup")));
}

#[test]
fn a_page_without_script_elements_has_no_blocks() {
    assert_eq!(find_ld_json_blocks("<html><body><p>Soup</p></body></html>"), Ok(vec![]));
    assert_eq!(find_ld_json_blocks(""), Ok(vec![]));
    assert_eq!(find_ld_json_blocks("plain text, no markup"), Ok(vec![]));
}

#[test]
fn a_page_without_script_elements_has_no_recipe() {
    assert_eq!(find_recipe("<html><body><p>Soup</p></body></html>"), Ok(None));
    assert_eq!(find_recipe(""), Ok(None));
}

#[test]
fn only_json_ld_script_elements_are_blocks() {
    let markup = "<html><head>\
        <script>var recipe = {\"@type\": \"Recipe\"};</script>\
        <script type=\"text/javascript\">window.x = 1;</script>\
        <script type=\"application/json\">{\"a\": 1}</script>\
        <script type=\"application/ld+json\">{\"a\": 2}</script>\
        <style type=\"application/ld+json\">{\"a\": 3}</style>\
        </head><body><div type=\"application/ld+json\">{\"a\": 4}</div></body></html>";
    assert_eq!(find_ld_json_blocks(markup), Ok(vec![String::from("{\"a\": 2}")]));
}

#[test]
fn blocks_come_in_the_order_of_the_page() {
    let markup = "<html><head><script type=\"application/ld+json\">first</script></head>\
        <body><script type=\"application/ld+json\">second</script><div><p>\
        <script type=\"application/ld+json\">third</script></p></div>\
        <script type=\"application/ld+json\"></script>\
        <script type=\"application/ld+json\">fifth</script></body></html>";
    assert_eq!(
        find_ld_json_blocks(markup),
        Ok(vec![
            String::from("first"),
            String::from("second"),
            String::from("third"),
            String::from(""),
            String::from("fifth"),
        ])
    );
}

#[test]
fn the_text_of_a_block_is_taken_as_it_stands() {
    let text = "\n  {\"url\": \"https://example.org/?a=1&b=2\", \"note\": \"1 < 2 > 0 &amp; <b>bold</b>\"}\n";
    let markup = page(&[text]);
    assert_eq!(find_ld_json_blocks(&markup), Ok(vec![String::from(text)]));
}

#[test]
fn the_recipe_of_a_page_is_found() {
    let markup = page(&[&block("Recipe", "Soup")]);
    assert_eq!(find_recipe(&markup), Ok(Some(recipe("Soup"))));
}

#[test]
fn the_recipe_of_a_page_is_found_among_other_blocks() {
    let crumbs = block("BreadcrumbList", "Crumbs");
    let both = format!("[{}, {}]", block("Organization", "Kitchen"), block("Recipe", "Soup"));
    let stew = block("Recipe", "Stew");
    let markup = page(&[&crumbs, "{ broken", &both, &stew]);
    assert_eq!(find_recipe(&markup), Ok(Some(recipe("Soup"))));
}

#[test]
fn a_page_whose_blocks_hold_no_recipe_has_none() {
    let crumbs = block("BreadcrumbList", "Crumbs");
    let markup = page(&[&crumbs, "{ broken"]);
    assert_eq!(find_recipe(&markup), Ok(None));
}

#[test]
fn an_ampersand_in_a_block_reaches_the_recipe_unchanged() {
    let text = "{\"@context\": \"http://schema.org\", \"@type\": \"Recipe\", \"name\": \"Fish & Chips\"}";
    let markup = page(&[text]);
    assert_eq!(
        find_recipe(&markup),
        Ok(Some(named("http://schema.org", "Recipe", "Fish & Chips")))
    );
}

#[test]
fn a_selector_chooses_the_elements_whose_text_is_taken() {
    let markup = "<html><body><p class=\"a\">one</p><div><p>two <b>and</b> a half</p></div>\
        <span>three</span></body></html>";
    assert_eq!(
        find_blocks(markup, "p"),
        Ok(vec![String::from("one"), String::from("two and a half")])
    );
    assert_eq!(find_blocks(markup, "p.a, span"), Ok(vec![String::from("one"), String::from("three")]));
    assert_eq!(find_blocks(markup, "table"), Ok(vec![]));
}

#[test]
fn a_selector_that_is_not_well_formed_is_refused() {
    assert_eq!(find_blocks("<p>one</p>", "script["), Err(SelectorRefused));
    assert_eq!(find_blocks("<p>one</p>", ""), Err(SelectorRefused));
    assert_eq!(find_blocks("", "p >"), Err(SelectorRefused));
}
