//! From a recipe back to a JSON value.
//!
//! A recipe is written as an object that holds a member for each field that
//! is present, under the key from which the field was read, and no member
//! for a field that is absent. Decoding what was written gives the recipe
//! back.

use crate::decode::{
    CONTEXT_KEY, COOK_TIME_KEY, DATE_PUBLISHED_KEY, DESCRIPTION_KEY, IMAGE_KEY,
    NAME_KEY, RECIPE_INGREDIENT_KEY, RECIPE_INSTRUCTIONS_KEY, RECIPE_YIELD_KEY, TEXT_KEY, TYPE_KEY,
};
use crate::json::{
    copy_members, lemma_array_view, lemma_object_view, Json, JsonNumber, JsonNumberView, JsonView,
    Members,
};
use crate::types::{
    Image, ImageView, Kind, KindView, Recipe, RecipeInstruction, RecipeInstructionView,
    RecipeView, RecipeYield, RecipeYieldView,
};
use vstd::prelude::*;

verus! {

/// A list of texts as an array of strings.
pub open spec fn texts_json(texts: Seq<Seq<char>>) -> JsonView {
    JsonView::Array(Seq::new(texts.len(), |i: int| JsonView::Text(texts[i])))
}

/// A list of small numbers as an array of numbers.
pub open spec fn numbers_json(numbers: Seq<u8>) -> JsonView {
    JsonView::Array(
        Seq::new(
            numbers.len(),
            |i: int| JsonView::Number(JsonNumberView::Unsigned(numbers[i] as u64)),
        ),
    )
}

impl KindView {
    /// The tag as JSON: a string, or an array of strings.
    pub open spec fn encoded(self) -> JsonView {
        match self {
            KindView::Text(text) => JsonView::Text(text),
            KindView::TextList(texts) => texts_json(texts),
        }
    }
}

impl ImageView {
    /// The image as JSON: a string, or the object with its members as they
    /// are.
    pub open spec fn encoded(self) -> JsonView {
        match self {
            ImageView::URL(address) => JsonView::Text(address),
            ImageView::ImageObject(members) => JsonView::Object(members),
        }
    }
}

impl RecipeInstructionView {
    /// The instruction as JSON: an object of `@type` and `text`.
    pub open spec fn encoded(self) -> JsonView {
        JsonView::Object(
            seq![(TYPE_KEY@, JsonView::Text(self.kind)), (TEXT_KEY@, JsonView::Text(self.text))],
        )
    }
}

/// A list of instructions as an array of objects.
pub open spec fn instructions_json(instructions: Seq<RecipeInstructionView>) -> JsonView {
    JsonView::Array(Seq::new(instructions.len(), |i: int| instructions[i].encoded()))
}

impl RecipeYieldView {
    /// The yield as JSON: a string, a number, or an array of either.
    pub open spec fn encoded(self) -> JsonView {
        match self {
            RecipeYieldView::Text(text) => JsonView::Text(text),
            RecipeYieldView::Number(number) => JsonView::Number(
                JsonNumberView::Unsigned(number as u64),
            ),
            RecipeYieldView::NumberList(numbers) => numbers_json(numbers),
            RecipeYieldView::TextList(texts) => texts_json(texts),
        }
    }

    /// Whether decoding can give this yield. An empty array is read as a
    /// list of numbers, so an empty list of texts is never read.
    pub open spec fn is_readable(self) -> bool {
        !(self matches RecipeYieldView::TextList(texts) && texts.len() == 0)
    }
}

/// The members with one more, under `key`, where there is a value to write.
pub open spec fn with_field(
    members: Members,
    key: Seq<char>,
    value: Option<JsonView>,
) -> Members {
    match value {
        Some(value) => members.push((key, value)),
        None => members,
    }
}

/// A text that may be absent, as the value to write.
pub open spec fn text_field(text: Option<Seq<char>>) -> Option<JsonView> {
    match text {
        Some(text) => Some(JsonView::Text(text)),
        None => None,
    }
}

impl RecipeView {
    /// The value written for each field, absent where the field is.
    pub open spec fn field_values(self) -> Seq<Option<JsonView>> {
        seq![
            text_field(self.context),
            match self.kind {
                Some(kind) => Some(kind.encoded()),
                None => None,
            },
            text_field(self.cook_time),
            text_field(self.date_published),
            text_field(self.description),
            match self.image {
                Some(image) => Some(image.encoded()),
                None => None,
            },
            match self.recipe_ingredient {
                Some(texts) => Some(texts_json(texts)),
                None => None,
            },
            text_field(self.name),
            match self.recipe_instructions {
                Some(instructions) => Some(instructions_json(instructions)),
                None => None,
            },
            match self.recipe_yield {
                Some(recipe_yield) => Some(recipe_yield.encoded()),
                None => None,
            },
        ]
    }

    /// The members of the object that the recipe is written as: one for
    /// each field that is present, in the order of the fields.
    pub open spec fn encoded_members(self) -> Members {
        let values = self.field_values();
        let members = Members::empty();
        let members = with_field(members, CONTEXT_KEY@, values[0]);
        let members = with_field(members, TYPE_KEY@, values[1]);
        let members = with_field(members, COOK_TIME_KEY@, values[2]);
        let members = with_field(members, DATE_PUBLISHED_KEY@, values[3]);
        let members = with_field(members, DESCRIPTION_KEY@, values[4]);
        let members = with_field(members, IMAGE_KEY@, values[5]);
        let members = with_field(members, RECIPE_INGREDIENT_KEY@, values[6]);
        let members = with_field(members, NAME_KEY@, values[7]);
        let members = with_field(members, RECIPE_INSTRUCTIONS_KEY@, values[8]);
        let members = with_field(members, RECIPE_YIELD_KEY@, values[9]);
        members
    }

    /// The recipe as JSON.
    pub open spec fn encoded(self) -> JsonView {
        JsonView::Object(self.encoded_members())
    }

    /// Whether decoding can give this recipe.
    pub open spec fn is_readable(self) -> bool {
        self.recipe_yield matches Some(recipe_yield) ==> recipe_yield.is_readable()
    }
}

/// Writes a text.
pub fn encode_text(text: &String) -> (json: Json)
    ensures
        json@ == JsonView::Text(text@),
{
    Json::Text(text.clone())
}

/// Writes a list of texts.
pub fn encode_texts(texts: &Vec<String>) -> (json: Json)
    ensures
        json@ == texts_json(texts.deep_view()),
{
    let mut items: Vec<Json> = Vec::new();
    let mut i: usize = 0;
    while i < texts.len()
        invariant
            i <= texts.len(),
            items.len() == i,
            forall|k: int| 0 <= k < i ==> (#[trigger] items@[k])@ == JsonView::Text(texts@[k]@),
        decreases texts.len() - i,
    {
        items.push(Json::Text(texts[i].clone()));
        i += 1;
    }
    proof {
        lemma_array_view(items);
        assert(items.deep_view() =~= texts_json(texts.deep_view())->Array_0);
    }
    Json::Array(items)
}

/// Writes a list of small numbers.
pub fn encode_numbers(numbers: &Vec<u8>) -> (json: Json)
    ensures
        json@ == numbers_json(numbers.deep_view()),
{
    let mut items: Vec<Json> = Vec::new();
    let mut i: usize = 0;
    while i < numbers.len()
        invariant
            i <= numbers.len(),
            items.len() == i,
            forall|k: int|
                0 <= k < i ==> (#[trigger] items@[k])@ == JsonView::Number(
                    JsonNumberView::Unsigned(numbers@[k] as u64),
                ),
        decreases numbers.len() - i,
    {
        items.push(Json::Number(JsonNumber::Unsigned(numbers[i] as u64)));
        i += 1;
    }
    proof {
        lemma_array_view(items);
        assert(items.deep_view() =~= numbers_json(numbers.deep_view())->Array_0);
    }
    Json::Array(items)
}

/// Writes a type tag.
pub fn encode_kind(kind: &Kind) -> (json: Json)
    ensures
        json@ == kind@.encoded(),
{
    match kind {
        Kind::Text(text) => Json::Text(text.clone()),
        Kind::TextList(texts) => encode_texts(texts),
    }
}

/// Writes an image.
pub fn encode_image(image: &Image) -> (json: Json)
    ensures
        json@ == image@.encoded(),
{
    match image {
        Image::URL(address) => Json::Text(address.clone()),
        Image::ImageObject(members) => {
            let copied = copy_members(members);
            proof {
                lemma_object_view(copied);
            }
            Json::Object(copied)
        },
    }
}

/// Writes an instruction.
pub fn encode_instruction(instruction: &RecipeInstruction) -> (json: Json)
    ensures
        json@ == instruction@.encoded(),
{
    let mut members: Vec<(String, Json)> = Vec::new();
    members.push((TYPE_KEY.to_owned(), Json::Text(instruction.kind.clone())));
    members.push((TEXT_KEY.to_owned(), Json::Text(instruction.text.clone())));
    proof {
        lemma_object_view(members);
        assert(members.deep_view() =~= instruction@.encoded()->Object_0);
    }
    Json::Object(members)
}

/// Writes a list of instructions.
pub fn encode_instructions(instructions: &Vec<RecipeInstruction>) -> (json: Json)
    ensures
        json@ == instructions_json(instructions.deep_view()),
{
    let mut items: Vec<Json> = Vec::new();
    let mut i: usize = 0;
    while i < instructions.len()
        invariant
            i <= instructions.len(),
            items.len() == i,
            forall|k: int| 0 <= k < i ==> (#[trigger] items@[k])@ == instructions@[k]@.encoded(),
        decreases instructions.len() - i,
    {
        items.push(encode_instruction(&instructions[i]));
        i += 1;
    }
    proof {
        lemma_array_view(items);
        assert(items.deep_view() =~= instructions_json(instructions.deep_view())->Array_0);
    }
    Json::Array(items)
}

/// Writes a yield.
pub fn encode_yield(recipe_yield: &RecipeYield) -> (json: Json)
    ensures
        json@ == recipe_yield@.encoded(),
{
    match recipe_yield {
        RecipeYield::Text(text) => Json::Text(text.clone()),
        RecipeYield::Number(number) => Json::Number(JsonNumber::Unsigned(*number as u64)),
        RecipeYield::NumberList(numbers) => encode_numbers(numbers),
        RecipeYield::TextList(texts) => encode_texts(texts),
    }
}

/// Adds a member under `key` where there is a value to write.
pub fn push_field(members: &mut Vec<(String, Json)>, key: &str, value: Option<Json>)
    ensures
        final(members).deep_view() == with_field(
            old(members).deep_view(),
            key@,
            value.deep_view(),
        ),
{
    if let Some(value) = value {
        members.push((key.to_owned(), value));
        assert(final(members).deep_view() =~= old(members).deep_view().push((key@, value@)));
    }
}

/// Writes a recipe as a JSON object: a member for each field that is
/// present, under the field's own key, and none for a field that is absent.
pub fn encode_recipe(recipe: &Recipe) -> (json: Json)
    ensures
        json@ == recipe@.encoded(),
{
    let mut members: Vec<(String, Json)> = Vec::new();
    assert(members.deep_view() =~= Seq::empty());
    push_field(
        &mut members,
        CONTEXT_KEY,
        match &recipe.context {
            Some(text) => Some(encode_text(text)),
            None => None,
        },
    );
    push_field(
        &mut members,
        TYPE_KEY,
        match &recipe.kind {
            Some(kind) => Some(encode_kind(kind)),
            None => None,
        },
    );
    push_field(
        &mut members,
        COOK_TIME_KEY,
        match &recipe.cook_time {
            Some(text) => Some(encode_text(text)),
            None => None,
        },
    );
    push_field(
        &mut members,
        DATE_PUBLISHED_KEY,
        match &recipe.date_published {
            Some(text) => Some(encode_text(text)),
            None => None,
        },
    );
    push_field(
        &mut members,
        DESCRIPTION_KEY,
        match &recipe.description {
            Some(text) => Some(encode_text(text)),
            None => None,
        },
    );
    push_field(
        &mut members,
        IMAGE_KEY,
        match &recipe.image {
            Some(image) => Some(encode_image(image)),
            None => None,
        },
    );
    push_field(
        &mut members,
        RECIPE_INGREDIENT_KEY,
        match &recipe.recipe_ingredient {
            Some(texts) => Some(encode_texts(texts)),
            None => None,
        },
    );
    push_field(
        &mut members,
        NAME_KEY,
        match &recipe.name {
            Some(text) => Some(encode_text(text)),
            None => None,
        },
    );
    push_field(
        &mut members,
        RECIPE_INSTRUCTIONS_KEY,
        match &recipe.recipe_instructions {
            Some(instructions) => Some(encode_instructions(instructions)),
            None => None,
        },
    );
    push_field(
        &mut members,
        RECIPE_YIELD_KEY,
        match &recipe.recipe_yield {
            Some(recipe_yield) => Some(encode_yield(recipe_yield)),
            None => None,
        },
    );
    proof {
        lemma_object_view(members);
    }
    Json::Object(members)
}

} // verus!
