//! Writing a recipe and reading it again.

use crate::decode::{
    each, find, is_field_key, lemma_find_push, Found, CONTEXT_KEY, COOK_TIME_KEY,
    DATE_PUBLISHED_KEY, DESCRIPTION_KEY, IMAGE_KEY, NAME_KEY, RECIPE_INGREDIENT_KEY,
    RECIPE_INSTRUCTIONS_KEY, RECIPE_YIELD_KEY, TEXT_KEY, TYPE_KEY,
};
use crate::encode::{instructions_json, numbers_json, texts_json, with_field};
use crate::json::{JsonView, Members};
use crate::types::{ImageView, KindView, RecipeInstructionView, RecipeView, RecipeYieldView};
use vstd::prelude::*;

verus! {

/// What a key finds where the field was written under it, or was not.
pub open spec fn written(value: Option<JsonView>) -> Found {
    match value {
        Some(value) => Found::Once(value),
        None => Found::Absent,
    }
}

/// The keys of the fields differ from one another, and so do the two keys of
/// an instruction.
pub proof fn lemma_keys_differ()
    ensures
        CONTEXT_KEY@ != TYPE_KEY@,
        CONTEXT_KEY@ != COOK_TIME_KEY@,
        CONTEXT_KEY@ != DATE_PUBLISHED_KEY@,
        CONTEXT_KEY@ != DESCRIPTION_KEY@,
        CONTEXT_KEY@ != IMAGE_KEY@,
        CONTEXT_KEY@ != RECIPE_INGREDIENT_KEY@,
        CONTEXT_KEY@ != NAME_KEY@,
        CONTEXT_KEY@ != RECIPE_INSTRUCTIONS_KEY@,
        CONTEXT_KEY@ != RECIPE_YIELD_KEY@,
        TYPE_KEY@ != COOK_TIME_KEY@,
        TYPE_KEY@ != DATE_PUBLISHED_KEY@,
        TYPE_KEY@ != DESCRIPTION_KEY@,
        TYPE_KEY@ != IMAGE_KEY@,
        TYPE_KEY@ != RECIPE_INGREDIENT_KEY@,
        TYPE_KEY@ != NAME_KEY@,
        TYPE_KEY@ != RECIPE_INSTRUCTIONS_KEY@,
        TYPE_KEY@ != RECIPE_YIELD_KEY@,
        COOK_TIME_KEY@ != DATE_PUBLISHED_KEY@,
        COOK_TIME_KEY@ != DESCRIPTION_KEY@,
        COOK_TIME_KEY@ != IMAGE_KEY@,
        COOK_TIME_KEY@ != RECIPE_INGREDIENT_KEY@,
        COOK_TIME_KEY@ != NAME_KEY@,
        COOK_TIME_KEY@ != RECIPE_INSTRUCTIONS_KEY@,
        COOK_TIME_KEY@ != RECIPE_YIELD_KEY@,
        DATE_PUBLISHED_KEY@ != DESCRIPTION_KEY@,
        DATE_PUBLISHED_KEY@ != IMAGE_KEY@,
        DATE_PUBLISHED_KEY@ != RECIPE_INGREDIENT_KEY@,
        DATE_PUBLISHED_KEY@ != NAME_KEY@,
        DATE_PUBLISHED_KEY@ != RECIPE_INSTRUCTIONS_KEY@,
        DATE_PUBLISHED_KEY@ != RECIPE_YIELD_KEY@,
        DESCRIPTION_KEY@ != IMAGE_KEY@,
        DESCRIPTION_KEY@ != RECIPE_INGREDIENT_KEY@,
        DESCRIPTION_KEY@ != NAME_KEY@,
        DESCRIPTION_KEY@ != RECIPE_INSTRUCTIONS_KEY@,
        DESCRIPTION_KEY@ != RECIPE_YIELD_KEY@,
        IMAGE_KEY@ != RECIPE_INGREDIENT_KEY@,
        IMAGE_KEY@ != NAME_KEY@,
        IMAGE_KEY@ != RECIPE_INSTRUCTIONS_KEY@,
        IMAGE_KEY@ != RECIPE_YIELD_KEY@,
        RECIPE_INGREDIENT_KEY@ != NAME_KEY@,
        RECIPE_INGREDIENT_KEY@ != RECIPE_INSTRUCTIONS_KEY@,
        RECIPE_INGREDIENT_KEY@ != RECIPE_YIELD_KEY@,
        NAME_KEY@ != RECIPE_INSTRUCTIONS_KEY@,
        NAME_KEY@ != RECIPE_YIELD_KEY@,
        RECIPE_INSTRUCTIONS_KEY@ != RECIPE_YIELD_KEY@,
        TYPE_KEY@ != TEXT_KEY@,
{
    reveal_strlit("@context");
    reveal_strlit("@type");
    reveal_strlit("cookTime");
    reveal_strlit("datePublished");
    reveal_strlit("description");
    reveal_strlit("image");
    reveal_strlit("recipeIngredient");
    reveal_strlit("name");
    reveal_strlit("recipeInstructions");
    reveal_strlit("recipeYield");
    reveal_strlit("text");
    assert(CONTEXT_KEY@[0] == '@');
    assert(TYPE_KEY@[0] == '@');
    assert(COOK_TIME_KEY@[0] == 'c');
    assert(DATE_PUBLISHED_KEY@[0] == 'd');
    assert(DESCRIPTION_KEY@[0] == 'd');
    assert(IMAGE_KEY@[0] == 'i');
    assert(RECIPE_INGREDIENT_KEY@[0] == 'r');
    assert(NAME_KEY@[0] == 'n');
    assert(RECIPE_INSTRUCTIONS_KEY@[0] == 'r');
    assert(RECIPE_YIELD_KEY@[0] == 'r');
    assert(TEXT_KEY@[0] == 't');
    assert(CONTEXT_KEY@[1] == 'c');
    assert(TYPE_KEY@[1] == 't');
    assert(DATE_PUBLISHED_KEY@[1] == 'a');
    assert(DESCRIPTION_KEY@[1] == 'e');
    assert(RECIPE_INGREDIENT_KEY@.len() == 16);
    assert(RECIPE_INSTRUCTIONS_KEY@.len() == 18);
    assert(RECIPE_YIELD_KEY@.len() == 11);
}

/// What any key finds after a field was written, or left out.
pub proof fn lemma_find_with_field(
    members: Members,
    field_key: Seq<char>,
    value: Option<JsonView>,
)
    ensures
        forall|key: Seq<char>| #[trigger]
            find(with_field(members, field_key, value), key) == if value is Some && field_key
                == key {
                match find(members, key) {
                    Found::Absent => Found::Once(value.unwrap()),
                    _ => Found::Repeated,
                }
            } else {
                find(members, key)
            },
        forall|i: int|
            0 <= i < with_field(members, field_key, value).len() ==> {
                ||| i < members.len() && with_field(members, field_key, value)[i] == members[i]
                ||| (#[trigger] with_field(members, field_key, value)[i]).0 == field_key
            },
{
    assert forall|key: Seq<char>| #[trigger]
        find(with_field(members, field_key, value), key) == if value is Some && field_key == key {
            match find(members, key) {
                Found::Absent => Found::Once(value.unwrap()),
                _ => Found::Repeated,
            }
        } else {
            find(members, key)
        } by {
        if value is Some {
            lemma_find_push(members, (field_key, value.unwrap()), key);
        }
    }
}

/// A recipe is written with a member for each field that is present, under
/// the field's own key and holding the field's value, and with no member
/// for a field that is absent; it has no member under any other key.
pub proof fn lemma_written_fields(recipe: RecipeView)
    ensures
        find(recipe.encoded_members(), CONTEXT_KEY@) == written(recipe.field_values()[0]),
        find(recipe.encoded_members(), TYPE_KEY@) == written(recipe.field_values()[1]),
        find(recipe.encoded_members(), COOK_TIME_KEY@) == written(recipe.field_values()[2]),
        find(recipe.encoded_members(), DATE_PUBLISHED_KEY@) == written(recipe.field_values()[3]),
        find(recipe.encoded_members(), DESCRIPTION_KEY@) == written(recipe.field_values()[4]),
        find(recipe.encoded_members(), IMAGE_KEY@) == written(recipe.field_values()[5]),
        find(recipe.encoded_members(), RECIPE_INGREDIENT_KEY@) == written(
            recipe.field_values()[6],
        ),
        find(recipe.encoded_members(), NAME_KEY@) == written(recipe.field_values()[7]),
        find(recipe.encoded_members(), RECIPE_INSTRUCTIONS_KEY@) == written(
            recipe.field_values()[8],
        ),
        find(recipe.encoded_members(), RECIPE_YIELD_KEY@) == written(recipe.field_values()[9]),
        forall|i: int|
            0 <= i < recipe.encoded_members().len() ==> is_field_key(
                (#[trigger] recipe.encoded_members()[i]).0,
            ),
{
    lemma_keys_differ();
    let values = recipe.field_values();
    let m0 = Members::empty();
    let m1 = with_field(m0, CONTEXT_KEY@, values[0]);
    let m2 = with_field(m1, TYPE_KEY@, values[1]);
    let m3 = with_field(m2, COOK_TIME_KEY@, values[2]);
    let m4 = with_field(m3, DATE_PUBLISHED_KEY@, values[3]);
    let m5 = with_field(m4, DESCRIPTION_KEY@, values[4]);
    let m6 = with_field(m5, IMAGE_KEY@, values[5]);
    let m7 = with_field(m6, RECIPE_INGREDIENT_KEY@, values[6]);
    let m8 = with_field(m7, NAME_KEY@, values[7]);
    let m9 = with_field(m8, RECIPE_INSTRUCTIONS_KEY@, values[8]);
    let m10 = with_field(m9, RECIPE_YIELD_KEY@, values[9]);
    assert(m10 == recipe.encoded_members());
    lemma_find_with_field(m0, CONTEXT_KEY@, values[0]);
    lemma_find_with_field(m1, TYPE_KEY@, values[1]);
    lemma_find_with_field(m2, COOK_TIME_KEY@, values[2]);
    lemma_find_with_field(m3, DATE_PUBLISHED_KEY@, values[3]);
    lemma_find_with_field(m4, DESCRIPTION_KEY@, values[4]);
    lemma_find_with_field(m5, IMAGE_KEY@, values[5]);
    lemma_find_with_field(m6, RECIPE_INGREDIENT_KEY@, values[6]);
    lemma_find_with_field(m7, NAME_KEY@, values[7]);
    lemma_find_with_field(m8, RECIPE_INSTRUCTIONS_KEY@, values[8]);
    lemma_find_with_field(m9, RECIPE_YIELD_KEY@, values[9]);
}

/// A list of texts that was written is read as it was.
pub proof fn lemma_texts_read_back(texts: Seq<Seq<char>>)
    ensures
        texts_json(texts).texts() == Some(texts),
{
    let items = texts_json(texts)->Array_0;
    let shapes = Seq::new(items.len(), |i: int| items[i].text());
    assert(each(shapes).unwrap() =~= texts);
}

/// A list of small numbers that was written is read as it was.
pub proof fn lemma_numbers_read_back(numbers: Seq<u8>)
    ensures
        numbers_json(numbers).small_numbers() == Some(numbers),
{
    let items = numbers_json(numbers)->Array_0;
    let shapes = Seq::new(items.len(), |i: int| items[i].small_number());
    assert(each(shapes).unwrap() =~= numbers);
}

/// A type tag that was written is read as it was.
pub proof fn lemma_kind_reads_back(kind: KindView)
    ensures
        kind.encoded().kind() == Some(kind),
{
    if let KindView::TextList(texts) = kind {
        lemma_texts_read_back(texts);
    }
}

/// An image that was written is read as it was.
pub proof fn lemma_image_reads_back(image: ImageView)
    ensures
        image.encoded().image() == Some(image),
{
}

/// An instruction that was written is read as it was.
pub proof fn lemma_instruction_reads_back(instruction: RecipeInstructionView)
    ensures
        instruction.encoded().instruction() == Some(instruction),
{
    lemma_keys_differ();
    let first = (TYPE_KEY@, JsonView::Text(instruction.kind));
    let second = (TEXT_KEY@, JsonView::Text(instruction.text));
    let none = Members::empty();
    assert(instruction.encoded()->Object_0 =~= none.push(first).push(second));
    lemma_find_push(none, first, TYPE_KEY@);
    lemma_find_push(none, first, TEXT_KEY@);
    lemma_find_push(none.push(first), second, TYPE_KEY@);
    lemma_find_push(none.push(first), second, TEXT_KEY@);
}

/// A list of instructions that was written is read as it was.
pub proof fn lemma_instructions_read_back(instructions: Seq<RecipeInstructionView>)
    ensures
        instructions_json(instructions).instructions() == Some(instructions),
{
    let items = instructions_json(instructions)->Array_0;
    let shapes = Seq::new(items.len(), |i: int| items[i].instruction());
    assert forall|i: int| 0 <= i < shapes.len() implies #[trigger] shapes[i] == Some(
        instructions[i],
    ) by {
        lemma_instruction_reads_back(instructions[i]);
    }
    assert(each(shapes).unwrap() =~= instructions);
}

/// A yield that was written is read as it was, unless it is an empty list
/// of texts, which is read as an empty list of numbers.
pub proof fn lemma_yield_reads_back(recipe_yield: RecipeYieldView)
    requires
        recipe_yield.is_readable(),
    ensures
        recipe_yield.encoded().recipe_yield() == Some(recipe_yield),
{
    match recipe_yield {
        RecipeYieldView::Text(_) => {},
        RecipeYieldView::Number(_) => {},
        RecipeYieldView::NumberList(numbers) => {
            lemma_numbers_read_back(numbers);
        },
        RecipeYieldView::TextList(texts) => {
            lemma_texts_read_back(texts);
            let items = texts_json(texts)->Array_0;
            let shapes = Seq::new(items.len(), |i: int| items[i].small_number());
            assert(shapes[0] is None);
        },
    }
}

/// A yield that was read is never an empty list of texts.
pub proof fn lemma_read_yield_is_readable(value: JsonView)
    requires
        value.recipe_yield() is Some,
    ensures
        value.recipe_yield().unwrap().is_readable(),
{
    if let JsonView::Array(items) = value {
        if items.len() == 0 {
            let shapes = Seq::new(items.len(), |i: int| items[i].small_number());
            assert(each(shapes) is Some);
        } else {
            if value.small_numbers() is None {
                assert(value.texts().unwrap().len() == items.len());
            }
        }
    }
}

/// Writing then reading: a recipe that decoding can give is read back from
/// what it is written as, equal in every field.
pub proof fn lemma_written_recipe_reads_back(recipe: RecipeView)
    requires
        recipe.is_readable(),
    ensures
        recipe.encoded().recipe() == Some(recipe),
{
    lemma_written_fields(recipe);
    let members = recipe.encoded_members();
    if let Some(kind) = recipe.kind {
        lemma_kind_reads_back(kind);
    }
    if let Some(image) = recipe.image {
        lemma_image_reads_back(image);
    }
    if let Some(texts) = recipe.recipe_ingredient {
        lemma_texts_read_back(texts);
    }
    if let Some(instructions) = recipe.recipe_instructions {
        lemma_instructions_read_back(instructions);
    }
    if let Some(recipe_yield) = recipe.recipe_yield {
        lemma_yield_reads_back(recipe_yield);
    }
}

/// Every recipe that decoding gives is one that decoding can give back.
pub proof fn lemma_read_recipe_is_readable(value: JsonView)
    requires
        value.recipe() is Some,
    ensures
        value.recipe().unwrap().is_readable(),
{
    let members = value->Object_0;
    let found = find(members, RECIPE_YIELD_KEY@);
    if value.recipe().unwrap().recipe_yield is Some {
        lemma_read_yield_is_readable(found.value());
    }
}

/// Reading, writing and reading again: the recipe decoded from a value,
/// written as JSON, decodes to the same recipe. Every field that was present
/// keeps its value, and every field that was absent stays absent.
pub proof fn lemma_round_trip(value: JsonView)
    requires
        value.recipe() is Some,
    ensures
        value.recipe().unwrap().encoded().recipe() == value.recipe(),
{
    lemma_read_recipe_is_readable(value);
    lemma_written_recipe_reads_back(value.recipe().unwrap());
}

} // verus!
