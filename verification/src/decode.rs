//! From a JSON value to a recipe.
//!
//! A page's markup is loosely typed: a field may hold a string where another
//! page writes a list, a number or an object. Each field takes a fixed set of
//! shapes, tried in a fixed order; a value of any other shape makes the
//! whole object undecodable. What a value decodes to is stated here as
//! functions of the value alone, and the executable decoders are proved to
//! compute them.

use crate::error::DecodeError;
use crate::json::{
    copy_members, lemma_array_view, lemma_object_view, Json, JsonNumber, JsonView, Members,
};
use crate::types::{
    Image, ImageView, Kind, KindView, Recipe, RecipeInstruction, RecipeInstructionView,
    RecipeScript, RecipeScriptView, RecipeView, RecipeYield, RecipeYieldView,
};
use vstd::prelude::*;

verus! {

/// The key of the context.
pub const CONTEXT_KEY: &'static str = "@context";

/// The key of the type tag, of a recipe and of an instruction.
pub const TYPE_KEY: &'static str = "@type";

/// The key of the cooking time.
pub const COOK_TIME_KEY: &'static str = "cookTime";

/// The key of the date of publication.
pub const DATE_PUBLISHED_KEY: &'static str = "datePublished";

/// The key of the description.
pub const DESCRIPTION_KEY: &'static str = "description";

/// The key of the image.
pub const IMAGE_KEY: &'static str = "image";

/// The key of the ingredients.
pub const RECIPE_INGREDIENT_KEY: &'static str = "recipeIngredient";

/// The key of the name.
pub const NAME_KEY: &'static str = "name";

/// The key of the instructions.
pub const RECIPE_INSTRUCTIONS_KEY: &'static str = "recipeInstructions";

/// The key of the yield.
pub const RECIPE_YIELD_KEY: &'static str = "recipeYield";

/// The key of the text of an instruction.
pub const TEXT_KEY: &'static str = "text";

/// What a key finds among the members of an object.
pub enum Found {
    /// No member has the key.
    Absent,
    /// One member has the key, with this value.
    Once(JsonView),
    /// Several members have the key.
    Repeated,
}

impl Found {
    /// The value found, where there is exactly one.
    pub open spec fn value(self) -> JsonView {
        match self {
            Found::Once(value) => value,
            _ => JsonView::Null,
        }
    }

    /// A field that may be left out. `decoded` is what the field's shapes
    /// make of the value found. A key that is absent, or present with null,
    /// gives an absent field; a value that fits gives the field; a value
    /// that does not fit, and a repeated key, give nothing.
    pub open spec fn optional<T>(self, decoded: Option<T>) -> Option<Option<T>> {
        match self {
            Found::Absent => Some(None),
            Found::Once(JsonView::Null) => Some(None),
            Found::Once(_) => match decoded {
                Some(field) => Some(Some(field)),
                None => None,
            },
            Found::Repeated => None,
        }
    }

    /// A field that must be there. Only a single value that fits gives it.
    pub open spec fn required<T>(self, decoded: Option<T>) -> Option<T> {
        match self {
            Found::Once(_) => decoded,
            _ => None,
        }
    }
}

/// What `key` finds among `members`.
pub open spec fn find(members: Members, key: Seq<char>) -> Found
    decreases members.len(),
{
    if members.len() == 0 {
        Found::Absent
    } else {
        let before = find(members.drop_last(), key);
        if members.last().0 == key {
            match before {
                Found::Absent => Found::Once(members.last().1),
                _ => Found::Repeated,
            }
        } else {
            before
        }
    }
}

/// Whether the `i`-th member has the key.
pub open spec fn has_key(members: Members, key: Seq<char>, i: int) -> bool {
    0 <= i < members.len() && members[i].0 == key
}

/// What [`find`] finds, said without going through the members one by one:
/// nothing where no member has the key, the value of the member that has it
/// where there is one such member, and a repetition where there are two.
pub proof fn lemma_find_is_by_count(members: Members, key: Seq<char>)
    ensures
        find(members, key) is Absent <==> forall|i: int| !has_key(members, key, i),
        find(members, key) is Repeated <==> exists|i: int, j: int|
            i != j && has_key(members, key, i) && has_key(members, key, j),
        forall|i: int|
            has_key(members, key, i) && !(find(members, key) is Repeated) ==> find(members, key)
                == Found::Once(members[i].1),
    decreases members.len(),
{
    if members.len() > 0 {
        let before = members.drop_last();
        let last = members.len() - 1;
        lemma_find_is_by_count(before, key);
        assert forall|i: int| has_key(before, key, i) <==> has_key(members, key, i) && i
            != last by {
            if 0 <= i < before.len() {
                assert(before[i] == members[i]);
            }
        }
        if members.last().0 == key {
            assert(has_key(members, key, last));
            if find(before, key) is Absent {
                assert forall|i: int, j: int|
                    i != j && has_key(members, key, i) implies !has_key(members, key, j) by {
                    if i != last {
                        assert(has_key(before, key, i));
                    }
                    if j != last && has_key(members, key, j) {
                        assert(has_key(before, key, j));
                    }
                }
            } else {
                let other = choose|i: int| has_key(before, key, i);
                assert(has_key(members, key, other) && other != last);
            }
        } else {
            assert(!has_key(members, key, last));
            if find(before, key) is Repeated {
                let (i, j) = choose|i: int, j: int|
                    i != j && has_key(before, key, i) && has_key(before, key, j);
                assert(has_key(members, key, i) && has_key(members, key, j));
            } else {
                assert forall|i: int, j: int|
                    i != j && has_key(members, key, i) implies !has_key(members, key, j) by {
                    if has_key(members, key, j) {
                        assert(has_key(before, key, i) && has_key(before, key, j));
                    }
                }
            }
        }
    }
}

/// What a key finds after one more member.
pub proof fn lemma_find_push(
    members: Members,
    member: (Seq<char>, JsonView),
    key: Seq<char>,
)
    ensures
        find(members.push(member), key) == if member.0 == key {
            match find(members, key) {
                Found::Absent => Found::Once(member.1),
                _ => Found::Repeated,
            }
        } else {
            find(members, key)
        },
{
    assert(members.push(member).drop_last() =~= members);
}

/// What every item of a list decodes to, if every one fits.
pub open spec fn each<T>(decoded: Seq<Option<T>>) -> Option<Seq<T>> {
    if forall|i: int| 0 <= i < decoded.len() ==> (#[trigger] decoded[i]) is Some {
        Some(Seq::new(decoded.len(), |i: int| decoded[i].unwrap()))
    } else {
        None
    }
}

impl JsonView {
    /// The value as a text: only a string is one.
    pub open spec fn text(self) -> Option<Seq<char>> {
        match self {
            JsonView::Text(text) => Some(text),
            _ => None,
        }
    }

    /// The value as a list of texts: an array of strings, which may be empty.
    pub open spec fn texts(self) -> Option<Seq<Seq<char>>> {
        match self {
            JsonView::Array(items) => each(Seq::new(items.len(), |i: int| items[i].text())),
            _ => None,
        }
    }

    /// The value as a small number: an integer from 0 to 255, not written
    /// with a fraction or an exponent.
    pub open spec fn small_number(self) -> Option<u8> {
        match self {
            JsonView::Number(number) => match number.integer() {
                Some(n) => if 0 <= n <= u8::MAX {
                    Some(n as u8)
                } else {
                    None
                },
                None => None,
            },
            _ => None,
        }
    }

    /// The value as a list of small numbers: an array of them, which may be
    /// empty.
    pub open spec fn small_numbers(self) -> Option<Seq<u8>> {
        match self {
            JsonView::Array(items) => each(Seq::new(items.len(), |i: int| items[i].small_number())),
            _ => None,
        }
    }

    /// The value as a type tag: a string, else an array of strings.
    pub open spec fn kind(self) -> Option<KindView> {
        match self {
            JsonView::Text(text) => Some(KindView::Text(text)),
            _ => match self.texts() {
                Some(texts) => Some(KindView::TextList(texts)),
                None => None,
            },
        }
    }

    /// The value as an image: a string, else an object, whose members are
    /// taken as they are.
    pub open spec fn image(self) -> Option<ImageView> {
        match self {
            JsonView::Text(address) => Some(ImageView::URL(address)),
            JsonView::Object(members) => Some(ImageView::ImageObject(members)),
            _ => None,
        }
    }

    /// The value as a yield: a string, else a small number, else an array of
    /// small numbers, else an array of strings. An empty array is a list of
    /// numbers.
    pub open spec fn recipe_yield(self) -> Option<RecipeYieldView> {
        match self {
            JsonView::Text(text) => Some(RecipeYieldView::Text(text)),
            _ => match self.small_number() {
                Some(number) => Some(RecipeYieldView::Number(number)),
                None => match self.small_numbers() {
                    Some(numbers) => Some(RecipeYieldView::NumberList(numbers)),
                    None => match self.texts() {
                        Some(texts) => Some(RecipeYieldView::TextList(texts)),
                        None => None,
                    },
                },
            },
        }
    }

    /// The value as an instruction: an object with a string under `@type`
    /// and a string under `text`, each exactly once. Other members are
    /// passed over.
    pub open spec fn instruction(self) -> Option<RecipeInstructionView> {
        match self {
            JsonView::Object(members) => {
                let kind = find(members, TYPE_KEY@);
                let text = find(members, TEXT_KEY@);
                match (kind.required(kind.value().text()), text.required(text.value().text())) {
                    (Some(kind), Some(text)) => Some(RecipeInstructionView { kind, text }),
                    _ => None,
                }
            },
            _ => None,
        }
    }

    /// The value as a list of instructions: an array of them, which may be
    /// empty.
    pub open spec fn instructions(self) -> Option<Seq<RecipeInstructionView>> {
        match self {
            JsonView::Array(items) => each(Seq::new(items.len(), |i: int| items[i].instruction())),
            _ => None,
        }
    }

    /// The value as a recipe-shaped object: an object in which each of the
    /// ten fields is left out, null, or of a shape that the field takes, and
    /// in which none of their keys is repeated. Other members are passed
    /// over.
    pub open spec fn recipe(self) -> Option<RecipeView> {
        match self {
            JsonView::Object(members) => {
                let context = optional_text(members, CONTEXT_KEY@);
                let kind = optional_kind(members, TYPE_KEY@);
                let cook_time = optional_text(members, COOK_TIME_KEY@);
                let date_published = optional_text(members, DATE_PUBLISHED_KEY@);
                let description = optional_text(members, DESCRIPTION_KEY@);
                let image = optional_image(members, IMAGE_KEY@);
                let recipe_ingredient = optional_texts(members, RECIPE_INGREDIENT_KEY@);
                let name = optional_text(members, NAME_KEY@);
                let recipe_instructions = optional_instructions(members, RECIPE_INSTRUCTIONS_KEY@);
                let recipe_yield = optional_yield(members, RECIPE_YIELD_KEY@);
                if context is Some && kind is Some && cook_time is Some && date_published is Some
                    && description is Some && image is Some && recipe_ingredient is Some
                    && name is Some && recipe_instructions is Some && recipe_yield is Some {
                    Some(
                        RecipeView {
                            context: context.unwrap(),
                            kind: kind.unwrap(),
                            cook_time: cook_time.unwrap(),
                            date_published: date_published.unwrap(),
                            description: description.unwrap(),
                            image: image.unwrap(),
                            recipe_ingredient: recipe_ingredient.unwrap(),
                            name: name.unwrap(),
                            recipe_instructions: recipe_instructions.unwrap(),
                            recipe_yield: recipe_yield.unwrap(),
                        },
                    )
                } else {
                    None
                }
            },
            _ => None,
        }
    }

    /// The value as the content of a script block: a recipe-shaped object,
    /// or an array in which every item is one.
    pub open spec fn script(self) -> Option<RecipeScriptView> {
        match self {
            JsonView::Object(_) => match self.recipe() {
                Some(recipe) => Some(RecipeScriptView::JSONObject(recipe)),
                None => None,
            },
            JsonView::Array(items) => match each(Seq::new(items.len(), |i: int| items[i].recipe())) {
                Some(recipes) => Some(RecipeScriptView::JSONArray(recipes)),
                None => None,
            },
            _ => None,
        }
    }
}

/// The field under `key` that may hold a text.
pub open spec fn optional_text(members: Members, key: Seq<char>) -> Option<Option<Seq<char>>> {
    let found = find(members, key);
    found.optional(found.value().text())
}

/// The field under `key` that may hold a list of texts.
pub open spec fn optional_texts(members: Members, key: Seq<char>) -> Option<Option<Seq<Seq<char>>>> {
    let found = find(members, key);
    found.optional(found.value().texts())
}

/// The field under `key` that may hold a type tag.
pub open spec fn optional_kind(members: Members, key: Seq<char>) -> Option<Option<KindView>> {
    let found = find(members, key);
    found.optional(found.value().kind())
}

/// The field under `key` that may hold an image.
pub open spec fn optional_image(members: Members, key: Seq<char>) -> Option<Option<ImageView>> {
    let found = find(members, key);
    found.optional(found.value().image())
}

/// The field under `key` that may hold a list of instructions.
pub open spec fn optional_instructions(
    members: Members,
    key: Seq<char>,
) -> Option<Option<Seq<RecipeInstructionView>>> {
    let found = find(members, key);
    found.optional(found.value().instructions())
}

/// The field under `key` that may hold a yield.
pub open spec fn optional_yield(members: Members, key: Seq<char>) -> Option<Option<RecipeYieldView>> {
    let found = find(members, key);
    found.optional(found.value().recipe_yield())
}

/// What `key` finds among the members of an object, for reading.
pub enum Lookup<'a> {
    Absent,
    Once(&'a Json),
    Repeated,
}

impl<'a> Lookup<'a> {
    /// What was found, as a mathematical value.
    pub open spec fn found(self) -> Found {
        match self {
            Lookup::Absent => Found::Absent,
            Lookup::Once(json) => Found::Once(json@),
            Lookup::Repeated => Found::Repeated,
        }
    }
}

/// Looks `key` up among `members`.
pub fn lookup<'a>(members: &'a Vec<(String, Json)>, key: &str) -> (found: Lookup<'a>)
    ensures
        found.found() == find(members.deep_view(), key@),
{
    let wanted = key.to_owned();
    let mut found: Lookup<'a> = Lookup::Absent;
    let mut i: usize = 0;
    assert(members.deep_view().take(0) =~= Seq::empty());
    while i < members.len()
        invariant
            i <= members.len(),
            wanted@ == key@,
            found.found() == find(members.deep_view().take(i as int), key@),
        decreases members.len() - i,
    {
        proof {
            let seen = members.deep_view().take(i + 1);
            assert(seen.drop_last() =~= members.deep_view().take(i as int));
            assert(seen.last() == members.deep_view()[i as int]);
        }
        if members[i].0 == wanted {
            found = match found {
                Lookup::Absent => Lookup::Once(&members[i].1),
                _ => Lookup::Repeated,
            };
        }
        i += 1;
    }
    assert(members.deep_view().take(i as int) =~= members.deep_view());
    found
}

/// Decodes a text.
pub fn decode_text(json: &Json) -> (text: Option<String>)
    ensures
        text.deep_view() == json@.text(),
{
    match json {
        Json::Text(text) => Some(text.clone()),
        _ => None,
    }
}

/// Decodes a list of texts.
pub fn decode_texts(json: &Json) -> (texts: Option<Vec<String>>)
    ensures
        texts.deep_view() == json@.texts(),
{
    match json {
        Json::Array(items) => {
            let ghost shapes = Seq::new(items@.len(), |i: int| items@[i]@.text());
            proof {
                lemma_array_view(*items);
                assert(shapes =~= Seq::new(
                    json@->Array_0.len(),
                    |i: int| json@->Array_0[i].text(),
                ));
            }
            let mut texts: Vec<String> = Vec::new();
            let mut i: usize = 0;
            while i < items.len()
                invariant
                    i <= items.len(),
                    texts.len() == i,
                    shapes.len() == items.len(),
                    json@.texts() == each(shapes),
                    forall|k: int| 0 <= k < items.len() ==> #[trigger] shapes[k] == items@[k]@.text(),
                    forall|k: int| 0 <= k < i ==> #[trigger] shapes[k] == Some(texts@[k]@),
                decreases items.len() - i,
            {
                match decode_text(&items[i]) {
                    Some(text) => texts.push(text),
                    None => {
                        assert(shapes[i as int] is None);
                        return None;
                    },
                }
                i += 1;
            }
            assert(texts.deep_view() =~= each(shapes).unwrap());
            Some(texts)
        },
        _ => None,
    }
}

/// Decodes a small number.
pub fn decode_small_number(json: &Json) -> (number: Option<u8>)
    ensures
        number == json@.small_number(),
{
    match json {
        Json::Number(JsonNumber::Unsigned(n)) => if *n <= 255 {
            Some(*n as u8)
        } else {
            None
        },
        Json::Number(JsonNumber::Signed(n)) => if 0 <= *n && *n <= 255 {
            Some(*n as u8)
        } else {
            None
        },
        _ => None,
    }
}

/// Decodes a list of small numbers.
pub fn decode_small_numbers(json: &Json) -> (numbers: Option<Vec<u8>>)
    ensures
        numbers.deep_view() == json@.small_numbers(),
{
    match json {
        Json::Array(items) => {
            let ghost shapes = Seq::new(items@.len(), |i: int| items@[i]@.small_number());
            proof {
                lemma_array_view(*items);
                assert(shapes =~= Seq::new(
                    json@->Array_0.len(),
                    |i: int| json@->Array_0[i].small_number(),
                ));
            }
            let mut numbers: Vec<u8> = Vec::new();
            let mut i: usize = 0;
            while i < items.len()
                invariant
                    i <= items.len(),
                    numbers.len() == i,
                    shapes.len() == items.len(),
                    json@.small_numbers() == each(shapes),
                    forall|k: int|
                        0 <= k < items.len() ==> #[trigger] shapes[k] == items@[k]@.small_number(),
                    forall|k: int| 0 <= k < i ==> #[trigger] shapes[k] == Some(numbers@[k]),
                decreases items.len() - i,
            {
                match decode_small_number(&items[i]) {
                    Some(number) => numbers.push(number),
                    None => {
                        assert(shapes[i as int] is None);
                        return None;
                    },
                }
                i += 1;
            }
            assert(numbers.deep_view() =~= each(shapes).unwrap());
            Some(numbers)
        },
        _ => None,
    }
}

/// Decodes a type tag.
pub fn decode_kind(json: &Json) -> (kind: Option<Kind>)
    ensures
        kind.deep_view() == json@.kind(),
{
    match json {
        Json::Text(text) => Some(Kind::Text(text.clone())),
        _ => match decode_texts(json) {
            Some(texts) => Some(Kind::TextList(texts)),
            None => None,
        },
    }
}

/// Decodes an image.
pub fn decode_image(json: &Json) -> (image: Option<Image>)
    ensures
        image.deep_view() == json@.image(),
{
    match json {
        Json::Text(address) => Some(Image::URL(address.clone())),
        Json::Object(members) => {
            proof {
                lemma_object_view(*members);
            }
            Some(Image::ImageObject(copy_members(members)))
        },
        _ => None,
    }
}

/// Decodes a yield.
pub fn decode_yield(json: &Json) -> (recipe_yield: Option<RecipeYield>)
    ensures
        recipe_yield.deep_view() == json@.recipe_yield(),
{
    if let Json::Text(text) = json {
        return Some(RecipeYield::Text(text.clone()));
    }
    if let Some(number) = decode_small_number(json) {
        return Some(RecipeYield::Number(number));
    }
    if let Some(numbers) = decode_small_numbers(json) {
        return Some(RecipeYield::NumberList(numbers));
    }
    match decode_texts(json) {
        Some(texts) => Some(RecipeYield::TextList(texts)),
        None => None,
    }
}

/// Whether a key is one of the ten under which a recipe's fields are
/// written.
pub open spec fn is_field_key(key: Seq<char>) -> bool {
    ||| key == CONTEXT_KEY@
    ||| key == TYPE_KEY@
    ||| key == COOK_TIME_KEY@
    ||| key == DATE_PUBLISHED_KEY@
    ||| key == DESCRIPTION_KEY@
    ||| key == IMAGE_KEY@
    ||| key == RECIPE_INGREDIENT_KEY@
    ||| key == NAME_KEY@
    ||| key == RECIPE_INSTRUCTIONS_KEY@
    ||| key == RECIPE_YIELD_KEY@
}

/// A member under a key that is no field's key is passed over: the object
/// decodes to the same recipe with it and without it.
pub proof fn lemma_other_member_is_passed_over(members: Members, member: (Seq<char>, JsonView))
    requires
        !is_field_key(member.0),
    ensures
        JsonView::Object(members.push(member)).recipe() == JsonView::Object(members).recipe(),
{
    lemma_find_push(members, member, CONTEXT_KEY@);
    lemma_find_push(members, member, TYPE_KEY@);
    lemma_find_push(members, member, COOK_TIME_KEY@);
    lemma_find_push(members, member, DATE_PUBLISHED_KEY@);
    lemma_find_push(members, member, DESCRIPTION_KEY@);
    lemma_find_push(members, member, IMAGE_KEY@);
    lemma_find_push(members, member, RECIPE_INGREDIENT_KEY@);
    lemma_find_push(members, member, NAME_KEY@);
    lemma_find_push(members, member, RECIPE_INSTRUCTIONS_KEY@);
    lemma_find_push(members, member, RECIPE_YIELD_KEY@);
}

/// The value under `key`, for a field that may be left out: none where the
/// key is absent or its value is null, and no answer where the key is
/// repeated.
pub fn present<'a>(members: &'a Vec<(String, Json)>, key: &str) -> (value: Option<Option<&'a Json>>)
    ensures
        value.deep_view() == find(members.deep_view(), key@).optional(
            Some(find(members.deep_view(), key@).value()),
        ),
{
    match lookup(members, key) {
        Lookup::Absent => Some(None),
        Lookup::Once(json) => match json {
            Json::Null => Some(None),
            _ => Some(Some(json)),
        },
        Lookup::Repeated => None,
    }
}

/// Decodes an instruction.
pub fn decode_instruction(json: &Json) -> (instruction: Option<RecipeInstruction>)
    ensures
        instruction.deep_view() == json@.instruction(),
{
    match json {
        Json::Object(members) => {
            proof {
                lemma_object_view(*members);
            }
            let kind = match lookup(members, TYPE_KEY) {
                Lookup::Once(value) => decode_text(value)?,
                _ => return None,
            };
            let text = match lookup(members, TEXT_KEY) {
                Lookup::Once(value) => decode_text(value)?,
                _ => return None,
            };
            Some(RecipeInstruction { kind, text })
        },
        _ => None,
    }
}

/// Decodes a list of instructions.
pub fn decode_instructions(json: &Json) -> (instructions: Option<Vec<RecipeInstruction>>)
    ensures
        instructions.deep_view() == json@.instructions(),
{
    match json {
        Json::Array(items) => {
            let ghost shapes = Seq::new(items@.len(), |i: int| items@[i]@.instruction());
            proof {
                lemma_array_view(*items);
                assert(shapes =~= Seq::new(
                    json@->Array_0.len(),
                    |i: int| json@->Array_0[i].instruction(),
                ));
            }
            let mut instructions: Vec<RecipeInstruction> = Vec::new();
            let mut i: usize = 0;
            while i < items.len()
                invariant
                    i <= items.len(),
                    instructions.len() == i,
                    shapes.len() == items.len(),
                    json@.instructions() == each(shapes),
                    forall|k: int|
                        0 <= k < items.len() ==> #[trigger] shapes[k] == items@[k]@.instruction(),
                    forall|k: int| 0 <= k < i ==> #[trigger] shapes[k] == Some(instructions@[k]@),
                decreases items.len() - i,
            {
                match decode_instruction(&items[i]) {
                    Some(instruction) => instructions.push(instruction),
                    None => {
                        assert(shapes[i as int] is None);
                        return None;
                    },
                }
                i += 1;
            }
            assert(instructions.deep_view() =~= each(shapes).unwrap());
            Some(instructions)
        },
        _ => None,
    }
}

/// Decodes a recipe-shaped object.
pub fn decode_recipe(json: &Json) -> (recipe: Option<Recipe>)
    ensures
        recipe.deep_view() == json@.recipe(),
{
    match json {
        Json::Object(members) => {
            proof {
                lemma_object_view(*members);
            }
            let context = match present(members, CONTEXT_KEY)? {
                Some(value) => Some(decode_text(value)?),
                None => None,
            };
            let kind = match present(members, TYPE_KEY)? {
                Some(value) => Some(decode_kind(value)?),
                None => None,
            };
            let cook_time = match present(members, COOK_TIME_KEY)? {
                Some(value) => Some(decode_text(value)?),
                None => None,
            };
            let date_published = match present(members, DATE_PUBLISHED_KEY)? {
                Some(value) => Some(decode_text(value)?),
                None => None,
            };
            let description = match present(members, DESCRIPTION_KEY)? {
                Some(value) => Some(decode_text(value)?),
                None => None,
            };
            let image = match present(members, IMAGE_KEY)? {
                Some(value) => Some(decode_image(value)?),
                None => None,
            };
            let recipe_ingredient = match present(members, RECIPE_INGREDIENT_KEY)? {
                Some(value) => Some(decode_texts(value)?),
                None => None,
            };
            let name = match present(members, NAME_KEY)? {
                Some(value) => Some(decode_text(value)?),
                None => None,
            };
            let recipe_instructions = match present(members, RECIPE_INSTRUCTIONS_KEY)? {
                Some(value) => Some(decode_instructions(value)?),
                None => None,
            };
            let recipe_yield = match present(members, RECIPE_YIELD_KEY)? {
                Some(value) => Some(decode_yield(value)?),
                None => None,
            };
            Some(
                Recipe {
                    context,
                    kind,
                    cook_time,
                    date_published,
                    description,
                    image,
                    recipe_ingredient,
                    name,
                    recipe_instructions,
                    recipe_yield,
                },
            )
        },
        _ => None,
    }
}

/// Decodes the content of a script block: one recipe-shaped object, or an
/// array of them. A value of any other shape is refused, and so is an array
/// of which one item does not fit.
pub fn decode_script(json: &Json) -> (script: Result<RecipeScript, DecodeError>)
    ensures
        match json@.script() {
            Some(decoded) => script matches Ok(held) && held@ == decoded,
            None => script matches Err(error) && error == DecodeError::Shape,
        },
{
    match json {
        Json::Object(_) => match decode_recipe(json) {
            Some(recipe) => Ok(RecipeScript::JSONObject(recipe)),
            None => Err(DecodeError::Shape),
        },
        Json::Array(items) => {
            let ghost shapes = Seq::new(items@.len(), |i: int| items@[i]@.recipe());
            proof {
                lemma_array_view(*items);
                assert(shapes =~= Seq::new(
                    json@->Array_0.len(),
                    |i: int| json@->Array_0[i].recipe(),
                ));
            }
            let mut recipes: Vec<Recipe> = Vec::new();
            let mut i: usize = 0;
            while i < items.len()
                invariant
                    i <= items.len(),
                    recipes.len() == i,
                    shapes.len() == items.len(),
                    json@ is Array,
                    json@->Array_0.len() == shapes.len(),
                    shapes =~= Seq::new(
                        json@->Array_0.len(),
                        |i: int| json@->Array_0[i].recipe(),
                    ),
                    forall|k: int| 0 <= k < items.len() ==> #[trigger] shapes[k] == items@[k]@.recipe(),
                    forall|k: int| 0 <= k < i ==> #[trigger] shapes[k] == Some(recipes@[k]@),
                decreases items.len() - i,
            {
                match decode_recipe(&items[i]) {
                    Some(recipe) => recipes.push(recipe),
                    None => {
                        assert(shapes[i as int] is None);
                        return Err(DecodeError::Shape);
                    },
                }
                i += 1;
            }
            assert(recipes.deep_view() =~= each(shapes).unwrap());
            Ok(RecipeScript::JSONArray(recipes))
        },
        _ => Err(DecodeError::Shape),
    }
}

} // verus!
