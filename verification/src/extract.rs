//! Choosing the recipe of a page.
//!
//! The blocks of a page are read in their order. A block that is not JSON,
//! or not of the shape of a recipe, is set aside; so is one in which no
//! object is a recipe. Within a block that holds an array, the objects are
//! tried in the array's order. The first object that is a recipe is the
//! recipe of the page.

use crate::decode::decode_script;
use crate::error::{DecodeError, SelectorRefused};
use crate::json::{Json, JsonView};
use crate::locate::{find_ld_json_blocks, ld_json_blocks};
use crate::parse::{parse_json, text_contents};
use crate::types::{Recipe, RecipeScript, RecipeScriptView, RecipeView};
use vstd::prelude::*;

verus! {

/// The first outcome that is present, if any is.
pub open spec fn first_present<T>(outcomes: Seq<Option<T>>) -> Option<T>
    decreases outcomes.len(),
{
    if outcomes.len() == 0 {
        None
    } else if outcomes.first() is Some {
        outcomes.first()
    } else {
        first_present(outcomes.drop_first())
    }
}

/// Where every outcome before the `k`-th is absent and the `k`-th is
/// present, the `k`-th is the first present one, whatever follows it.
pub proof fn lemma_first_present_at<T>(outcomes: Seq<Option<T>>, k: int)
    requires
        0 <= k < outcomes.len(),
        outcomes[k] is Some,
        forall|j: int| 0 <= j < k ==> outcomes[j] is None,
    ensures
        first_present(outcomes) == outcomes[k],
    decreases k,
{
    if k > 0 {
        assert(outcomes[0] is None);
        let rest = outcomes.drop_first();
        assert forall|j: int| 0 <= j < k - 1 implies rest[j] is None by {
            assert(rest[j] == outcomes[j + 1]);
        }
        lemma_first_present_at(rest, k - 1);
    }
}

/// Where every outcome is absent, none is the first present one.
pub proof fn lemma_first_present_none<T>(outcomes: Seq<Option<T>>)
    requires
        forall|j: int| 0 <= j < outcomes.len() ==> outcomes[j] is None,
    ensures
        first_present(outcomes) is None,
    decreases outcomes.len(),
{
    if outcomes.len() > 0 {
        assert(outcomes[0] is None);
        let rest = outcomes.drop_first();
        assert forall|j: int| 0 <= j < rest.len() implies rest[j] is None by {
            assert(rest[j] == outcomes[j + 1]);
        }
        lemma_first_present_none(rest);
    }
}

/// An outcome that is absent changes nothing: the first present outcome is
/// the same with it and without it.
pub proof fn lemma_first_present_skips<T>(outcomes: Seq<Option<T>>, i: int)
    requires
        0 <= i < outcomes.len(),
        outcomes[i] is None,
    ensures
        first_present(outcomes) == first_present(outcomes.remove(i)),
    decreases i,
{
    if i == 0 {
        assert(outcomes.remove(0) =~= outcomes.drop_first());
    } else {
        assert(outcomes.remove(i)[0] == outcomes[0]);
        if outcomes[0] is None {
            assert(outcomes.remove(i).drop_first() =~= outcomes.drop_first().remove(i - 1));
            lemma_first_present_skips(outcomes.drop_first(), i - 1);
        }
    }
}

/// Each candidate, kept where it is a recipe.
pub open spec fn valid_ones(candidates: Seq<RecipeView>) -> Seq<Option<RecipeView>> {
    Seq::new(
        candidates.len(),
        |i: int|
            if candidates[i].is_valid() {
                Some(candidates[i])
            } else {
                None
            },
    )
}

/// The first candidate that is a recipe.
pub open spec fn first_valid(candidates: Seq<RecipeView>) -> Option<RecipeView> {
    first_present(valid_ones(candidates))
}

/// Within a block the order of the array decides: where the `k`-th object is
/// a recipe and none before it is, the `k`-th is chosen, whatever follows.
pub proof fn lemma_first_valid_at(candidates: Seq<RecipeView>, k: int)
    requires
        0 <= k < candidates.len(),
        candidates[k].is_valid(),
        forall|j: int| 0 <= j < k ==> !candidates[j].is_valid(),
    ensures
        first_valid(candidates) == Some(candidates[k]),
{
    lemma_first_present_at(valid_ones(candidates), k);
}

/// A block in which no object is a recipe has no recipe.
pub proof fn lemma_first_valid_none(candidates: Seq<RecipeView>)
    requires
        forall|j: int| 0 <= j < candidates.len() ==> !candidates[j].is_valid(),
    ensures
        first_valid(candidates) is None,
{
    lemma_first_present_none(valid_ones(candidates));
}

/// What is chosen is one of the candidates, and it is a recipe.
pub proof fn lemma_first_valid_is_valid(candidates: Seq<RecipeView>)
    requires
        first_valid(candidates) is Some,
    ensures
        first_valid(candidates).unwrap().is_valid(),
        candidates.contains(first_valid(candidates).unwrap()),
{
    let outcomes = valid_ones(candidates);
    if forall|j: int| 0 <= j < outcomes.len() ==> outcomes[j] is None {
        lemma_first_present_none(outcomes);
    } else {
        lemma_choose_first(outcomes);
        let k = choose_first(outcomes);
        lemma_first_present_at(outcomes, k);
        assert(candidates[k] == first_valid(candidates).unwrap());
    }
}

/// The least index of an outcome that is present.
pub open spec fn choose_first<T>(outcomes: Seq<Option<T>>) -> int
    decreases outcomes.len(),
{
    if outcomes.len() == 0 || outcomes.first() is Some {
        0
    } else {
        1 + choose_first(outcomes.drop_first())
    }
}

/// Where some outcome is present, the least index of one is within the
/// list, holds one, and has none before it.
pub proof fn lemma_choose_first<T>(outcomes: Seq<Option<T>>)
    requires
        exists|j: int| 0 <= j < outcomes.len() && outcomes[j] is Some,
    ensures
        0 <= choose_first(outcomes) < outcomes.len(),
        outcomes[choose_first(outcomes)] is Some,
        forall|j: int| 0 <= j < choose_first(outcomes) ==> outcomes[j] is None,
    decreases outcomes.len(),
{
    let witness = choose|j: int| 0 <= j < outcomes.len() && outcomes[j] is Some;
    if outcomes.first() is None {
        let rest = outcomes.drop_first();
        assert(rest[witness - 1] == outcomes[witness]);
        lemma_choose_first(rest);
        assert forall|j: int| 0 <= j < choose_first(outcomes) implies outcomes[j] is None by {
            if j > 0 {
                assert(rest[j - 1] == outcomes[j]);
            }
        }
        assert(rest[choose_first(rest)] == outcomes[choose_first(rest) + 1]);
    }
}

/// The recipe of a decoded block.
pub fn recipe_in_script(script: RecipeScript) -> (recipe: Option<Recipe>)
    ensures
        recipe.deep_view() == first_valid(script@.candidates()),
{
    match script {
        RecipeScript::JSONObject(recipe) => {
            let ghost outcomes = valid_ones(seq![recipe@]);
            if recipe.validate() {
                proof {
                    lemma_first_present_at(outcomes, 0);
                }
                Some(recipe)
            } else {
                proof {
                    lemma_first_present_none(outcomes);
                }
                None
            }
        },
        RecipeScript::JSONArray(mut recipes) => {
            let ghost candidates = recipes.deep_view();
            let ghost outcomes = valid_ones(candidates);
            let mut i: usize = 0;
            while i < recipes.len()
                invariant
                    i <= recipes.len(),
                    script@.candidates() == candidates,
                    recipes.deep_view() == candidates,
                    outcomes == valid_ones(candidates),
                    forall|j: int| 0 <= j < i ==> outcomes[j] is None,
                decreases recipes.len() - i,
            {
                if recipes[i].validate() {
                    proof {
                        assert(candidates[i as int] == recipes@[i as int]@);
                        lemma_first_present_at(outcomes, i as int);
                    }
                    return Some(recipes.swap_remove(i));
                }
                i += 1;
            }
            proof {
                lemma_first_present_none(outcomes);
            }
            None
        },
    }
}

/// The recipe that a JSON value holds: the first object that is a recipe,
/// where the value is of the shape of a script block.
pub open spec fn json_recipe(value: JsonView) -> Option<RecipeView> {
    match value.script() {
        Some(script) => first_valid(script.candidates()),
        None => None,
    }
}

/// The recipe that a JSON value holds.
pub fn recipe_in_json(json: &Json) -> (recipe: Option<Recipe>)
    ensures
        recipe.deep_view() == json_recipe(json@),
{
    match decode_script(json) {
        Ok(script) => recipe_in_script(script),
        Err(_) => None,
    }
}

/// What the text of a block decodes to: a syntax error where the text is
/// not JSON, a shape error where the JSON is not of the shape of a block.
pub open spec fn block_script(text: Seq<char>) -> Result<RecipeScriptView, DecodeError> {
    match text_contents(text) {
        Some(value) => match value.script() {
            Some(script) => Ok(script),
            None => Err(DecodeError::Shape),
        },
        None => Err(DecodeError::Syntax),
    }
}

/// Decodes the text of a block.
pub fn decode_block(text: &str) -> (script: Result<RecipeScript, DecodeError>)
    ensures
        match block_script(text@) {
            Ok(decoded) => script matches Ok(held) && held@ == decoded,
            Err(error) => script matches Err(reported) && reported == error,
        },
{
    match parse_json(text) {
        Ok(json) => decode_script(&json),
        Err(error) => Err(error),
    }
}

/// The recipe of a block: none where the block does not decode.
pub open spec fn block_recipe(text: Seq<char>) -> Option<RecipeView> {
    match block_script(text) {
        Ok(script) => first_valid(script.candidates()),
        Err(_) => None,
    }
}

/// The recipe of a block.
pub fn recipe_in_block(text: &str) -> (recipe: Option<Recipe>)
    ensures
        recipe.deep_view() == block_recipe(text@),
{
    match decode_block(text) {
        Ok(script) => recipe_in_script(script),
        Err(_) => None,
    }
}

/// The recipe of each block.
pub open spec fn block_recipes(blocks: Seq<Seq<char>>) -> Seq<Option<RecipeView>> {
    Seq::new(blocks.len(), |i: int| block_recipe(blocks[i]))
}

/// The recipe of a list of blocks: that of the first block that has one.
pub open spec fn blocks_recipe(blocks: Seq<Seq<char>>) -> Option<RecipeView> {
    first_present(block_recipes(blocks))
}

/// Reads the blocks in their order and returns the recipe of the first one
/// that has a recipe. A block that does not decode is passed over, and so is
/// one without a recipe; that no block has one is no error.
pub fn extract_recipe(blocks: &Vec<String>) -> (recipe: Option<Recipe>)
    ensures
        recipe.deep_view() == blocks_recipe(blocks.deep_view()),
{
    let ghost outcomes = block_recipes(blocks.deep_view());
    let mut i: usize = 0;
    while i < blocks.len()
        invariant
            i <= blocks.len(),
            outcomes == block_recipes(blocks.deep_view()),
            forall|j: int| 0 <= j < i ==> outcomes[j] is None,
        decreases blocks.len() - i,
    {
        if let Some(recipe) = recipe_in_block(blocks[i].as_str()) {
            proof {
                lemma_first_present_at(outcomes, i as int);
            }
            return Some(recipe);
        }
        i += 1;
    }
    proof {
        lemma_first_present_none(outcomes);
    }
    None
}

/// Where the `k`-th block has a recipe and no block before it has one, be it
/// that the block is not JSON, not of the shape of a recipe, or holds no
/// object that is a recipe, the recipe of the `k`-th block is the recipe of
/// the list, whatever the later blocks hold.
pub proof fn lemma_recipe_of_first_block_with_one(blocks: Seq<Seq<char>>, k: int)
    requires
        0 <= k < blocks.len(),
        block_recipe(blocks[k]) is Some,
        forall|j: int| 0 <= j < k ==> block_recipe(blocks[j]) is None,
    ensures
        blocks_recipe(blocks) == block_recipe(blocks[k]),
{
    lemma_first_present_at(block_recipes(blocks), k);
}

/// Where no block has a recipe, the list has none. A list without blocks is
/// such a list.
pub proof fn lemma_no_recipe_without_blocks(blocks: Seq<Seq<char>>)
    requires
        forall|j: int| 0 <= j < blocks.len() ==> block_recipe(blocks[j]) is None,
    ensures
        blocks_recipe(blocks) is None,
{
    lemma_first_present_none(block_recipes(blocks));
}

/// Whatever is returned for a list of blocks is a recipe: its context is the
/// schema.org namespace and its type tag names `Recipe`.
pub proof fn lemma_recipe_of_blocks_is_valid(blocks: Seq<Seq<char>>)
    requires
        blocks_recipe(blocks) is Some,
    ensures
        blocks_recipe(blocks).unwrap().is_valid(),
{
    let outcomes = block_recipes(blocks);
    if forall|j: int| 0 <= j < outcomes.len() ==> outcomes[j] is None {
        lemma_first_present_none(outcomes);
    } else {
        lemma_choose_first(outcomes);
        let k = choose_first(outcomes);
        lemma_first_present_at(outcomes, k);
        lemma_first_valid_is_valid(block_script(blocks[k])->Ok_0.candidates());
    }
}

/// A block that does not decode, because it is not JSON or not of the shape
/// of a recipe, is passed over: the recipe of the list is the same with the
/// block and without it.
pub proof fn lemma_undecodable_block_is_passed_over(blocks: Seq<Seq<char>>, i: int)
    requires
        0 <= i < blocks.len(),
        block_script(blocks[i]) is Err,
    ensures
        blocks_recipe(blocks) == blocks_recipe(blocks.remove(i)),
{
    assert(block_recipes(blocks.remove(i)) =~= block_recipes(blocks).remove(i));
    lemma_first_present_skips(block_recipes(blocks), i);
}

/// The recipe of a page: that of its JSON-LD blocks. Nothing where the
/// blocks cannot be looked for.
pub open spec fn page_recipe(markup: Seq<char>) -> Option<Option<RecipeView>> {
    match ld_json_blocks(markup) {
        Some(blocks) => Some(blocks_recipe(blocks)),
        None => None,
    }
}

/// Finds the recipe of a page: the first object, in the order of the page's
/// JSON-LD blocks and of the objects within a block, that is a recipe.
pub fn find_recipe(markup: &str) -> (recipe: Result<Option<Recipe>, SelectorRefused>)
    ensures
        match page_recipe(markup@) {
            Some(found) => recipe matches Ok(held) && held.deep_view() == found,
            None => recipe is Err,
        },
{
    match find_ld_json_blocks(markup) {
        Ok(blocks) => Ok(extract_recipe(&blocks)),
        Err(error) => Err(error),
    }
}

} // verus!
