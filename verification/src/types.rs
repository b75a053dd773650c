//! The recipe and the loosely typed fields that it is made of.

use crate::json::{Json, Members};
use vstd::prelude::*;

verus! {

/// The `@context` of schema.org, written with `https`.
pub const SCHEMA_ORG_HTTPS: &'static str = "https://schema.org";

/// The `@context` of schema.org, written with `http`.
pub const SCHEMA_ORG_HTTP: &'static str = "http://schema.org";

/// The `@type` that marks an object as a recipe.
pub const RECIPE_TYPE: &'static str = "Recipe";

/// A type tag: one name, or a list of names.
#[derive(Debug, PartialEq, Eq)]
pub enum Kind {
    Text(String),
    TextList(Vec<String>),
}

/// The mathematical value of a [`Kind`].
pub enum KindView {
    Text(Seq<char>),
    TextList(Seq<Seq<char>>),
}

impl KindView {
    /// Whether the tag is `name`, or lists it.
    pub open spec fn names(self, name: Seq<char>) -> bool {
        match self {
            KindView::Text(text) => text == name,
            KindView::TextList(texts) => texts.contains(name),
        }
    }
}

impl DeepView for Kind {
    type V = KindView;

    open spec fn deep_view(&self) -> KindView {
        match self {
            Kind::Text(text) => KindView::Text(text@),
            Kind::TextList(texts) => KindView::TextList(texts.deep_view()),
        }
    }
}

impl View for Kind {
    type V = KindView;

    open spec fn view(&self) -> KindView {
        self.deep_view()
    }
}

/// A copy of a list of texts.
pub fn copy_texts(texts: &Vec<String>) -> (copied: Vec<String>)
    ensures
        copied.deep_view() == texts.deep_view(),
{
    let mut copied: Vec<String> = Vec::new();
    let mut i: usize = 0;
    while i < texts.len()
        invariant
            i <= texts.len(),
            copied.len() == i,
            forall|k: int| 0 <= k < i ==> (#[trigger] copied@[k])@ == texts@[k]@,
        decreases texts.len() - i,
    {
        copied.push(texts[i].clone());
        i += 1;
    }
    assert(copied.deep_view() =~= texts.deep_view());
    copied
}

/// Whether a list of texts holds `wanted`.
pub fn holds_text(texts: &Vec<String>, wanted: &String) -> (found: bool)
    ensures
        found == texts.deep_view().contains(wanted@),
{
    let mut i: usize = 0;
    while i < texts.len()
        invariant
            i <= texts.len(),
            forall|k: int| 0 <= k < i ==> texts.deep_view()[k] != wanted@,
        decreases texts.len() - i,
    {
        if texts[i] == *wanted {
            assert(texts.deep_view()[i as int] == wanted@);
            return true;
        }
        i += 1;
    }
    false
}

impl Kind {
    /// Whether the tag is `name`, or lists it. A list is searched for the
    /// name: it need not be the only one, nor the first.
    pub fn names(&self, name: &String) -> (found: bool)
        ensures
            found == self@.names(name@),
    {
        match self {
            Kind::Text(text) => *text == *name,
            Kind::TextList(texts) => holds_text(texts, name),
        }
    }
}

impl Clone for Kind {
    fn clone(&self) -> (kind: Kind)
        ensures
            kind@ == self@,
    {
        match self {
            Kind::Text(text) => Kind::Text(text.clone()),
            Kind::TextList(texts) => Kind::TextList(copy_texts(texts)),
        }
    }
}

/// An image: its address, or an object whose members are kept as they are.
#[derive(Debug, PartialEq, Eq)]
pub enum Image {
    URL(String),
    ImageObject(Vec<(String, Json)>),
}

/// The mathematical value of an [`Image`].
pub enum ImageView {
    URL(Seq<char>),
    ImageObject(Members),
}

impl DeepView for Image {
    type V = ImageView;

    open spec fn deep_view(&self) -> ImageView {
        match self {
            Image::URL(address) => ImageView::URL(address@),
            Image::ImageObject(members) => ImageView::ImageObject(members.deep_view()),
        }
    }
}

impl View for Image {
    type V = ImageView;

    open spec fn view(&self) -> ImageView {
        self.deep_view()
    }
}

/// One step of a recipe: its type tag and its text.
#[derive(Debug, PartialEq, Eq)]
pub struct RecipeInstruction {
    pub kind: String,
    pub text: String,
}

/// The mathematical value of a [`RecipeInstruction`].
pub struct RecipeInstructionView {
    pub kind: Seq<char>,
    pub text: Seq<char>,
}

impl DeepView for RecipeInstruction {
    type V = RecipeInstructionView;

    open spec fn deep_view(&self) -> RecipeInstructionView {
        RecipeInstructionView { kind: self.kind@, text: self.text@ }
    }
}

impl View for RecipeInstruction {
    type V = RecipeInstructionView;

    open spec fn view(&self) -> RecipeInstructionView {
        self.deep_view()
    }
}

/// How much a recipe yields: a text, a small number, or a list of either.
#[derive(Debug, PartialEq, Eq)]
pub enum RecipeYield {
    Text(String),
    Number(u8),
    NumberList(Vec<u8>),
    TextList(Vec<String>),
}

/// The mathematical value of a [`RecipeYield`].
pub enum RecipeYieldView {
    Text(Seq<char>),
    Number(u8),
    NumberList(Seq<u8>),
    TextList(Seq<Seq<char>>),
}

impl DeepView for RecipeYield {
    type V = RecipeYieldView;

    open spec fn deep_view(&self) -> RecipeYieldView {
        match self {
            RecipeYield::Text(text) => RecipeYieldView::Text(text@),
            RecipeYield::Number(number) => RecipeYieldView::Number(*number),
            RecipeYield::NumberList(numbers) => RecipeYieldView::NumberList(numbers.deep_view()),
            RecipeYield::TextList(texts) => RecipeYieldView::TextList(texts.deep_view()),
        }
    }
}

impl View for RecipeYield {
    type V = RecipeYieldView;

    open spec fn view(&self) -> RecipeYieldView {
        self.deep_view()
    }
}

/// A schema.org object as a page embeds it. Every field may be absent.
#[derive(Debug, PartialEq, Eq)]
pub struct Recipe {
    pub context: Option<String>,
    pub kind: Option<Kind>,
    pub cook_time: Option<String>,
    pub date_published: Option<String>,
    pub description: Option<String>,
    pub image: Option<Image>,
    pub recipe_ingredient: Option<Vec<String>>,
    pub name: Option<String>,
    pub recipe_instructions: Option<Vec<RecipeInstruction>>,
    pub recipe_yield: Option<RecipeYield>,
}

/// The mathematical value of a [`Recipe`].
pub struct RecipeView {
    pub context: Option<Seq<char>>,
    pub kind: Option<KindView>,
    pub cook_time: Option<Seq<char>>,
    pub date_published: Option<Seq<char>>,
    pub description: Option<Seq<char>>,
    pub image: Option<ImageView>,
    pub recipe_ingredient: Option<Seq<Seq<char>>>,
    pub name: Option<Seq<char>>,
    pub recipe_instructions: Option<Seq<RecipeInstructionView>>,
    pub recipe_yield: Option<RecipeYieldView>,
}

/// Whether a context is the schema.org namespace, under either scheme.
pub open spec fn is_schema_org(context: Seq<char>) -> bool {
    context == SCHEMA_ORG_HTTPS@ || context == SCHEMA_ORG_HTTP@
}

impl RecipeView {
    /// Whether the object is a recipe: it has a context and a type tag, the
    /// context is the schema.org namespace, and the tag names `Recipe`.
    pub open spec fn is_valid(self) -> bool {
        &&& self.context matches Some(context)
        &&& self.kind matches Some(kind)
        &&& is_schema_org(context)
        &&& kind.names(RECIPE_TYPE@)
    }
}

impl DeepView for Recipe {
    type V = RecipeView;

    open spec fn deep_view(&self) -> RecipeView {
        RecipeView {
            context: self.context.deep_view(),
            kind: self.kind.deep_view(),
            cook_time: self.cook_time.deep_view(),
            date_published: self.date_published.deep_view(),
            description: self.description.deep_view(),
            image: self.image.deep_view(),
            recipe_ingredient: self.recipe_ingredient.deep_view(),
            name: self.name.deep_view(),
            recipe_instructions: self.recipe_instructions.deep_view(),
            recipe_yield: self.recipe_yield.deep_view(),
        }
    }
}

impl View for Recipe {
    type V = RecipeView;

    open spec fn view(&self) -> RecipeView {
        self.deep_view()
    }
}

impl Recipe {
    /// Whether the object is a recipe.
    pub fn validate(&self) -> (valid: bool)
        ensures
            valid == self@.is_valid(),
    {
        match (&self.context, &self.kind) {
            (Some(context), Some(kind)) => {
                let https = SCHEMA_ORG_HTTPS.to_owned();
                let http = SCHEMA_ORG_HTTP.to_owned();
                let recipe = RECIPE_TYPE.to_owned();
                let context_fits = *context == https || *context == http;
                let kind_fits = kind.names(&recipe);
                context_fits && kind_fits
            },
            _ => false,
        }
    }
}

/// What one script block holds: one object, or an array of them.
#[derive(Debug, PartialEq, Eq)]
pub enum RecipeScript {
    JSONObject(Recipe),
    JSONArray(Vec<Recipe>),
}

/// The mathematical value of a [`RecipeScript`].
pub enum RecipeScriptView {
    JSONObject(RecipeView),
    JSONArray(Seq<RecipeView>),
}

impl RecipeScriptView {
    /// The objects of the block, in their order: the candidates.
    pub open spec fn candidates(self) -> Seq<RecipeView> {
        match self {
            RecipeScriptView::JSONObject(recipe) => seq![recipe],
            RecipeScriptView::JSONArray(recipes) => recipes,
        }
    }
}

impl DeepView for RecipeScript {
    type V = RecipeScriptView;

    open spec fn deep_view(&self) -> RecipeScriptView {
        match self {
            RecipeScript::JSONObject(recipe) => RecipeScriptView::JSONObject(recipe@),
            RecipeScript::JSONArray(recipes) => RecipeScriptView::JSONArray(recipes.deep_view()),
        }
    }
}

impl View for RecipeScript {
    type V = RecipeScriptView;

    open spec fn view(&self) -> RecipeScriptView {
        self.deep_view()
    }
}

} // verus!
