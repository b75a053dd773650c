//! Recipes embedded in web pages as JSON-LD.
//!
//! A page marks up a recipe as a schema.org `Recipe` object inside a
//! `<script type="application/ld+json">` element. This library finds those
//! elements, reads each one as JSON, decodes the loosely typed object into a
//! [`Recipe`] and returns the first candidate that really is a recipe.
//!
//! The page itself is fetched by the caller; [`request::request_headers`]
//! says what the request must carry, and [`find_recipe`] takes the markup
//! that came back.

pub mod decode;
pub mod encode;
pub mod error;
pub mod extract;
pub mod json;
pub mod locate;
pub mod parse;
pub mod request;
pub mod round_trip;
pub mod types;

pub use crate::decode::{decode_recipe, decode_script};
pub use crate::encode::encode_recipe;
pub use crate::error::{DecodeError, SelectorRefused};
pub use crate::extract::{
    decode_block, extract_recipe, find_recipe, recipe_in_block, recipe_in_json, recipe_in_script,
};
pub use crate::json::{Json, JsonNumber};
pub use crate::locate::{find_blocks, find_ld_json_blocks};
pub use crate::parse::parse_json;
pub use crate::types::{Image, Kind, Recipe, RecipeInstruction, RecipeScript, RecipeYield};
