//! Why a script block was set aside.

use vstd::prelude::*;

verus! {

/// Why the text of a script block could not be decoded.
#[derive(Debug, Clone, Copy, PartialEq, Eq, Structural)]
pub enum DecodeError {
    /// The text is not JSON.
    Syntax,
    /// The text is JSON, but neither a recipe-shaped object nor an array of
    /// them: some field holds a value of a shape that the field does not take.
    Shape,
}

/// The selector of the script elements was refused by the selector parser.
/// The selector is a constant of this library, so this is a fault of the
/// library's setup and not of any page.
#[derive(Debug, Clone, Copy, PartialEq, Eq, Structural)]
pub struct SelectorRefused;

} // verus!
