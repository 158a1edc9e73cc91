//! Recipe documents behind a foreign-callable boundary.
//!
//! The crate holds the record shapes of a recipe, the outcome record that is
//! handed to a foreign caller, and the byte-level handling of the strings that
//! cross that boundary in either direction.

pub mod c_string;
pub mod error;
pub mod path;
pub mod types;

use crate::error::ParseError;
use crate::types::recipe::{Recipe, RecipeView, ResultRecipe};
use vstd::prelude::*;

verus! {

/// Packs what loading a recipe document gave into the record for the foreign
/// caller.
///
/// A loaded recipe is handed on as it is, with no diagnostic. Every failure,
/// whatever its cause, gives the empty recipe and the failure's diagnostic
/// text; a partly filled recipe is never handed out.
pub fn parse_recipe(loaded: Result<Recipe, ParseError>) -> (outcome: ResultRecipe)
    ensures
        outcome.well_formed(),
        outcome.success == loaded.is_ok(),
        match loaded {
            Ok(recipe) => outcome.recipe == recipe && outcome.error_message is None,
            Err(error) => {
                &&& outcome.recipe@ == RecipeView::empty()
                &&& outcome.error_message matches Some(message)
                &&& message@ == error.message_text()
            },
        },
{
    match loaded {
        Ok(recipe) => ResultRecipe::succeeded(recipe),
        Err(error) => ResultRecipe::failed(error.into_message()),
    }
}

} // verus!
