use recipe_parser::error::ParseError;
use recipe_parser::types::recipe::{Ingredient, Process, Recipe, ResultRecipe};

#[test]
fn a_process_keeps_its_texts() {
    let process = Process::new("Steep".to_string(), "".to_string(), "3-4 min".to_string());
    assert_eq!(process.title(), "Steep");
    assert_eq!(process.description(), "");
    assert_eq!(process.time(), "3-4 min");
}

#[test]
fn an_ingredient_keeps_its_fields() {
    let ingredient = Ingredient::new("Sugar".to_string(), 1.5f64.to_bits(), "tsp".to_string());
    assert_eq!(ingredient.name(), "Sugar");
    assert_eq!(ingredient.quantity_bits(), 0x3FF8000000000000);
    assert_eq!(ingredient.unit(), "tsp");
}

#[test]
fn the_empty_recipe_holds_nothing() {
    let recipe = Recipe::empty();
    assert_eq!(recipe.name, "");
    assert!(recipe.url.is_none());
    assert!(recipe.ingredients.is_empty());
    assert!(recipe.steps.is_empty());
    assert!(recipe.processes.is_empty());
}

#[test]
fn a_succeeded_record_carries_the_recipe() {
    let mut recipe = Recipe::empty();
    recipe.name = "Toast".to_string();
    let outcome = ResultRecipe::succeeded(recipe);
    assert!(outcome.success);
    assert_eq!(outcome.recipe.name, "Toast");
    assert!(outcome.error_message.is_none());
}

#[test]
fn a_failed_record_carries_the_message() {
    let outcome = ResultRecipe::failed("broken".to_string());
    assert!(!outcome.success);
    assert_eq!(outcome.recipe.name, "");
    assert!(outcome.recipe.ingredients.is_empty());
    assert_eq!(outcome.error_message.as_deref(), Some("broken"));
}

#[test]
fn each_cause_has_its_text() {
    assert_eq!(ParseError::InvalidArgument.into_message(), "invalid argument: the path is empty");
    assert_eq!(
        ParseError::PathEncoding.into_message(),
        "invalid path: the path is not valid UTF-8"
    );
    assert_eq!(
        ParseError::FileAccess("Is a directory (os error 21)".to_string()).into_message(),
        "Is a directory (os error 21)"
    );
    assert_eq!(
        ParseError::Deserialization("missing field `steps`".to_string()).into_message(),
        "missing field `steps`"
    );
}

#[test]
fn an_outside_text_is_handed_on_unchanged() {
    assert_eq!(ParseError::FileAccess(String::new()).into_message(), "");
    assert_eq!(
        ParseError::Deserialization(" spaced\ttext\n".to_string()).into_message(),
        " spaced\ttext\n"
    );
}
