//! The record shapes that make up a recipe.

pub mod recipe;
