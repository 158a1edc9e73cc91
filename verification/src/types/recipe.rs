//! Recipe, ingredient and process records, with their mathematical views.

use crate::c_string::{c_string_of, is_c_string, nul_terminated};
use std::collections::HashMap;
use vstd::prelude::*;
use vstd::utf8::encode_utf8;

verus! {

/// What an [`Ingredient`] holds. The quantity is kept as the bit pattern of
/// the IEEE 754 double that the document gave, so that it is carried exactly
/// as written.
pub struct IngredientView {
    pub name: Seq<char>,
    pub quantity_bits: u64,
    pub unit: Seq<char>,
}

/// One ingredient line. The unit is free text.
#[derive(Debug)]
pub struct Ingredient {
    name: String,
    quantity_bits: u64,
    unit: String,
}

impl View for Ingredient {
    type V = IngredientView;

    closed spec fn view(&self) -> IngredientView {
        IngredientView { name: self.name@, quantity_bits: self.quantity_bits, unit: self.unit@ }
    }
}

impl DeepView for Ingredient {
    type V = IngredientView;

    open spec fn deep_view(&self) -> IngredientView {
        self@
    }
}

impl Ingredient {
    /// Builds an ingredient; `quantity_bits` is the bit pattern of the
    /// quantity as a double.
    pub fn new(name: String, quantity_bits: u64, unit: String) -> (ingredient: Ingredient)
        ensures
            ingredient@ == (IngredientView { name: name@, quantity_bits, unit: unit@ }),
    {
        Ingredient { name, quantity_bits, unit }
    }

    pub fn name(&self) -> (text: &String)
        ensures
            text@ == self@.name,
    {
        &self.name
    }

    /// The bit pattern of the quantity as a double.
    pub fn quantity_bits(&self) -> (bits: u64)
        ensures
            bits == self@.quantity_bits,
    {
        self.quantity_bits
    }

    pub fn unit(&self) -> (text: &String)
        ensures
            text@ == self@.unit,
    {
        &self.unit
    }
}

/// What a [`Process`] holds: three texts.
pub struct ProcessView {
    pub title: Seq<char>,
    pub description: Seq<char>,
    pub time: Seq<char>,
}

/// A named procedure block. The time is free text: its shape is not
/// constrained.
#[derive(Debug)]
pub struct Process {
    title: String,
    description: String,
    time: String,
}

impl View for Process {
    type V = ProcessView;

    closed spec fn view(&self) -> ProcessView {
        ProcessView { title: self.title@, description: self.description@, time: self.time@ }
    }
}

impl DeepView for Process {
    type V = ProcessView;

    open spec fn deep_view(&self) -> ProcessView {
        self@
    }
}

impl Process {
    /// Builds a process from its three texts.
    pub fn new(title: String, description: String, time: String) -> (process: Process)
        ensures
            process@ == (ProcessView { title: title@, description: description@, time: time@ }),
    {
        Process { title, description, time }
    }

    pub fn title(&self) -> (text: &String)
        ensures
            text@ == self@.title,
    {
        &self.title
    }

    pub fn description(&self) -> (text: &String)
        ensures
            text@ == self@.description,
    {
        &self.description
    }

    pub fn time(&self) -> (text: &String)
        ensures
            text@ == self@.time,
    {
        &self.time
    }
}

/// What a [`Recipe`] holds: the ingredients in document order, and the two
/// identifier-keyed tables. A step may exist without a process attached.
pub struct RecipeView {
    pub name: Seq<char>,
    pub url: Option<Seq<char>>,
    pub ingredients: Seq<IngredientView>,
    pub steps: Map<Seq<char>, Option<ProcessView>>,
    pub processes: Map<Seq<char>, ProcessView>,
}

impl RecipeView {
    /// The recipe that holds nothing: empty name, no url, no ingredient, no
    /// step and no process.
    pub open spec fn empty() -> RecipeView {
        RecipeView {
            name: Seq::empty(),
            url: None,
            ingredients: Seq::empty(),
            steps: Map::empty(),
            processes: Map::empty(),
        }
    }
}

/// The parsed document. Identifiers in `steps` and in `processes` share a
/// namespace by convention only: neither table is checked against the other.
#[derive(Debug)]
pub struct Recipe {
    pub name: String,
    pub url: Option<String>,
    pub ingredients: Vec<Ingredient>,
    pub steps: HashMap<String, Option<Process>>,
    pub processes: HashMap<String, Process>,
}

impl View for Recipe {
    type V = RecipeView;

    open spec fn view(&self) -> RecipeView {
        RecipeView {
            name: self.name@,
            url: self.url.deep_view(),
            ingredients: self.ingredients.deep_view(),
            steps: self.steps.deep_view(),
            processes: self.processes.deep_view(),
        }
    }
}

impl Recipe {
    /// A fresh recipe that holds nothing.
    pub fn empty() -> (recipe: Recipe)
        ensures
            recipe@ == RecipeView::empty(),
    {
        let recipe = Recipe {
            name: String::new(),
            url: None,
            ingredients: Vec::new(),
            steps: HashMap::new(),
            processes: HashMap::new(),
        };
        proof {
            broadcast use vstd::std_specs::hash::lemma_hashmap_deepview_dom;

            assert(recipe.ingredients.deep_view() =~= Seq::empty());
            assert(recipe.steps.deep_view() =~= Map::empty());
            assert(recipe.processes.deep_view() =~= Map::empty());
        }
        recipe
    }
}

/// The record handed to a foreign caller: a flag, the recipe, and the
/// diagnostic of a failure. The caller may read the recipe before the flag,
/// so on failure it is the empty recipe.
#[derive(Debug)]
pub struct ResultRecipe {
    pub success: bool,
    pub recipe: Recipe,
    pub error_message: Option<String>,
}

impl ResultRecipe {
    /// A diagnostic is present exactly on failure, and a failure carries the
    /// empty recipe.
    pub open spec fn well_formed(&self) -> bool {
        &&& self.success <==> self.error_message is None
        &&& !self.success ==> self.recipe@ == RecipeView::empty()
    }

    /// The record of a successful parse: it carries `recipe` and no diagnostic.
    pub fn succeeded(recipe: Recipe) -> (outcome: ResultRecipe)
        ensures
            outcome.success,
            outcome.recipe == recipe,
            outcome.error_message is None,
            outcome.well_formed(),
    {
        ResultRecipe { success: true, recipe, error_message: None }
    }

    /// The record of a failed parse: it carries `message` and a fresh empty
    /// recipe.
    pub fn failed(message: String) -> (outcome: ResultRecipe)
        ensures
            !outcome.success,
            outcome.recipe@ == RecipeView::empty(),
            outcome.error_message == Some(message),
            outcome.well_formed(),
    {
        ResultRecipe { success: false, recipe: Recipe::empty(), error_message: Some(message) }
    }

    /// The diagnostic as the foreign caller reads it: nothing where there is
    /// none, else its UTF-8 bytes framed as one foreign string.
    pub fn error_c_string(&self) -> (framed: Option<Vec<u8>>)
        ensures
            match self.error_message {
                None => framed is None,
                Some(message) => {
                    &&& framed matches Some(bytes)
                    &&& bytes@ == c_string_of(encode_utf8(message@))
                    &&& is_c_string(bytes@)
                },
            },
    {
        match &self.error_message {
            None => None,
            Some(message) => Some(nul_terminated(message.as_str())),
        }
    }
}

} // verus!
