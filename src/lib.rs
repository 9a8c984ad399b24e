//! Shared state and fetch orchestration for a species browser.
//!
//! The remote client and the user interface live outside this library: they
//! hand listings and records to it as plain values and read its slots back.
mod catalog;
mod model;
mod state;
mod str_ext;
mod text;

pub use catalog::{
    lemma_resolved_candidates_answer_to_species, select_candidates, sort_by_name, sorted_by_name, with_prefix,
};
pub use model::{
    duplicate_entries, forms_of, BaseStat, CatalogEntry, Pokemon, SelectedPokemonSpecies, Species,
};
pub use state::{AnyFlag, MatchingSelection, SharedState, SortedCatalog};
pub use str_ext::{capitalized, starts_narrow, upper_of, StrExt};
pub use text::{bytes_le, has_prefix, name_bytes, name_has_prefix, name_le, names_in_order};
