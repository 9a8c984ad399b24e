use vstd::prelude::*;
use vstd::rwlock::{RwLock, RwLockPredicate};

use crate::catalog::{sort_by_name, sorted_by_name};
use crate::model::{
    duplicate_entries, forms_of, CatalogEntry, Pokemon, SelectedPokemonSpecies, Species,
};

verus! {

/// The loading flag may hold either value.
pub struct AnyFlag {}

impl RwLockPredicate<bool> for AnyFlag {
    open spec fn inv(self, v: bool) -> bool {
        true
    }
}

/// A catalog slot holds nothing, or a catalog sorted by name.
pub struct SortedCatalog {}

impl RwLockPredicate<Option<Vec<CatalogEntry>>> for SortedCatalog {
    open spec fn inv(self, v: Option<Vec<CatalogEntry>>) -> bool {
        v matches Some(c) ==> sorted_by_name(c@)
    }
}

/// A selection slot holds nothing, or a species with its own pokemon.
pub struct MatchingSelection {}

impl RwLockPredicate<Option<SelectedPokemonSpecies>> for MatchingSelection {
    open spec fn inv(self, v: Option<SelectedPokemonSpecies>) -> bool {
        v matches Some(b) ==> b.wf()
    }
}

/// The state that background loads write and the user interface reads:
/// three slots, each behind its own lock, so that a writer of one slot never
/// holds up a reader of another and a reader always sees a whole value.
pub struct SharedState {
    loading: RwLock<bool, AnyFlag>,
    catalog: RwLock<Option<Vec<CatalogEntry>>, SortedCatalog>,
    selection: RwLock<Option<SelectedPokemonSpecies>, MatchingSelection>,
}

impl SharedState {
    #[verifier::type_invariant]
    spec fn slots_guarded(&self) -> bool {
        &&& self.loading.pred() == AnyFlag {}
        &&& self.catalog.pred() == SortedCatalog {}
        &&& self.selection.pred() == MatchingSelection {}
    }

    /// Fresh state: not loading, no catalog, no selection.
    pub fn new() -> (r: Self) {
        SharedState {
            loading: RwLock::new(false, Ghost(AnyFlag {})),
            catalog: RwLock::new(None, Ghost(SortedCatalog {})),
            selection: RwLock::new(None, Ghost(MatchingSelection {})),
        }
    }

    /// Overwrites the loading flag.
    pub fn set_loading(&self, v: bool) {
        proof {
            use_type_invariant(self);
        }
        let (_, handle) = self.loading.acquire_write();
        handle.release_write(v);
    }

    /// The loading flag as it stands now.
    pub fn read_loading(&self) -> bool {
        let handle = self.loading.acquire_read();
        let v = *handle.borrow();
        handle.release_read();
        v
    }

    /// Overwrites the catalog slot.
    pub fn replace_catalog(&self, v: Option<Vec<CatalogEntry>>)
        requires
            v matches Some(c) ==> sorted_by_name(c@),
    {
        proof {
            use_type_invariant(self);
        }
        let (_, handle) = self.catalog.acquire_write();
        handle.release_write(v);
    }

    /// A copy of the catalog slot as it stands now: absent, or a whole
    /// catalog sorted by name.
    pub fn read_catalog(&self) -> (r: Option<Vec<CatalogEntry>>)
        ensures
            r matches Some(c) ==> sorted_by_name(c@),
    {
        proof {
            use_type_invariant(self);
        }
        let handle = self.catalog.acquire_read();
        let r = match handle.borrow() {
            Some(c) => Some(duplicate_entries(c)),
            None => None,
        };
        handle.release_read();
        r
    }

    /// Overwrites the selection slot.
    pub fn replace_selection(&self, v: Option<SelectedPokemonSpecies>)
        requires
            v matches Some(b) ==> b.wf(),
    {
        proof {
            use_type_invariant(self);
        }
        let (_, handle) = self.selection.acquire_write();
        handle.release_write(v);
    }

    /// A copy of the selection slot as it stands now: absent, or a species
    /// paired with its own pokemon.
    pub fn read_selection(&self) -> (r: Option<SelectedPokemonSpecies>)
        ensures
            r matches Some(b) ==> b.wf(),
    {
        proof {
            use_type_invariant(self);
        }
        let handle = self.selection.acquire_read();
        let r = match handle.borrow() {
            Some(b) => Some(b.duplicate()),
            None => None,
        };
        handle.release_read();
        r
    }

    /// First step of a catalog load: loading, and no catalog.
    pub fn begin_load_catalog(&self) {
        self.set_loading(true);
        self.replace_catalog(None);
    }

    /// Last step of a catalog load: the fetched listing, sorted by name,
    /// becomes the catalog, and loading ends.
    pub fn finish_load_catalog(&self, fetched: Vec<CatalogEntry>) -> (published: usize)
        ensures
            published == fetched@.len(),
    {
        let sorted = sort_by_name(fetched);
        proof {
            sorted@.to_multiset_ensures();
            fetched@.to_multiset_ensures();
        }
        let n = sorted.len();
        self.replace_catalog(Some(sorted));
        self.set_loading(false);
        n
    }

    /// First step of a selection load: loading, and no selection.
    pub fn begin_load_selection(&self) {
        self.set_loading(true);
        self.replace_selection(None);
    }

    /// Last step of a selection load. Where every pokemon's name starts with
    /// the species' name, the pair becomes the selection, loading ends and
    /// the result is true; otherwise nothing is written and the result is
    /// false.
    pub fn finish_load_selection(&self, species: Species, pokemon: Vec<Pokemon>) -> (r: bool)
        ensures
            r == forms_of(species, pokemon@),
    {
        let bundle = SelectedPokemonSpecies::new(species, pokemon);
        if !bundle.is_consistent() {
            return false;
        }
        self.replace_selection(Some(bundle));
        self.set_loading(false);
        true
    }
}

} // verus!
