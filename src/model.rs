use vstd::prelude::*;

use crate::text::{has_prefix, name_has_prefix};

verus! {

/// One selectable species of the catalog: its name and the address of its
/// full record.
pub struct CatalogEntry {
    pub name: String,
    pub url: String,
}

/// The full record of one species.
pub struct Species {
    pub name: String,
}

/// One base stat of a pokemon: the stat's name and its value.
pub struct BaseStat {
    pub name: String,
    pub value: i64,
}

/// The full record of one pokemon, a form of a species.
pub struct Pokemon {
    pub name: String,
    pub sprite: Option<String>,
    pub stats: Vec<BaseStat>,
}

/// A species together with the pokemon resolved for it in the same load.
pub struct SelectedPokemonSpecies {
    pub species: Species,
    pub pokemon: Vec<Pokemon>,
}

impl CatalogEntry {
    pub fn new(name: String, url: String) -> (r: Self)
        ensures
            r.name == name,
            r.url == url,
    {
        CatalogEntry { name, url }
    }

    /// A copy of this entry.
    pub fn duplicate(&self) -> (r: Self)
        ensures
            r == *self,
    {
        CatalogEntry { name: self.name.clone(), url: self.url.clone() }
    }
}

/// A copy of a sequence of entries.
pub fn duplicate_entries(v: &Vec<CatalogEntry>) -> (r: Vec<CatalogEntry>)
    ensures
        r@ == v@,
{
    let mut r: Vec<CatalogEntry> = Vec::new();
    let mut i: usize = 0;
    while i < v.len()
        invariant
            i <= v@.len(),
            r@ == v@.take(i as int),
        decreases v@.len() - i,
    {
        r.push(v[i].duplicate());
        i = i + 1;
        assert(r@ =~= v@.take(i as int));
    }
    assert(r@ =~= v@);
    r
}

impl Species {
    pub fn new(name: String) -> (r: Self)
        ensures
            r.name == name,
    {
        Species { name }
    }

    /// A copy of this record.
    pub fn duplicate(&self) -> (r: Self)
        ensures
            r == *self,
    {
        Species { name: self.name.clone() }
    }
}

impl BaseStat {
    pub fn new(name: String, value: i64) -> (r: Self)
        ensures
            r.name == name,
            r.value == value,
    {
        BaseStat { name, value }
    }

    /// A copy of this stat.
    pub fn duplicate(&self) -> (r: Self)
        ensures
            r == *self,
    {
        BaseStat { name: self.name.clone(), value: self.value }
    }
}

impl Pokemon {
    pub fn new(name: String, sprite: Option<String>, stats: Vec<BaseStat>) -> (r: Self)
        ensures
            r.name == name,
            r.sprite == sprite,
            r.stats == stats,
    {
        Pokemon { name, sprite, stats }
    }

    /// A copy of this record.
    pub fn duplicate(&self) -> (r: Self)
        ensures
            r.name == self.name,
            r.sprite == self.sprite,
            r.stats@ == self.stats@,
    {
        let sprite = match &self.sprite {
            Some(s) => Some(s.clone()),
            None => None,
        };
        let mut stats: Vec<BaseStat> = Vec::new();
        let mut i: usize = 0;
        while i < self.stats.len()
            invariant
                i <= self.stats@.len(),
                stats@ == self.stats@.take(i as int),
            decreases self.stats@.len() - i,
        {
            stats.push(self.stats[i].duplicate());
            i = i + 1;
            assert(stats@ =~= self.stats@.take(i as int));
        }
        assert(stats@ =~= self.stats@);
        Pokemon { name: self.name.clone(), sprite, stats }
    }
}

/// Every pokemon's name starts with the species' name.
pub open spec fn forms_of(species: Species, pokemon: Seq<Pokemon>) -> bool {
    forall|i: int| 0 <= i < pokemon.len() ==> name_has_prefix(#[trigger] pokemon[i].name@, species.name@)
}

impl SelectedPokemonSpecies {
    pub fn new(species: Species, pokemon: Vec<Pokemon>) -> (r: Self)
        ensures
            r.species == species,
            r.pokemon == pokemon,
    {
        Self { species, pokemon }
    }

    /// A copy of this selection: the same species, and pokemon with the
    /// same names, sprites and stats in the same order.
    pub fn duplicate(&self) -> (r: Self)
        ensures
            r.species == self.species,
            r.pokemon@.len() == self.pokemon@.len(),
            forall|i: int|
                0 <= i < self.pokemon@.len() ==> {
                    &&& (#[trigger] r.pokemon@[i]).name == self.pokemon@[i].name
                    &&& r.pokemon@[i].sprite == self.pokemon@[i].sprite
                    &&& r.pokemon@[i].stats@ == self.pokemon@[i].stats@
                },
    {
        let mut pokemon: Vec<Pokemon> = Vec::new();
        let mut i: usize = 0;
        while i < self.pokemon.len()
            invariant
                i <= self.pokemon@.len(),
                pokemon@.len() == i,
                forall|j: int|
                    0 <= j < i ==> {
                        &&& (#[trigger] pokemon@[j]).name == self.pokemon@[j].name
                        &&& pokemon@[j].sprite == self.pokemon@[j].sprite
                        &&& pokemon@[j].stats@ == self.pokemon@[j].stats@
                    },
            decreases self.pokemon@.len() - i,
        {
            pokemon.push(self.pokemon[i].duplicate());
            i = i + 1;
        }
        Self { species: self.species.duplicate(), pokemon }
    }

    /// The pokemon all answer to the species they are paired with.
    pub open spec fn wf(&self) -> bool {
        forms_of(self.species, self.pokemon@)
    }

    /// Tells whether every pokemon's name starts with the species' name.
    pub fn is_consistent(&self) -> (r: bool)
        ensures
            r == self.wf(),
    {
        let mut i: usize = 0;
        while i < self.pokemon.len()
            invariant
                i <= self.pokemon@.len(),
                forall|j: int| 0 <= j < i ==> name_has_prefix(#[trigger] self.pokemon@[j].name@, self.species.name@),
            decreases self.pokemon@.len() - i,
        {
            if !has_prefix(self.pokemon[i].name.as_str(), self.species.name.as_str()) {
                return false;
            }
            i = i + 1;
        }
        true
    }
}

} // verus!
