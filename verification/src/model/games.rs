//! Games group models.

use vstd::prelude::*;

use crate::model::resource::descriptions_view;
use crate::model::resource::names_view;
use crate::model::resource::refs_view;
use crate::model::resource::Description;
use crate::model::resource::DescriptionView;
use crate::model::resource::Name;
use crate::model::resource::NameView;
use crate::model::resource::NamedApiResource;
use crate::model::resource::RefView;

verus! {

/// The view of one generation record.
pub ghost struct GenerationView {
    /// The identifier for this resource.
    pub id: int,
    /// The name for this resource.
    pub name: Seq<char>,
    /// The references to the abilities introduced in this generation.
    pub abilities: Seq<RefView>,
    /// The localized names.
    pub names: Seq<NameView>,
    /// The reference to the main region.
    pub main_region: RefView,
    /// The references to the moves introduced in this generation.
    pub moves: Seq<RefView>,
    /// The references to the species introduced in this generation.
    pub pokemon_species: Seq<RefView>,
    /// The references to the types introduced in this generation.
    pub types: Seq<RefView>,
    /// The references to the version groups of this generation.
    pub version_groups: Seq<RefView>,
}

/// The view of one Pokédex record.
pub ghost struct PokedexView {
    /// The identifier for this resource.
    pub id: int,
    /// The name for this resource.
    pub name: Seq<char>,
    /// Whether the Pokédex originated in the main series.
    pub is_main_series: bool,
    /// The localized descriptions.
    pub descriptions: Seq<DescriptionView>,
    /// The localized names.
    pub names: Seq<NameView>,
    /// The catalogued species and their indexes.
    pub pokemon_entries: Seq<EntryView>,
    /// The reference to the catalogued region, when there is one.
    pub region: Option<RefView>,
    /// The references to the relevant version groups.
    pub version_groups: Seq<RefView>,
}

/// The view of one Pokédex entry.
pub ghost struct EntryView {
    /// The index of the species within the Pokédex.
    pub entry_number: int,
    /// The reference to the species.
    pub pokemon_species: RefView,
}

/// The view of one version record.
pub ghost struct VersionView {
    /// The identifier for this resource.
    pub id: int,
    /// The name for this resource.
    pub name: Seq<char>,
    /// The localized names.
    pub names: Seq<NameView>,
    /// The reference to the owning version group.
    pub version_group: RefView,
}

/// The view of one version group record.
pub ghost struct VersionGroupView {
    /// The identifier for this resource.
    pub id: int,
    /// The name for this resource.
    pub name: Seq<char>,
    /// The sort order of the group.
    pub order: int,
    /// The reference to the introducing generation.
    pub generation: RefView,
    /// The references to the move learn methods.
    pub move_learn_methods: Seq<RefView>,
    /// The references to the introduced Pokédexes.
    pub pokedexes: Seq<RefView>,
    /// The references to the visitable regions.
    pub regions: Seq<RefView>,
    /// The references to the owned versions.
    pub versions: Seq<RefView>,
}

/// [Generation official documentation](https://pokeapi.co/docs/v2#generation)
#[derive(Default, Debug, Clone, PartialEq, Eq)]
pub struct Generation {
    /// The identifier for this resource.
    pub id: i64,
    /// The name for this resource.
    pub name: String,
    /// A list of abilities that were introduced in this generation.
    pub abilities: Vec<NamedApiResource>,
    /// The name of this resource listed in different languages.
    pub names: Vec<Name>,
    /// The main region travelled in this generation.
    pub main_region: NamedApiResource,
    /// A list of moves that were introduced in this generation.
    pub moves: Vec<NamedApiResource>,
    /// A list of Pokémon species that were introduced in this generation.
    pub pokemon_species: Vec<NamedApiResource>,
    /// A list of types that were introduced in this generation.
    pub types: Vec<NamedApiResource>,
    /// A list of version groups that were introduced in this generation.
    pub version_groups: Vec<NamedApiResource>,
}

impl View for Generation {
    type V = GenerationView;

    open spec fn view(&self) -> GenerationView {
        GenerationView {
            id: self.id as int,
            name: self.name@,
            abilities: refs_view(self.abilities@),
            names: names_view(self.names@),
            main_region: self.main_region@,
            moves: refs_view(self.moves@),
            pokemon_species: refs_view(self.pokemon_species@),
            types: refs_view(self.types@),
            version_groups: refs_view(self.version_groups@),
        }
    }
}

/// [Pokedex official documentation](https://pokeapi.co/docs/v2#pokedex)
#[derive(Default, Debug, Clone, PartialEq, Eq)]
pub struct Pokedex {
    /// The identifier for this resource.
    pub id: i64,
    /// The name for this resource.
    pub name: String,
    /// Whether or not this Pokédex originated in the main series of the video games.
    pub is_main_series: bool,
    /// The description of this resource listed in different languages.
    pub descriptions: Vec<Description>,
    /// The name of this resource listed in different languages.
    pub names: Vec<Name>,
    /// A list of Pokémon catalogued in this Pokédex and their indexes.
    pub pokemon_entries: Vec<PokemonEntry>,
    /// The region this Pokédex catalogues Pokémon for.
    pub region: Option<NamedApiResource>,
    /// A list of version groups this Pokédex is relevant to.
    pub version_groups: Vec<NamedApiResource>,
}

impl View for Pokedex {
    type V = PokedexView;

    open spec fn view(&self) -> PokedexView {
        PokedexView {
            id: self.id as int,
            name: self.name@,
            is_main_series: self.is_main_series,
            descriptions: descriptions_view(self.descriptions@),
            names: names_view(self.names@),
            pokemon_entries: entries_view(self.pokemon_entries@),
            region: match self.region {
                Some(r) => Some(r@),
                None => None,
            },
            version_groups: refs_view(self.version_groups@),
        }
    }
}

/// [PokemonEntry official documentation](https://pokeapi.co/docs/v2#pokemonentry)
#[derive(Default, Debug, Clone, PartialEq, Eq)]
pub struct PokemonEntry {
    /// The index of this Pokémon species entry within the Pokédex.
    pub entry_number: i64,
    /// The Pokémon species being encountered.
    pub pokemon_species: NamedApiResource,
}

impl View for PokemonEntry {
    type V = EntryView;

    open spec fn view(&self) -> EntryView {
        EntryView {
            entry_number: self.entry_number as int,
            pokemon_species: self.pokemon_species@,
        }
    }
}

/// The sequence of views of a list of Pokédex entries.
pub open spec fn entries_view(entries: Seq<PokemonEntry>) -> Seq<EntryView> {
    Seq::new(entries.len(), |i: int| entries[i]@)
}

/// [Version official documentation](https://pokeapi.co/docs/v2#version)
#[derive(Default, Debug, Clone, PartialEq, Eq)]
pub struct Version {
    /// The identifier for this resource.
    pub id: i64,
    /// The name for this resource.
    pub name: String,
    /// The name of this resource listed in different languages.
    pub names: Vec<Name>,
    /// The version group this version belongs to.
    pub version_group: NamedApiResource,
}

impl View for Version {
    type V = VersionView;

    open spec fn view(&self) -> VersionView {
        VersionView {
            id: self.id as int,
            name: self.name@,
            names: names_view(self.names@),
            version_group: self.version_group@,
        }
    }
}

/// [VersionGroup official documentation](https://pokeapi.co/docs/v2#versiongroup)
#[derive(Default, Debug, Clone, PartialEq, Eq)]
pub struct VersionGroup {
    /// The identifier for this resource.
    pub id: i64,
    /// The name for this resource.
    pub name: String,
    /// Order for sorting. Almost by date of release, except similar versions are grouped together.
    pub order: i64,
    /// The generation this version was introduced in.
    pub generation: NamedApiResource,
    /// A list of methods in which Pokémon can learn moves in this version group.
    pub move_learn_methods: Vec<NamedApiResource>,
    /// A list of Pokédexes introduces in this version group.
    pub pokedexes: Vec<NamedApiResource>,
    /// A list of regions that can be visited in this version group.
    pub regions: Vec<NamedApiResource>,
    /// The versions this version group owns.
    pub versions: Vec<NamedApiResource>,
}

impl View for VersionGroup {
    type V = VersionGroupView;

    open spec fn view(&self) -> VersionGroupView {
        VersionGroupView {
            id: self.id as int,
            name: self.name@,
            order: self.order as int,
            generation: self.generation@,
            move_learn_methods: refs_view(self.move_learn_methods@),
            pokedexes: refs_view(self.pokedexes@),
            regions: refs_view(self.regions@),
            versions: refs_view(self.versions@),
        }
    }
}

} // verus!
