//! Common models: the reference primitives and the small value records
//! shared by every resource group.
//!
//! A reference is a lightweight pointer (name and URL, or URL only) to
//! another resource, not yet fetched; the kind it points to is fixed by the
//! call site that obtained it. The mathematical model of each record is its
//! view, a ghost value over sequences of characters.

use vstd::prelude::*;

verus! {

/// The view of a named reference: both fields as character sequences.
pub ghost struct RefView {
    /// The referenced resource's name.
    pub name: Seq<char>,
    /// The referenced resource's URL.
    pub url: Seq<char>,
}

/// The view of one index page.
pub ghost struct PageView {
    /// The total number of resources available from the API.
    pub count: int,
    /// The URL for the next page, if more items remain.
    pub next: Option<Seq<char>>,
    /// The URL for the previous page, if any came before.
    pub previous: Option<Seq<char>>,
    /// The references listed on this page, in wire order.
    pub results: Seq<RefView>,
}

/// A pointer to a named resource: the target's name, and the URL of its
/// full document.
#[derive(Default, Debug, Clone, PartialEq, Eq)]
pub struct NamedApiResource {
    /// The name of the referenced resource.
    pub name: String,
    /// The URL of the referenced resource.
    pub url: String,
}

impl View for NamedApiResource {
    type V = RefView;

    open spec fn view(&self) -> RefView {
        RefView { name: self.name@, url: self.url@ }
    }
}

/// A pointer to an anonymous resource, for the few kinds that are never
/// indexed by name: only the URL of the full document.
#[derive(Default, Debug, Clone, PartialEq, Eq)]
pub struct ApiResource {
    /// The URL of the referenced resource.
    pub url: String,
}

impl View for ApiResource {
    type V = Seq<char>;

    open spec fn view(&self) -> Seq<char> {
        self.url@
    }
}

/// The sequence of views of a list of named references.
pub open spec fn refs_view(refs: Seq<NamedApiResource>) -> Seq<RefView> {
    Seq::new(refs.len(), |i: int| refs[i]@)
}

/// One page of an index listing over named references.
#[derive(Default, Debug, Clone, PartialEq, Eq)]
pub struct NamedApiResourceList {
    /// The total number of resources available from the API.
    pub count: i64,
    /// The URL for the next page in the list.
    pub next: Option<String>,
    /// The URL for the previous page in the list.
    pub previous: Option<String>,
    /// A list of named API resources.
    pub results: Vec<NamedApiResource>,
}

impl View for NamedApiResourceList {
    type V = PageView;

    open spec fn view(&self) -> PageView {
        PageView {
            count: self.count as int,
            next: match self.next {
                Some(s) => Some(s@),
                None => None,
            },
            previous: match self.previous {
                Some(s) => Some(s@),
                None => None,
            },
            results: refs_view(self.results@),
        }
    }
}

/// The view of one index page of anonymous references.
pub ghost struct AnonPageView {
    /// The total number of resources available from the API.
    pub count: int,
    /// The URL for the next page, if more items remain.
    pub next: Option<Seq<char>>,
    /// The URL for the previous page, if any came before.
    pub previous: Option<Seq<char>>,
    /// The URLs listed on this page, in wire order.
    pub results: Seq<Seq<char>>,
}

/// The sequence of views of a list of anonymous references.
pub open spec fn anon_refs_view(refs: Seq<ApiResource>) -> Seq<Seq<char>> {
    Seq::new(refs.len(), |i: int| refs[i]@)
}

/// One page of an index listing over anonymous references.
#[derive(Default, Debug, Clone, PartialEq, Eq)]
pub struct ApiResourceList {
    /// The total number of resources available from the API.
    pub count: i64,
    /// The URL for the next page in the list.
    pub next: Option<String>,
    /// The URL for the previous page in the list.
    pub previous: Option<String>,
    /// A list of anonymous API resources.
    pub results: Vec<ApiResource>,
}

impl View for ApiResourceList {
    type V = AnonPageView;

    open spec fn view(&self) -> AnonPageView {
        AnonPageView {
            count: self.count as int,
            next: match self.next {
                Some(s) => Some(s@),
                None => None,
            },
            previous: match self.previous {
                Some(s) => Some(s@),
                None => None,
            },
            results: anon_refs_view(self.results@),
        }
    }
}

/// The view of one localized description.
pub ghost struct DescriptionView {
    /// The localized description itself.
    pub description: Seq<char>,
    /// The reference to the language the description is in.
    pub language: RefView,
}

/// The localized description of a resource in one language.
#[derive(Default, Debug, Clone, PartialEq, Eq)]
pub struct Description {
    /// The localized description for an API resource in a specific language.
    pub description: String,
    /// The language this description is in.
    pub language: NamedApiResource,
}

impl View for Description {
    type V = DescriptionView;

    open spec fn view(&self) -> DescriptionView {
        DescriptionView { description: self.description@, language: self.language@ }
    }
}

/// The sequence of views of a list of localized descriptions.
pub open spec fn descriptions_view(descriptions: Seq<Description>) -> Seq<DescriptionView> {
    Seq::new(descriptions.len(), |i: int| descriptions[i]@)
}

/// The localized effect text of a resource in one language.
#[derive(Default, Debug, Clone, PartialEq, Eq)]
pub struct Effect {
    /// The localized effect text for an API resource in a specific language.
    pub effect: String,
    /// The language this effect is in.
    pub language: NamedApiResource,
}

/// The conditions and odds of one encounter.
#[derive(Default, Debug, Clone, PartialEq, Eq)]
pub struct Encounter {
    /// The lowest level the Pokémon could be encountered at.
    pub min_level: i64,
    /// The highest level the Pokémon could be encountered at.
    pub max_level: i64,
    /// A list of condition values that must be in effect for this encounter to occur.
    pub condition_values: Vec<NamedApiResource>,
    /// Percent chance that this encounter will occur.
    pub chance: i64,
    /// The method by which this encounter happens.
    pub method: NamedApiResource,
}

/// The localized flavor text of a resource in one language.
#[derive(Default, Debug, Clone, PartialEq, Eq)]
pub struct FlavorText {
    /// The localized flavor text for an API resource in a specific language.
    pub flavor_text: String,
    /// The language this flavor text is in.
    pub language: NamedApiResource,
    /// The game version this flavor text is extracted from.
    pub version: Option<NamedApiResource>,
}

/// A game index of a resource within a generation.
#[derive(Default, Debug, Clone, PartialEq, Eq)]
pub struct GenerationGameIndex {
    /// The internal id of an API resource within game data.
    pub game_index: i64,
    /// The generation relevant to this game index.
    pub generation: NamedApiResource,
}

/// The machine teaching a move in one version group.
#[derive(Default, Debug, Clone, PartialEq, Eq)]
pub struct MachineVersionDetail {
    /// The machine that teaches a move from an item.
    pub machine: ApiResource,
    /// The version group of this specific machine.
    pub version_group: NamedApiResource,
}

/// The view of one localized name.
pub ghost struct NameView {
    /// The localized name itself.
    pub name: Seq<char>,
    /// The reference to the language the name is in.
    pub language: RefView,
}

/// The localized name of a resource in one language.
#[derive(Default, Debug, Clone, PartialEq, Eq)]
pub struct Name {
    /// The localized name for an API resource in a specific language.
    pub name: String,
    /// The language this name is in.
    pub language: NamedApiResource,
}

impl View for Name {
    type V = NameView;

    open spec fn view(&self) -> NameView {
        NameView { name: self.name@, language: self.language@ }
    }
}

/// The sequence of views of a list of localized names.
pub open spec fn names_view(names: Seq<Name>) -> Seq<NameView> {
    Seq::new(names.len(), |i: int| names[i]@)
}

/// The localized effect text of a resource, in long and brief form.
#[derive(Default, Debug, Clone, PartialEq, Eq)]
pub struct VerboseEffect {
    /// The localized effect text for an API resource in a specific language.
    pub effect: String,
    /// The localized effect text in brief.
    pub short_effect: String,
    /// The language this effect is in.
    pub language: NamedApiResource,
}

/// The encounters within one game version.
#[derive(Default, Debug, Clone, PartialEq, Eq)]
pub struct VersionEncounterDetail {
    /// The game version this encounter happens in.
    pub version: NamedApiResource,
    /// The total percentage of all encounter potential.
    pub max_chance: i64,
    /// A list of encounters and their specifics.
    pub encounter_details: Vec<Encounter>,
}

/// A game index of a resource within one version.
#[derive(Default, Debug, Clone, PartialEq, Eq)]
pub struct VersionGameIndex {
    /// The internal id of an API resource within game data.
    pub game_index: i64,
    /// The version relevant to this game index.
    pub version: NamedApiResource,
}

/// The localized flavor text used by one version group.
#[derive(Default, Debug, Clone, PartialEq, Eq)]
pub struct VersionGroupFlavorText {
    /// The localized flavor text for an API resource in a specific language.
    pub text: String,
    /// The language this flavor text is in.
    pub language: NamedApiResource,
    /// The version group which uses this flavor text.
    pub version_group: NamedApiResource,
}

} // verus!
