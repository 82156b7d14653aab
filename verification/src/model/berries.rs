//! Berries group models.

use vstd::prelude::*;

use crate::model::resource::refs_view;
use crate::model::resource::Name;
use crate::model::resource::NameView;
use crate::model::resource::NamedApiResource;
use crate::model::resource::RefView;

verus! {

/// The view of one berry record.
pub ghost struct BerryView {
    /// The identifier for this resource.
    pub id: int,
    /// The name for this resource.
    pub name: Seq<char>,
    /// Hours per growth stage.
    pub growth_time: int,
    /// The maximum harvest per tree.
    pub max_harvest: int,
    /// The power of "Natural Gift" with this berry.
    pub natural_gift_power: int,
    /// The berry's size in millimeters.
    pub size: int,
    /// The berry's smoothness.
    pub smoothness: int,
    /// The soil-drying rate.
    pub soil_dryness: int,
    /// The reference to the berry's firmness.
    pub firmness: RefView,
    /// The berry's flavor potencies.
    pub flavors: Seq<FlavorMapView>,
    /// The reference to the berry's item data.
    pub item: RefView,
    /// The reference to the type "Natural Gift" inherits.
    pub natural_gift_type: RefView,
}

/// The view of one flavor potency entry of a berry.
pub ghost struct FlavorMapView {
    /// How powerful the flavor is.
    pub potency: int,
    /// The reference to the flavor.
    pub flavor: RefView,
}

/// The view of one berry entry of a flavor.
pub ghost struct BerryMapView {
    /// How powerful the flavor is for this berry.
    pub potency: int,
    /// The reference to the berry.
    pub berry: RefView,
}

/// The view of one berry firmness record.
pub ghost struct FirmnessView {
    /// The identifier for this resource.
    pub id: int,
    /// The name for this resource.
    pub name: Seq<char>,
    /// The berries with this firmness.
    pub berries: Seq<RefView>,
    /// The localized names.
    pub names: Seq<NameView>,
}

/// The view of one berry flavor record.
pub ghost struct BerryFlavorView {
    /// The identifier for this resource.
    pub id: int,
    /// The name for this resource.
    pub name: Seq<char>,
    /// The berries with this flavor.
    pub berries: Seq<BerryMapView>,
    /// The reference to the correlated contest type.
    pub contest_type: RefView,
    /// The localized names.
    pub names: Seq<NameView>,
}

/// Berries are small fruits that can provide HP and status condition
/// restoration, stat enhancement, and even damage negation when eaten by
/// Pokémon.
#[derive(Default, Debug, Clone, PartialEq, Eq)]
pub struct Berry {
    /// The identifier for this resource.
    pub id: i64,
    /// The name for this resource.
    pub name: String,
    /// Time it takes the tree to grow one stage, in hours.
    /// Berry trees go through four of these growth stages before they can be picked.
    pub growth_time: i64,
    /// The maximum number of these berries that can grow on one tree in Generation IV.
    pub max_harvest: i64,
    /// The power of the move "Natural Gift" when used with this Berry.
    pub natural_gift_power: i64,
    /// The size of this Berry, in millimeters.
    pub size: i64,
    /// The smoothness of this Berry, used in making Pokéblocks or Poffins.
    pub smoothness: i64,
    /// The speed at which this Berry dries out the soil as it grows.
    /// A higher rate means the soil dries more quickly.
    pub soil_dryness: i64,
    /// The firmness of this berry, used in making Pokéblocks or Poffins.
    pub firmness: NamedApiResource,
    /// A list of references to each flavor a berry can have and the potency
    /// of each of those flavors in regard to this berry.
    pub flavors: Vec<BerryFlavorMap>,
    /// Berries are actually items. This is a reference to the item specific data for this berry.
    pub item: NamedApiResource,
    /// The type inherited by "Natural Gift" when used with this Berry.
    pub natural_gift_type: NamedApiResource,
}

/// The potency of one flavor for one berry.
#[derive(Default, Debug, Clone, PartialEq, Eq)]
pub struct BerryFlavorMap {
    /// How powerful the referenced flavor is for this berry.
    pub potency: i64,
    /// The referenced berry flavor.
    pub flavor: NamedApiResource,
}

impl View for BerryFlavorMap {
    type V = FlavorMapView;

    open spec fn view(&self) -> FlavorMapView {
        FlavorMapView { potency: self.potency as int, flavor: self.flavor@ }
    }
}

/// The sequence of views of a list of flavor potencies.
pub open spec fn flavor_maps_view(maps: Seq<BerryFlavorMap>) -> Seq<FlavorMapView> {
    Seq::new(maps.len(), |i: int| maps[i]@)
}

impl View for Berry {
    type V = BerryView;

    open spec fn view(&self) -> BerryView {
        BerryView {
            id: self.id as int,
            name: self.name@,
            growth_time: self.growth_time as int,
            max_harvest: self.max_harvest as int,
            natural_gift_power: self.natural_gift_power as int,
            size: self.size as int,
            smoothness: self.smoothness as int,
            soil_dryness: self.soil_dryness as int,
            firmness: self.firmness@,
            flavors: flavor_maps_view(self.flavors@),
            item: self.item@,
            natural_gift_type: self.natural_gift_type@,
        }
    }
}

/// Berries can be soft or hard.
#[derive(Default, Debug, Clone, PartialEq, Eq)]
pub struct BerryFirmness {
    /// The identifier for this resource.
    pub id: i64,
    /// The name for this resource.
    pub name: String,
    /// A list of the berries with this firmness.
    pub berries: Vec<NamedApiResource>,
    /// The name of this resource listed in different languages.
    pub names: Vec<Name>,
}

impl View for BerryFirmness {
    type V = FirmnessView;

    open spec fn view(&self) -> FirmnessView {
        FirmnessView {
            id: self.id as int,
            name: self.name@,
            berries: refs_view(self.berries@),
            names: crate::model::resource::names_view(self.names@),
        }
    }
}

/// The berry with one referenced flavor.
#[derive(Default, Debug, Clone, PartialEq, Eq)]
pub struct FlavorBerryMap {
    /// How powerful the referenced flavor is for this berry.
    pub potency: i64,
    /// The berry with the referenced flavor.
    pub berry: NamedApiResource,
}

impl View for FlavorBerryMap {
    type V = BerryMapView;

    open spec fn view(&self) -> BerryMapView {
        BerryMapView { potency: self.potency as int, berry: self.berry@ }
    }
}

/// The sequence of views of a list of berry entries.
pub open spec fn berry_maps_view(maps: Seq<FlavorBerryMap>) -> Seq<BerryMapView> {
    Seq::new(maps.len(), |i: int| maps[i]@)
}

/// Flavors determine whether a Pokémon will benefit or suffer from eating
/// a berry based on their nature.
#[derive(Default, Debug, Clone, PartialEq, Eq)]
pub struct BerryFlavor {
    /// The identifier for this resource.
    pub id: i64,
    /// The name for this resource.
    pub name: String,
    /// A list of the berries with this flavor.
    pub berries: Vec<FlavorBerryMap>,
    /// The contest type that correlates with this berry flavor.
    pub contest_type: NamedApiResource,
    /// The name of this resource listed in different languages.
    pub names: Vec<Name>,
}

impl View for BerryFlavor {
    type V = BerryFlavorView;

    open spec fn view(&self) -> BerryFlavorView {
        BerryFlavorView {
            id: self.id as int,
            name: self.name@,
            berries: berry_maps_view(self.berries@),
            contest_type: self.contest_type@,
            names: crate::model::resource::names_view(self.names@),
        }
    }
}

} // verus!
