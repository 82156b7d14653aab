//! Machines group models.

use vstd::prelude::*;

use crate::model::resource::NamedApiResource;
use crate::model::resource::RefView;

verus! {

/// The view of one machine record.
pub ghost struct MachineView {
    /// The identifier for this resource.
    pub id: int,
    /// The reference to the corresponding item.
    pub item: RefView,
    /// The reference to the taught move.
    pub taught_move: RefView,
    /// The reference to the version group.
    pub version_group: RefView,
}

/// [Machine official documentation](https://pokeapi.co/docs/v2#machine)
#[derive(Default, Debug, Clone, PartialEq, Eq)]
pub struct Machine {
    /// The identifier for this resource.
    pub id: i64,
    /// The TM or HM item that corresponds to this machine.
    pub item: NamedApiResource,
    /// The move that is taught by this machine.
    pub move_: NamedApiResource,
    /// The version group that this machine applies to.
    pub version_group: NamedApiResource,
}

impl View for Machine {
    type V = MachineView;

    open spec fn view(&self) -> MachineView {
        MachineView {
            id: self.id as int,
            item: self.item@,
            taught_move: self.move_@,
            version_group: self.version_group@,
        }
    }
}

} // verus!
