use vstd::prelude::*;

verus! {

/// Slot of a menu button when a column of `count` buttons is laid out as
/// `2 * virtual_children` half-height children centred in the menu area.
/// Button `index` takes the two half slots from `slot_index`, so that the
/// buttons sit in the middle of the virtual children, leaving half-slot
/// margins above and below.
#[derive(Debug, Clone, Copy, PartialEq, Eq, Structural, Hash)]
pub struct MenuSlot {
    /// Index of the first half-height child that the button covers.
    pub slot_index: i128,
    /// Number of half-height children the menu area is divided into.
    pub num_children: u128,
}

/// Places button `index` of `count` in a menu laid out as
/// `virtual_children` full-height slots.
pub fn menu_slot(index: usize, count: usize, virtual_children: usize) -> (r: MenuSlot)
    ensures
        r.slot_index == 2 * index + virtual_children - (count + 1),
        r.num_children == 2 * virtual_children,
{
    MenuSlot {
        slot_index: 2 * (index as i128) + virtual_children as i128 - (count as i128 + 1),
        num_children: 2 * (virtual_children as u128),
    }
}

} // verus!
