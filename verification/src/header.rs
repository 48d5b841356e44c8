//! The header strip: the account's name, or the field to change it.

use vstd::prelude::*;

verus! {

/// What the title slot of the header shows.
#[derive(Debug, Clone, Copy, PartialEq, Eq, Structural)]
pub enum TitleSlot {
    /// The field for a new name.
    Editing,
    /// The name, with a pencil to change it.
    Name,
    /// The name of a Safe, which cannot be changed here.
    SafeName,
}

/// What the title slot of the header shows.
pub fn title_slot(renaming: bool, is_safe: bool) -> (r: TitleSlot)
    ensures
        r == if renaming {
            TitleSlot::Editing
        } else if is_safe {
            TitleSlot::SafeName
        } else {
            TitleSlot::Name
        },
{
    if renaming {
        TitleSlot::Editing
    } else if is_safe {
        TitleSlot::SafeName
    } else {
        TitleSlot::Name
    }
}

} // verus!
