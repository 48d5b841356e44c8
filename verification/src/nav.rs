//! The dashboard's top-level navigation.

use vstd::prelude::*;

verus! {

/// The panes that the sidebar leads to.
#[derive(Debug, Clone, Copy, PartialEq, Eq, Structural)]
pub enum Nav {
    Home,
    Apps,
    Activity,
    Settings,
}

} // verus!
