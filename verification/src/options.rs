//! The options that a switch offers.
use vstd::prelude::*;

verus! {

/// The glyph that stands for an option.
#[derive(Clone, Copy, Debug, PartialEq, Eq, Structural, Hash)]
pub enum Icon {
    /// A cogwheel.
    Cogwheel,
    /// A crescent moon.
    Moon,
    /// A sun.
    Sun,
}

/// One selectable option: the value it stands for, its glyph and its name.
#[derive(Debug)]
pub struct SwitchOption<T> {
    pub value: T,
    pub icon: Icon,
    pub label: &'static str,
}

} // verus!
