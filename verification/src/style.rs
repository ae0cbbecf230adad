//! The part of the toolkit's style that the switch consumes.
use vstd::prelude::*;

use crate::geometry::{spec_min, Vec2};

verus! {

/// A colour: red, green, blue and alpha, with alpha already multiplied in.
#[derive(Clone, Copy, Debug, PartialEq, Eq, Structural, Hash)]
pub struct Color32 {
    pub r: u8,
    pub g: u8,
    pub b: u8,
    pub a: u8,
}

impl Color32 {
    /// The colour that leaves what is beneath it untouched.
    pub open spec fn spec_transparent() -> Color32 {
        Color32 { r: 0, g: 0, b: 0, a: 0 }
    }

    #[verifier::when_used_as_spec(spec_transparent)]
    pub fn transparent() -> (c: Color32)
        ensures
            c == Color32::spec_transparent(),
    {
        Color32 { r: 0, g: 0, b: 0, a: 0 }
    }

    pub fn from_rgba_premultiplied(r: u8, g: u8, b: u8, a: u8) -> (c: Color32)
        ensures
            c == (Color32 { r, g, b, a }),
    {
        Color32 { r, g, b, a }
    }
}

/// An outline: how wide it is and in which colour.
#[derive(Clone, Copy, Debug, PartialEq, Eq, Structural, Hash)]
pub struct Stroke {
    pub width: u32,
    pub color: Color32,
}

impl Stroke {
    /// No outline at all.
    pub open spec fn spec_none() -> Stroke {
        Stroke { width: 0, color: Color32::spec_transparent() }
    }

    #[verifier::when_used_as_spec(spec_none)]
    pub fn none() -> (s: Stroke)
        ensures
            s == Stroke::spec_none(),
    {
        Stroke { width: 0, color: Color32::transparent() }
    }
}

/// How a widget looks in one interaction state.
#[derive(Clone, Copy, Debug, PartialEq, Eq, Structural, Hash)]
pub struct WidgetVisuals {
    /// The background colour.
    pub bg_fill: Color32,
    /// The outline of the background.
    pub bg_stroke: Stroke,
    /// The stroke in which text and icons are drawn.
    pub fg_stroke: Stroke,
}

/// The looks that the switch picks from.
#[derive(Clone, Copy, Debug, PartialEq, Eq, Structural, Hash)]
pub struct SwitchVisuals {
    /// A widget that nothing is happening to.
    pub inactive: WidgetVisuals,
    /// A widget under the pointer.
    pub hovered: WidgetVisuals,
    /// The background of whatever is selected.
    pub selection_bg_fill: Color32,
}

/// The toolkit's standard sizes.
#[derive(Clone, Copy, Debug, PartialEq, Eq, Structural, Hash)]
pub struct Spacing {
    /// The smallest size of an interactive widget.
    pub interact_size: Vec2,
    /// The space between a button's edge and its content.
    pub button_padding: Vec2,
    /// The space between neighbouring widgets.
    pub item_spacing: Vec2,
}

impl Spacing {
    /// The diameter of one button of the switch.
    pub open spec fn diameter(&self) -> int {
        self.interact_size.y as int
    }

    /// The radius of one button of the switch.
    pub open spec fn radius(&self) -> int {
        self.interact_size.y as int / 2
    }

    /// The space between the switch's edge and its first and last button.
    pub open spec fn padding(&self) -> int {
        spec_min(self.button_padding.x as int, self.button_padding.y as int)
    }

    /// The narrowest gap between two neighbouring buttons.
    pub open spec fn min_gap(&self) -> int {
        self.item_spacing.x as int / 2
    }
}

} // verus!
