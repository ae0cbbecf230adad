//! The theme switch, and the frame of any switch.
use vstd::prelude::*;
use vstd::std_specs::cmp::PartialEqSpec;

use crate::accessibility::{
    attach_widget_info, button_accessibility, group_ids, SwitchAccessibility,
};
use crate::interactivity::{
    click_target, lemma_click_on_selected_is_no_target, marked_changed, picks_other,
    update_value_on_click,
};
use crate::options::{Icon, SwitchOption};
use crate::painting::{indicator, indicator_animation, is_selected, selected_button, Animation};
use crate::search::{lemma_first_where, lemma_first_where_is};
use crate::style::Color32;
use crate::response::Response;
use crate::space_allocation::{AllocatedSpace, ButtonSpace};
use crate::theme::ThemePreference;

verus! {

/// A switch between the dark theme, the light theme and the theme of the
/// system.
#[must_use]
pub struct ThemeSwitch<'a> {
    pub value: &'a mut ThemePreference,
    pub show_follow_system: bool,
}

/// What one frame of a switch comes to, once the toolkit has reported on the
/// buttons.
#[derive(Debug)]
pub struct SwitchFrame<'a, T> {
    /// The value that a click selected in this frame, if one did.
    pub update: Option<T>,
    /// The value that the frame shows as selected.
    pub value: T,
    /// The layout, with the clicked button marked as changed.
    pub space: AllocatedSpace<T>,
    /// What the toolkit reports about the switch as a whole, marked as changed
    /// where a click selected a value.
    pub response: Response,
    /// What is exported to assistive technology.
    pub accessibility: SwitchAccessibility<'a>,
}

/// The option "Follow System".
pub open spec fn system_option() -> SwitchOption<ThemePreference> {
    SwitchOption { value: ThemePreference::System, icon: Icon::Cogwheel, label: "Follow System" }
}

/// The option "Dark".
pub open spec fn dark_option() -> SwitchOption<ThemePreference> {
    SwitchOption { value: ThemePreference::Dark, icon: Icon::Moon, label: "Dark" }
}

/// The option "Light".
pub open spec fn light_option() -> SwitchOption<ThemePreference> {
    SwitchOption { value: ThemePreference::Light, icon: Icon::Sun, label: "Light" }
}

/// The options of a theme switch: dark and light, and before them the theme
/// of the system where that is offered.
pub open spec fn theme_options(show_follow_system: bool) -> Seq<SwitchOption<ThemePreference>> {
    if show_follow_system {
        seq![system_option(), dark_option(), light_option()]
    } else {
        seq![dark_option(), light_option()]
    }
}

/// Whether `frame` is what a switch with the layout `space` comes to while
/// the value is `value`.
///
/// Where a click selects another value, the frame holds a copy of it and shows
/// it as selected, the clicked button and the switch are marked as changed.
/// Otherwise the frame shows `value` and nothing is marked. The switch is
/// exported as a radio group named `label` with one radio button for each
/// option, of which those are selected that stand for the value shown.
pub open spec fn is_frame_of<T: PartialEq + Clone>(
    frame: SwitchFrame<T>,
    space: AllocatedSpace<T>,
    value: T,
    label: &str,
    enabled: bool,
) -> bool {
    &&& frame.update is None ==> {
        &&& frame.value == value
        &&& frame.space == space
        &&& frame.response == space.response
    }
    &&& frame.update matches Some(v) ==> {
        &&& cloned(v, frame.value)
        &&& frame.response == space.response.marked_changed()
    }
    &&& frame.space.is_marked(space)
    &&& T::obeys_eq_spec() ==> match click_target(space.buttons@, value) {
        Some(k) => {
            &&& frame.update matches Some(v)
            &&& cloned(space.buttons[k].option.value, v)
            &&& frame.space.is_with_buttons(
                space,
                space.buttons@.update(k, marked_changed(space.buttons[k])),
            )
        },
        None => frame.update is None,
    }
    &&& frame.accessibility.group == space.response.id
    &&& frame.accessibility.bounds == space.rect
    &&& frame.accessibility.label == label
    &&& frame.accessibility.button_group@ == group_ids(space.buttons@)
    &&& frame.accessibility.buttons.len() == space.buttons.len()
    &&& T::obeys_eq_spec() ==> forall|n: int|
        0 <= n < space.buttons.len() ==> #[trigger] frame.accessibility.buttons[n]
            == button_accessibility(
            space.buttons[n],
            is_selected(space.buttons[n], frame.value),
            enabled,
        )
}

/// Runs one frame of a switch over the layout `space`: turns a click into a
/// new value and exports the switch to assistive technology.
pub fn switch<'a, T>(space: AllocatedSpace<T>, value: T, label: &'a str, enabled: bool) -> (frame:
    SwitchFrame<'a, T>)
    where
        T: PartialEq + Clone,
    ensures
        is_frame_of(frame, space, value, label, enabled),
{
    let ghost before = space;
    let mut space = space;
    let mut response = space.response;
    let update = update_value_on_click(&mut space, &value);
    let value = match &update {
        Some(v) => {
            response.mark_changed();
            v.clone()
        },
        None => value,
    };
    let accessibility = attach_widget_info(&space, label, &value, enabled);
    proof {
        assert(group_ids(space.buttons@) =~= group_ids(before.buttons@));
    }
    SwitchFrame { update, value, space, response, accessibility }
}

impl<'a> ThemeSwitch<'a> {
    /// A switch over `value` that offers all three options.
    pub fn new(value: &'a mut ThemePreference) -> (s: Self)
        ensures
            s.show_follow_system,
            *s.value == *old(value),
            *final(value) == *final(s.value),
    {
        ThemeSwitch { value, show_follow_system: true }
    }

    /// Offers the option "Follow System", or leaves it out.
    pub fn show_follow_system(self, show_follow_system: bool) -> (s: Self)
        ensures
            s.show_follow_system == show_follow_system,
            *s.value == *old(self.value),
            *final(s.value) == *final(self.value),
    {
        ThemeSwitch { value: self.value, show_follow_system }
    }

    /// The options that the switch offers, from left to right.
    pub fn options(&self) -> (options: Vec<SwitchOption<ThemePreference>>)
        ensures
            options@ == theme_options(self.show_follow_system),
    {
        let system = SwitchOption {
            value: ThemePreference::System,
            icon: Icon::Cogwheel,
            label: "Follow System",
        };
        let dark = SwitchOption { value: ThemePreference::Dark, icon: Icon::Moon, label: "Dark" };
        let light = SwitchOption { value: ThemePreference::Light, icon: Icon::Sun, label: "Light" };
        let mut options = Vec::with_capacity(3);
        if self.show_follow_system {
            options.push(system);
        }
        options.push(dark);
        options.push(light);
        options
    }

    /// Runs one frame of the switch over the layout `space`, and stores what a
    /// click selected.
    pub fn ui(self, space: AllocatedSpace<ThemePreference>, enabled: bool) -> (frame: SwitchFrame<
        'static,
        ThemePreference,
    >)
        ensures
            is_frame_of(frame, space, *old(self.value), "Theme", enabled),
            *final(self.value) == frame.value,
    {
        let frame = switch(space, *self.value, "Theme", enabled);
        if let Some(value) = frame.update {
            *self.value = value;
        }
        frame
    }
}

/// Whether no two of `buttons` share an identity.
pub open spec fn distinct_ids<T>(buttons: Seq<ButtonSpace<T>>) -> bool {
    forall|m: int, n: int|
        0 <= m < n < buttons.len() ==> (#[trigger] buttons[m]).response.id != (
        #[trigger] buttons[n]).response.id
}

/// A click on the option that is already selected changes nothing.
///
/// Where every button that was clicked stands for the value, the frame holds
/// no new value, shows the value as it was, and marks neither a button nor the
/// switch as changed.
pub proof fn lemma_click_on_selected_changes_nothing<T: PartialEq + Clone>(
    frame: SwitchFrame<T>,
    space: AllocatedSpace<T>,
    value: T,
    label: &str,
    enabled: bool,
)
    requires
        T::obeys_eq_spec(),
        is_frame_of(frame, space, value, label, enabled),
        forall|n: int|
            0 <= n < space.buttons.len() && (#[trigger] space.buttons[n]).response.clicked
                ==> space.buttons[n].option.value.eq_spec(&value),
    ensures
        frame.update is None,
        frame.value == value,
        frame.space == space,
        frame.response == space.response,
{
    lemma_click_on_selected_is_no_target(space.buttons@, value);
}

/// The value that a click returns is the clicked option's, and shows that
/// option as selected from then on.
///
/// Where button `k` is the target of a click, the frame holds a copy of option
/// `k`'s value and marks the switch as changed. In any later layout `next` of
/// the same options, that value selects button `k`, and the indicator moves
/// towards the centre of button `k`. This is said of a type whose copies are
/// equal to what they were copied from, and of options of which none before
/// `k` stands for a copy of option `k`'s value.
pub proof fn lemma_clicked_option_shows_selected<T: PartialEq + Clone>(
    frame: SwitchFrame<T>,
    space: AllocatedSpace<T>,
    value: T,
    label: &str,
    enabled: bool,
    k: int,
    next: AllocatedSpace<T>,
)
    requires
        T::obeys_eq_spec(),
        forall|a: T, b: T| cloned(a, b) ==> #[trigger] a.eq_spec(&b),
        is_frame_of(frame, space, value, label, enabled),
        click_target(space.buttons@, value) == Some(k),
        next.buttons.len() == space.buttons.len(),
        forall|n: int|
            0 <= n < space.buttons.len() ==> (#[trigger] next.buttons[n]).option
                == space.buttons[n].option,
        forall|j: int, v: T|
            0 <= j < k && cloned(space.buttons[k].option.value, v)
                ==> !#[trigger] space.buttons[j].option.value.eq_spec(&v),
    ensures
        0 <= k < space.buttons.len(),
        frame.update matches Some(v) && cloned(space.buttons[k].option.value, v),
        frame.response.changed,
        selected_button(next.buttons@, frame.update->0) == Some(k),
        indicator_animation(next, frame.update->0) == Some(
            Animation { id: next.response.id, target: next.buttons[k].center.x as i64 },
        ),
{
    lemma_first_where(space.buttons@, |button: ButtonSpace<T>| picks_other(button, value));
    let v = frame.update->0;
    assert(space.buttons[k].option.value.eq_spec(&v));
    assert forall|j: int| 0 <= j < k implies !is_selected(#[trigger] next.buttons@[j], v) by {
        assert(!space.buttons[j].option.value.eq_spec(&v));
    }
    assert(is_selected(next.buttons@[k], v));
    lemma_first_where_is(next.buttons@, |button: ButtonSpace<T>| is_selected(button, v), k);
}

/// Where no option stands for the value, there is no indicator, nothing is
/// eased towards a position, and no radio button is exported as selected.
pub proof fn lemma_no_selection_no_indicator<T: PartialEq>(
    space: AllocatedSpace<T>,
    value: T,
    fill: Color32,
    x: i32,
    enabled: bool,
)
    requires
        forall|n: int| 0 <= n < space.buttons.len() ==> !is_selected(#[trigger] space.buttons[n], value),
    ensures
        selected_button(space.buttons@, value) is None,
        indicator(space, value, fill, x) is None,
        indicator_animation(space, value) is None,
        forall|n: int|
            0 <= n < space.buttons.len() ==> !(#[trigger] button_accessibility(
                space.buttons[n],
                is_selected(space.buttons[n], value),
                enabled,
            )).info.selected,
{
    lemma_first_where(space.buttons@, |button: ButtonSpace<T>| is_selected(button, value));
}

/// The export matches the layout: one radio button for each button of the
/// layout, under that button's identity and listed in the group at its place,
/// all of them in the one radio group with the identity and the bounds of the
/// switch. Where no two buttons of the layout share an identity, no two radio
/// buttons do.
pub proof fn lemma_accessibility_matches_layout<T: PartialEq + Clone>(
    frame: SwitchFrame<T>,
    space: AllocatedSpace<T>,
    value: T,
    label: &str,
    enabled: bool,
)
    requires
        T::obeys_eq_spec(),
        is_frame_of(frame, space, value, label, enabled),
    ensures
        frame.accessibility.buttons.len() == space.buttons.len(),
        frame.accessibility.button_group.len() == space.buttons.len(),
        frame.accessibility.group == space.response.id,
        frame.accessibility.bounds == space.rect,
        forall|n: int|
            0 <= n < space.buttons.len() ==> {
                &&& (#[trigger] frame.accessibility.buttons[n]).id == space.buttons[n].response.id
                &&& frame.accessibility.button_group[n] == space.buttons[n].response.id.0
                &&& frame.accessibility.buttons[n].info.selected == is_selected(
                    space.buttons[n],
                    frame.value,
                )
            },
        distinct_ids(space.buttons@) ==> forall|m: int, n: int|
            0 <= m < n < space.buttons.len() ==> (#[trigger] frame.accessibility.buttons[m]).id != (
            #[trigger] frame.accessibility.buttons[n]).id,
{
}

} // verus!
