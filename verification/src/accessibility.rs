//! Describing the switch to assistive technology: a radio group, and in it one
//! radio button for each option.
use vstd::prelude::*;
use vstd::std_specs::cmp::PartialEqSpec;

use crate::accesskit_node::{
    node_properties, set_bounds, set_name, set_radio_group, set_role, set_selected,
    NodeProperties, NodeRole,
};
use crate::geometry::Rect;
use crate::painting::is_selected;
use crate::response::Id;
use crate::space_allocation::{AllocatedSpace, ButtonSpace};

verus! {

/// The kinds of widget that describe themselves.
#[derive(Clone, Copy, Debug, PartialEq, Eq, Structural, Hash)]
pub enum WidgetType {
    RadioButton,
    RadioGroup,
}

/// What a widget says of itself to those who cannot see it.
#[derive(Clone, Copy, Debug)]
pub struct WidgetInfo {
    /// The kind of widget.
    pub typ: WidgetType,
    /// Whether the widget reacts to input.
    pub enabled: bool,
    /// Whether the widget is selected.
    pub selected: bool,
    /// The widget's name.
    pub label: &'static str,
}

/// What is exported for one button.
#[derive(Clone, Copy, Debug)]
pub struct ButtonAccessibility {
    /// The identity of the button's region, and of its node.
    pub id: Id,
    /// What the button says of itself.
    pub info: WidgetInfo,
    /// The text shown while the pointer rests on the button.
    pub hover_text: &'static str,
}

/// What is exported for the switch as a whole.
#[derive(Debug)]
pub struct SwitchAccessibility<'a> {
    /// The identity of the switch, under which the buttons' nodes are filed.
    pub group: Id,
    /// The bounds of the radio group.
    pub bounds: Rect,
    /// The name of the radio group.
    pub label: &'a str,
    /// The identities of the buttons' nodes, in the order of the options.
    pub button_group: Vec<u64>,
    /// One entry for each button, in the order of the options.
    pub buttons: Vec<ButtonAccessibility>,
}

/// What a radio button says of itself.
pub open spec fn radio_button_info(enabled: bool, label: &'static str, selected: bool) -> WidgetInfo {
    WidgetInfo { typ: WidgetType::RadioButton, enabled, selected, label }
}

/// What is exported for `button`: a radio button under the option's name,
/// which is also the text shown on hover.
pub open spec fn button_accessibility<T>(
    button: ButtonSpace<T>,
    selected: bool,
    enabled: bool,
) -> ButtonAccessibility {
    ButtonAccessibility {
        id: button.response.id,
        info: radio_button_info(enabled, button.option.label, selected),
        hover_text: button.option.label,
    }
}

/// The identities of the nodes of `buttons`, in order.
pub open spec fn group_ids<T>(buttons: Seq<ButtonSpace<T>>) -> Seq<u64> {
    Seq::new(buttons.len(), |n: int| buttons[n].response.id.0)
}

/// The identities of the buttons' nodes, in the order of the options.
pub fn button_group<T>(space: &AllocatedSpace<T>) -> (group: Vec<u64>)
    ensures
        group@ == group_ids(space.buttons@),
{
    let mut group: Vec<u64> = Vec::new();
    let mut n: usize = 0;
    while n < space.buttons.len()
        invariant
            n <= space.buttons.len(),
            group.len() == n,
            forall|k: int| 0 <= k < n ==> #[trigger] group[k] == space.buttons[k].response.id.0,
        decreases space.buttons.len() - n,
    {
        group.push(space.buttons[n].response.id.accesskit_id());
        n += 1;
    }
    group
}

/// What a radio button says of itself.
pub fn button_widget_info(enabled: bool, label: &'static str, selected: bool) -> (info: WidgetInfo)
    ensures
        info == radio_button_info(enabled, label, selected),
{
    WidgetInfo { typ: WidgetType::RadioButton, enabled, selected, label }
}

/// Makes the node of the switch a radio group with the bounds of the switch
/// and the name `label`.
pub fn configure_accesskit_radio_group(
    builder: &mut accesskit::NodeBuilder,
    rect: Rect,
    label: &str,
)
    ensures
        node_properties(*final(builder)) == (NodeProperties {
            role: Some(NodeRole::RadioGroup),
            bounds: Some(rect),
            name: Some(label@),
            ..node_properties(*old(builder))
        }),
{
    set_role(builder, NodeRole::RadioGroup);
    set_bounds(builder, rect);
    set_name(builder, label);
}

/// Makes the node of a button a radio button with the name and the selection
/// state of `info`, in the group of the buttons `group`.
pub fn configure_accesskit_radio_button(
    builder: &mut accesskit::NodeBuilder,
    info: &WidgetInfo,
    group: &Vec<u64>,
)
    ensures
        node_properties(*final(builder)) == (NodeProperties {
            role: Some(NodeRole::RadioButton),
            name: Some(info.label@),
            selected: Some(info.selected),
            radio_group: group@,
            ..node_properties(*old(builder))
        }),
{
    set_role(builder, NodeRole::RadioButton);
    set_name(builder, info.label);
    set_selected(builder, info.selected);
    set_radio_group(builder, group);
}

/// Exports one button: what it says of itself, and its text on hover.
pub fn attach_widget_info_to_button<T>(button: &ButtonSpace<T>, selected: bool, enabled: bool) -> (
    exported: ButtonAccessibility
)
    ensures
        exported == button_accessibility(*button, selected, enabled),
{
    let label = button.option.label;
    ButtonAccessibility {
        id: button.response.id,
        info: button_widget_info(enabled, label, selected),
        hover_text: label,
    }
}

/// Exports the switch: the radio group with the bounds of the switch, and one
/// radio button for each option, selected where the option stands for `value`.
pub fn attach_widget_info<'a, T: PartialEq>(
    space: &AllocatedSpace<T>,
    label: &'a str,
    value: &T,
    enabled: bool,
) -> (exported: SwitchAccessibility<'a>)
    ensures
        exported.group == space.response.id,
        exported.bounds == space.rect,
        exported.label == label,
        exported.button_group@ == group_ids(space.buttons@),
        exported.buttons.len() == space.buttons.len(),
        forall|n: int|
            0 <= n < space.buttons.len() ==> {
                &&& (#[trigger] exported.buttons[n]).id == space.buttons[n].response.id
                &&& exported.buttons[n].hover_text == space.buttons[n].option.label
                &&& exported.buttons[n].info.typ == WidgetType::RadioButton
                &&& exported.buttons[n].info.enabled == enabled
                &&& exported.buttons[n].info.label == space.buttons[n].option.label
            },
        T::obeys_eq_spec() ==> forall|n: int|
            0 <= n < space.buttons.len() ==> #[trigger] exported.buttons[n] == button_accessibility(
                space.buttons[n],
                is_selected(space.buttons[n], *value),
                enabled,
            ),
{
    let button_group = button_group(space);
    let mut buttons: Vec<ButtonAccessibility> = Vec::new();
    let mut n: usize = 0;
    while n < space.buttons.len()
        invariant
            n <= space.buttons.len(),
            buttons.len() == n,
            forall|k: int|
                0 <= k < n ==> {
                    &&& (#[trigger] buttons[k]).id == space.buttons[k].response.id
                    &&& buttons[k].hover_text == space.buttons[k].option.label
                    &&& buttons[k].info.typ == WidgetType::RadioButton
                    &&& buttons[k].info.enabled == enabled
                    &&& buttons[k].info.label == space.buttons[k].option.label
                },
            T::obeys_eq_spec() ==> forall|k: int|
                0 <= k < n ==> #[trigger] buttons[k] == button_accessibility(
                    space.buttons[k],
                    is_selected(space.buttons[k], *value),
                    enabled,
                ),
        decreases space.buttons.len() - n,
    {
        let button = &space.buttons[n];
        let selected = button.option.value == *value;
        buttons.push(attach_widget_info_to_button(button, selected, enabled));
        n += 1;
    }
    SwitchAccessibility { group: space.response.id, bounds: space.rect, label, button_group, buttons }
}

} // verus!
