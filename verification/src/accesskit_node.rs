//! The accessibility nodes that the switch fills in, as AccessKit builds them.
//!
//! Nothing in this module is proved: it states what the calls into the
//! `accesskit` crate do, and the rest of the library relies on it.
use vstd::prelude::*;

use crate::geometry::Rect;

verus! {

/// `accesskit::NodeBuilder`, of which the library sees only what
/// [`node_properties`] says.
#[verifier::external_type_specification]
#[verifier::external_body]
pub struct ExNodeBuilder(accesskit::NodeBuilder);

/// The roles that the nodes of a switch play.
#[derive(Clone, Copy, Debug, PartialEq, Eq, Structural, Hash)]
pub enum NodeRole {
    /// A group of radio buttons.
    RadioGroup,
    /// One radio button.
    RadioButton,
}

/// The properties of an accessibility node that the switch sets.
pub struct NodeProperties {
    /// The node's role, where it is one of those that the switch uses.
    pub role: Option<NodeRole>,
    /// The node's bounding box, where its edges are whole numbers.
    pub bounds: Option<Rect>,
    /// The node's name.
    pub name: Option<Seq<char>>,
    /// Whether the node is selected.
    pub selected: Option<bool>,
    /// The identities of the radio buttons in the node's group.
    pub radio_group: Seq<u64>,
}

/// The properties that `builder` holds.
pub uninterp spec fn node_properties(builder: accesskit::NodeBuilder) -> NodeProperties;

/// `accesskit::NodeBuilder::set_role`: replaces the node's role and leaves the
/// other properties as they are.
#[verifier::external_body]
pub(crate) fn set_role(builder: &mut accesskit::NodeBuilder, role: NodeRole)
    ensures
        node_properties(*final(builder)) == (NodeProperties {
            role: Some(role),
            ..node_properties(*old(builder))
        }),
{
    builder.set_role(
        match role {
            NodeRole::RadioGroup => accesskit::Role::RadioGroup,
            NodeRole::RadioButton => accesskit::Role::RadioButton,
        },
    );
}

/// `accesskit::NodeBuilder::set_bounds`: replaces the node's bounding box and
/// leaves the other properties as they are. Each edge of `rect` is handed over
/// as the floating-point number of the same value.
#[verifier::external_body]
pub(crate) fn set_bounds(builder: &mut accesskit::NodeBuilder, rect: Rect)
    ensures
        node_properties(*final(builder)) == (NodeProperties {
            bounds: Some(rect),
            ..node_properties(*old(builder))
        }),
{
    builder.set_bounds(
        accesskit::Rect {
            x0: rect.min.x.into(),
            y0: rect.min.y.into(),
            x1: rect.max.x.into(),
            y1: rect.max.y.into(),
        },
    );
}

/// `accesskit::NodeBuilder::set_name`: replaces the node's name and leaves the
/// other properties as they are.
#[verifier::external_body]
pub(crate) fn set_name(builder: &mut accesskit::NodeBuilder, name: &str)
    ensures
        node_properties(*final(builder)) == (NodeProperties {
            name: Some(name@),
            ..node_properties(*old(builder))
        }),
{
    builder.set_name(name);
}

/// `accesskit::NodeBuilder::set_selected`: replaces the node's selection state
/// and leaves the other properties as they are.
#[verifier::external_body]
pub(crate) fn set_selected(builder: &mut accesskit::NodeBuilder, selected: bool)
    ensures
        node_properties(*final(builder)) == (NodeProperties {
            selected: Some(selected),
            ..node_properties(*old(builder))
        }),
{
    builder.set_selected(selected);
}

/// `accesskit::NodeBuilder::set_radio_group`: replaces the list of the radio
/// buttons in the node's group and leaves the other properties as they are.
#[verifier::external_body]
pub(crate) fn set_radio_group(builder: &mut accesskit::NodeBuilder, group: &Vec<u64>)
    ensures
        node_properties(*final(builder)) == (NodeProperties {
            radio_group: group@,
            ..node_properties(*old(builder))
        }),
{
    builder.set_radio_group(group.iter().map(|id| accesskit::NodeId(*id)).collect::<Vec<_>>());
}

} // verus!
