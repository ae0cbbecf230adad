//! What the toolkit reports about one interactive region for the current frame.
use vstd::prelude::*;

verus! {

/// The stable identity of an interactive region.
///
/// The toolkit hands the same identity to the same region in every frame, so
/// that animations and accessibility nodes find their region again.
#[derive(Clone, Copy, Debug, PartialEq, Eq, Structural, Hash)]
pub struct Id(pub u64);

impl Id {
    /// The number under which the region's accessibility node is filed.
    pub fn accesskit_id(&self) -> (id: u64)
        ensures
            id == self.0,
    {
        self.0
    }
}

/// The state of one interactive region in the current frame.
#[derive(Clone, Copy, Debug, PartialEq, Eq, Structural, Hash)]
pub struct Response {
    /// The region's identity.
    pub id: Id,
    /// A click on the region was completed in this frame.
    pub clicked: bool,
    /// The pointer is over the region.
    pub hovered: bool,
    /// The region has keyboard focus.
    pub focused: bool,
    /// The pointer button went down on the region and is still held.
    pub pointer_down_on: bool,
    /// The value behind the region changed in this frame.
    pub changed: bool,
}

impl Response {
    /// A region with the given identity that nothing has happened to.
    pub open spec fn spec_idle(id: Id) -> Response {
        Response {
            id,
            clicked: false,
            hovered: false,
            focused: false,
            pointer_down_on: false,
            changed: false,
        }
    }

    /// A region with the given identity that nothing has happened to.
    #[verifier::when_used_as_spec(spec_idle)]
    pub fn idle(id: Id) -> (r: Response)
        ensures
            r == Response::spec_idle(id),
    {
        Response {
            id,
            clicked: false,
            hovered: false,
            focused: false,
            pointer_down_on: false,
            changed: false,
        }
    }

    /// The same response with the `changed` flag raised.
    pub open spec fn marked_changed(self) -> Response {
        Response { changed: true, ..self }
    }

    pub fn clicked(&self) -> (b: bool)
        ensures
            b == self.clicked,
    {
        self.clicked
    }

    pub fn hovered(&self) -> (b: bool)
        ensures
            b == self.hovered,
    {
        self.hovered
    }

    pub fn has_focus(&self) -> (b: bool)
        ensures
            b == self.focused,
    {
        self.focused
    }

    pub fn is_pointer_button_down_on(&self) -> (b: bool)
        ensures
            b == self.pointer_down_on,
    {
        self.pointer_down_on
    }

    pub fn changed(&self) -> (b: bool)
        ensures
            b == self.changed,
    {
        self.changed
    }

    /// Records that the value behind the region changed in this frame.
    pub fn mark_changed(&mut self)
        ensures
            *final(self) == old(self).marked_changed(),
    {
        self.changed = true;
    }
}

} // verus!
