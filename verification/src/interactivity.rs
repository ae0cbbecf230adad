//! Turning a click on a button into a new value.
use vstd::prelude::*;
use vstd::std_specs::cmp::PartialEqSpec;

use crate::search::{first_where, lemma_first_from_skips, lemma_first_where};
use crate::space_allocation::{AllocatedSpace, ButtonSpace};

verus! {

/// Whether `button` was clicked in this frame and selects another value than
/// `value`.
pub open spec fn picks_other<T: PartialEq>(button: ButtonSpace<T>, value: T) -> bool {
    button.response.clicked && !button.option.value.eq_spec(&value)
}

/// The button whose click changes the value: the first, in the order of the
/// options, that was clicked and selects another value than `value`.
pub open spec fn click_target<T: PartialEq>(buttons: Seq<ButtonSpace<T>>, value: T) -> Option<
    int,
> {
    first_where(buttons, |button: ButtonSpace<T>| picks_other(button, value))
}

/// `button` with the `changed` flag of its response raised.
pub open spec fn marked_changed<T>(button: ButtonSpace<T>) -> ButtonSpace<T> {
    ButtonSpace { response: button.response.marked_changed(), ..button }
}

impl<T> AllocatedSpace<T> {
    /// Whether this layout is `before` with `buttons` in the place of its
    /// buttons.
    pub open spec fn is_with_buttons(&self, before: Self, buttons: Seq<ButtonSpace<T>>) -> bool {
        &&& self.response == before.response
        &&& self.rect == before.rect
        &&& self.radius == before.radius
        &&& self.buttons@ == buttons
    }

    /// Whether this layout is `before` with some of its buttons marked as
    /// changed.
    pub open spec fn is_marked(&self, before: Self) -> bool {
        &&& self.response == before.response
        &&& self.rect == before.rect
        &&& self.radius == before.radius
        &&& self.buttons.len() == before.buttons.len()
        &&& forall|n: int|
            0 <= n < before.buttons.len() ==> {
                ||| #[trigger] self.buttons[n] == before.buttons[n]
                ||| self.buttons[n] == marked_changed(before.buttons[n])
            }
    }
}

/// Finds the click that changes the value.
///
/// Where a button was clicked that selects another value than `value`, the
/// first such button's response is marked as changed and a copy of its value
/// is returned. Otherwise the layout stays as it is and nothing is returned:
/// a click on the option that is already selected changes nothing.
pub fn update_value_on_click<T>(space: &mut AllocatedSpace<T>, value: &T) -> (update: Option<T>)
    where
        T: PartialEq + Clone,
    ensures
        update is None ==> *final(space) == *old(space),
        final(space).is_marked(*old(space)),
        T::obeys_eq_spec() ==> match click_target(old(space).buttons@, *value) {
            Some(k) => {
                &&& update matches Some(v)
                &&& cloned(old(space).buttons[k].option.value, v)
                &&& final(space).is_with_buttons(
                    *old(space),
                    old(space).buttons@.update(k, marked_changed(old(space).buttons[k])),
                )
            },
            None => update is None,
        },
{
    let ghost wanted = |button: ButtonSpace<T>| picks_other(button, *value);
    let mut n: usize = 0;
    while n < space.buttons.len()
        invariant
            *space == *old(space),
            n <= space.buttons.len(),
            wanted == |button: ButtonSpace<T>| picks_other(button, *value),
            T::obeys_eq_spec() ==> forall|j: int| 0 <= j < n ==> !wanted(#[trigger] space.buttons[j]),
        decreases space.buttons.len() - n,
    {
        if space.buttons[n].response.clicked() && space.buttons[n].option.value != *value {
            proof {
                if T::obeys_eq_spec() {
                    lemma_first_from_skips(space.buttons@, wanted, n as int);
                }
            }
            let update = space.buttons[n].option.value.clone();
            space.buttons[n].response.mark_changed();
            return Some(update);
        }
        n += 1;
    }
    proof {
        if T::obeys_eq_spec() {
            lemma_first_from_skips(space.buttons@, wanted, n as int);
        }
    }
    None
}

/// A click on the option that is already selected is no click to act on:
/// where every button that was clicked stands for `value`, no button is the
/// target of a click.
pub proof fn lemma_click_on_selected_is_no_target<T: PartialEq>(
    buttons: Seq<ButtonSpace<T>>,
    value: T,
)
    requires
        forall|n: int|
            0 <= n < buttons.len() && (#[trigger] buttons[n]).response.clicked
                ==> buttons[n].option.value.eq_spec(&value),
    ensures
        click_target(buttons, value) is None,
{
    lemma_first_where(buttons, |button: ButtonSpace<T>| picks_other(button, value));
}

} // verus!
