use vstd::prelude::*;
use crate::ui_state::UiState;

verus! {

/// What the pointer is doing to one flat element in front of the scene.
#[derive(Clone, Copy, Debug, PartialEq, Eq, Structural)]
pub enum Interaction {
    /// The element is being pressed.
    Pressed,
    /// The pointer rests over the element.
    Hovered,
    /// The pointer does nothing to the element.
    Idle,
}

impl Interaction {
    /// A pressed or hovered element has the pointer.
    pub open spec fn claims_pointer(self) -> bool {
        self is Pressed || self is Hovered
    }
}

/// Some element has the pointer.
pub open spec fn absorbed_by_ui(interactions: Seq<Interaction>) -> bool {
    exists|i: int| 0 <= i < interactions.len() && (#[trigger] interactions[i]).claims_pointer()
}

/// Tells whether one of the elements has the pointer, so that the scene
/// behind them is not to react to it.
pub fn event_absorbed_by_ui(interactions: &Vec<Interaction>) -> (absorbed: bool)
    ensures
        absorbed == absorbed_by_ui(interactions@),
{
    let mut i: usize = 0;
    while i < interactions.len()
        invariant
            i <= interactions.len(),
            forall|j: int| 0 <= j < i ==> !(#[trigger] interactions@[j]).claims_pointer(),
        decreases interactions.len() - i,
    {
        match interactions[i] {
            Interaction::Pressed | Interaction::Hovered => {
                return true;
            },
            Interaction::Idle => {},
        }
        i += 1;
    }
    false
}

/// Records for the frame whether an element in front of the scene has the
/// pointer. The queue of resets is left alone.
pub fn interaction_system(ui_state: &mut UiState, interactions: &Vec<Interaction>)
    ensures
        final(ui_state).overlay() == absorbed_by_ui(interactions@),
        final(ui_state).pending() == old(ui_state).pending(),
{
    let found_ui_element_interact = event_absorbed_by_ui(interactions);
    ui_state.set_over_ui_2d_element(found_ui_element_interact);
}

} // verus!
