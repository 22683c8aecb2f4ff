//! The passes over the objects that a frame is made of.

use vstd::prelude::*;
use vstd::seq_lib::lemma_seq_contains_after_push;
use crate::frame::settled;
use crate::interaction::Interaction3d;
use crate::node::{
    hoverable, lemma_hoverable_step, lemma_pickable_step, pickable, NodeQuery,
};
use crate::point::WorldPoint;
use crate::ui_state::UiState;

verus! {

/// The state in which an object goes into ray casting: an object that is not
/// shown is idle, and a hover is dropped when the input of the frame is
/// `consumed`, by a press or by an element in front of the scene.
pub open spec fn screened(node: NodeQuery, consumed: bool) -> Interaction3d {
    if !node.visible() {
        Interaction3d::Idle
    } else if consumed && node.interaction.hovered() {
        Interaction3d::Idle
    } else {
        node.interaction
    }
}

/// An object after a press that a ray carried to `entity`.
pub open spec fn pressed_by(node: NodeQuery, entity: u64, point: WorldPoint) -> NodeQuery {
    if node.entity == entity && node.visible() {
        node.with_interaction(Interaction3d::Pressed(point))
    } else {
        node
    }
}

/// An object after a hover that a ray carried to `entity`.
pub open spec fn hovered_by(node: NodeQuery, entity: u64, point: WorldPoint) -> NodeQuery {
    if node.entity == entity && node.visible() && !node.interaction.pressed() {
        node.with_interaction(Interaction3d::Hovered(point))
    } else {
        node
    }
}

/// An object after the candidates that no ray met have been cleared.
pub open spec fn cleared(node: NodeQuery, hovered: Seq<u64>) -> NodeQuery {
    if hovered.contains(node.entity) && !node.interaction.pressed() {
        node.with_interaction(Interaction3d::Idle)
    } else {
        node
    }
}

/// Clears every object whose identity is queued, and empties the queue. An
/// identity that no object has any more is passed over.
pub(crate) fn reset_queued(ui_state: &mut UiState, nodes: &mut Vec<NodeQuery>)
    ensures
        final(ui_state).pending() == Seq::<u64>::empty(),
        final(ui_state).overlay() == old(ui_state).overlay(),
        final(nodes)@.len() == old(nodes)@.len(),
        forall|i: int|
            0 <= i < old(nodes)@.len() ==> #[trigger] final(nodes)@[i] == old(
                nodes,
            )@[i].with_interaction(settled(old(nodes)@[i], old(ui_state).pending(), false)),
{
    let entities = ui_state.take_resets();
    let mut k: usize = 0;
    while k < entities.len()
        invariant
            k <= entities.len(),
            nodes@.len() == old(nodes)@.len(),
            forall|i: int|
                0 <= i < nodes@.len() ==> #[trigger] nodes@[i] == old(nodes)@[i].with_interaction(
                    settled(old(nodes)@[i], entities@.take(k as int), false),
                ),
        decreases entities.len() - k,
    {
        let entity = entities[k];
        assert(entities@.take(k + 1) =~= entities@.take(k as int).push(entity));
        let mut i: usize = 0;
        while i < nodes.len()
            invariant
                k < entities.len(),
                entities@.take(k + 1) == entities@.take(k as int).push(entity),
                i <= nodes.len(),
                nodes@.len() == old(nodes)@.len(),
                forall|j: int|
                    0 <= j < i ==> #[trigger] nodes@[j] == old(nodes)@[j].with_interaction(
                        settled(old(nodes)@[j], entities@.take(k + 1), false),
                    ),
                forall|j: int|
                    i <= j < nodes@.len() ==> #[trigger] nodes@[j] == old(
                        nodes,
                    )@[j].with_interaction(
                        settled(old(nodes)@[j], entities@.take(k as int), false),
                    ),
            decreases nodes.len() - i,
        {
            proof {
                lemma_seq_contains_after_push(
                    entities@.take(k as int),
                    entity,
                    old(nodes)@[i as int].entity,
                );
            }
            if nodes[i].entity == entity {
                nodes[i].interaction = Interaction3d::Idle;
            }
            i += 1;
        }
        k += 1;
    }
    assert(entities@.take(k as int) =~= entities@);
}

/// The release of a press: every pressed object goes idle.
pub(crate) fn release_pressed(nodes: &mut Vec<NodeQuery>)
    ensures
        final(nodes)@.len() == old(nodes)@.len(),
        forall|i: int|
            0 <= i < old(nodes)@.len() ==> #[trigger] final(nodes)@[i] == old(
                nodes,
            )@[i].with_interaction(settled(old(nodes)@[i], Seq::<u64>::empty(), true)),
{
    let mut i: usize = 0;
    while i < nodes.len()
        invariant
            i <= nodes.len(),
            nodes@.len() == old(nodes)@.len(),
            forall|j: int|
                0 <= j < i ==> #[trigger] nodes@[j] == old(nodes)@[j].with_interaction(
                    settled(old(nodes)@[j], Seq::<u64>::empty(), true),
                ),
            forall|j: int| i <= j < nodes@.len() ==> #[trigger] nodes@[j] == old(nodes)@[j],
        decreases nodes.len() - i,
    {
        if nodes[i].interaction.is_pressed() {
            nodes[i].interaction = Interaction3d::Idle;
        }
        i += 1;
    }
}

/// Screens every object and lists those that may be hovered in this frame: the
/// shown ones, unless the input of the frame is consumed.
pub(crate) fn collect_hover_candidates(nodes: &mut Vec<NodeQuery>, consumed: bool) -> (hovered: Vec<
    u64,
>)
    ensures
        final(nodes)@.len() == old(nodes)@.len(),
        forall|i: int|
            0 <= i < old(nodes)@.len() ==> #[trigger] final(nodes)@[i] == old(
                nodes,
            )@[i].with_interaction(screened(old(nodes)@[i], consumed)),
        forall|entity: u64| #[trigger]
            hovered@.contains(entity) <==> !consumed && pickable(old(nodes)@, entity),
{
    let mut hovered: Vec<u64> = Vec::new();
    let mut i: usize = 0;
    while i < nodes.len()
        invariant
            i <= nodes.len(),
            nodes@.len() == old(nodes)@.len(),
            forall|j: int|
                0 <= j < i ==> #[trigger] nodes@[j] == old(nodes)@[j].with_interaction(
                    screened(old(nodes)@[j], consumed),
                ),
            forall|j: int| i <= j < nodes@.len() ==> #[trigger] nodes@[j] == old(nodes)@[j],
            forall|entity: u64| #[trigger]
                hovered@.contains(entity) <==> !consumed && pickable(
                    old(nodes)@.take(i as int),
                    entity,
                ),
        decreases nodes.len() - i,
    {
        let ghost listed = hovered@;
        let node = nodes[i];
        if !node.is_visible() {
            nodes[i].interaction = Interaction3d::Idle;
        } else if consumed {
            if node.interaction.is_hovered() {
                nodes[i].interaction = Interaction3d::Idle;
            }
        } else {
            hovered.push(node.entity);
        }
        proof {
            assert forall|entity: u64| #[trigger]
                hovered@.contains(entity) <==> !consumed && pickable(
                    old(nodes)@.take(i + 1),
                    entity,
                ) by {
                lemma_pickable_step(old(nodes)@, i as int, entity);
                lemma_seq_contains_after_push(listed, node.entity, entity);
            }
        }
        i += 1;
    }
    assert(old(nodes)@.take(i as int) =~= old(nodes)@);
    hovered
}

/// Whether `entity` is among `entities`.
fn contains_entity(entities: &Vec<u64>, entity: u64) -> (found: bool)
    ensures
        found == entities@.contains(entity),
{
    let mut i: usize = 0;
    while i < entities.len()
        invariant
            i <= entities.len(),
            forall|j: int| 0 <= j < i ==> entities@[j] != entity,
        decreases entities.len() - i,
    {
        if entities[i] == entity {
            return true;
        }
        i += 1;
    }
    false
}

/// Clears the candidates that no ray met: every object that is still listed
/// goes idle, unless it is pressed.
pub(crate) fn clear_unhit(nodes: &mut Vec<NodeQuery>, hovered: &Vec<u64>)
    ensures
        final(nodes)@.len() == old(nodes)@.len(),
        forall|i: int|
            0 <= i < old(nodes)@.len() ==> #[trigger] final(nodes)@[i] == cleared(
                old(nodes)@[i],
                hovered@,
            ),
{
    let mut i: usize = 0;
    while i < nodes.len()
        invariant
            i <= nodes.len(),
            nodes@.len() == old(nodes)@.len(),
            forall|j: int| 0 <= j < i ==> #[trigger] nodes@[j] == cleared(old(nodes)@[j], hovered@),
            forall|j: int| i <= j < nodes@.len() ==> #[trigger] nodes@[j] == old(nodes)@[j],
        decreases nodes.len() - i,
    {
        if !nodes[i].interaction.is_pressed() && contains_entity(hovered, nodes[i].entity) {
            nodes[i].interaction = Interaction3d::Idle;
        }
        i += 1;
    }
}

/// A press that a ray carries to `entity`: every shown object of that
/// identity becomes `Pressed(point)`. Tells whether there was one.
pub(crate) fn press_hit(nodes: &mut Vec<NodeQuery>, entity: u64, point: WorldPoint) -> (found: bool)
    ensures
        final(nodes)@.len() == old(nodes)@.len(),
        forall|i: int|
            0 <= i < old(nodes)@.len() ==> #[trigger] final(nodes)@[i] == pressed_by(
                old(nodes)@[i],
                entity,
                point,
            ),
        found == pickable(old(nodes)@, entity),
{
    let mut found = false;
    let mut i: usize = 0;
    while i < nodes.len()
        invariant
            i <= nodes.len(),
            nodes@.len() == old(nodes)@.len(),
            forall|j: int|
                0 <= j < i ==> #[trigger] nodes@[j] == pressed_by(old(nodes)@[j], entity, point),
            forall|j: int| i <= j < nodes@.len() ==> #[trigger] nodes@[j] == old(nodes)@[j],
            found == pickable(old(nodes)@.take(i as int), entity),
        decreases nodes.len() - i,
    {
        proof {
            lemma_pickable_step(old(nodes)@, i as int, entity);
        }
        if nodes[i].entity == entity && nodes[i].is_visible() {
            nodes[i].interaction = Interaction3d::Pressed(point);
            found = true;
        }
        i += 1;
    }
    assert(old(nodes)@.take(i as int) =~= old(nodes)@);
    found
}

/// A hover that a ray carries to `entity`: every shown object of that
/// identity that is not pressed becomes `Hovered(point)`. Tells whether there
/// was one.
pub(crate) fn hover_hit(nodes: &mut Vec<NodeQuery>, entity: u64, point: WorldPoint) -> (touched:
    bool)
    ensures
        final(nodes)@.len() == old(nodes)@.len(),
        forall|i: int|
            0 <= i < old(nodes)@.len() ==> #[trigger] final(nodes)@[i] == hovered_by(
                old(nodes)@[i],
                entity,
                point,
            ),
        touched == hoverable(old(nodes)@, entity),
{
    let mut touched = false;
    let mut i: usize = 0;
    while i < nodes.len()
        invariant
            i <= nodes.len(),
            nodes@.len() == old(nodes)@.len(),
            forall|j: int|
                0 <= j < i ==> #[trigger] nodes@[j] == hovered_by(old(nodes)@[j], entity, point),
            forall|j: int| i <= j < nodes@.len() ==> #[trigger] nodes@[j] == old(nodes)@[j],
            touched == hoverable(old(nodes)@.take(i as int), entity),
        decreases nodes.len() - i,
    {
        proof {
            lemma_hoverable_step(old(nodes)@, i as int, entity);
        }
        if nodes[i].entity == entity && nodes[i].is_visible() && !nodes[i].interaction.is_pressed() {
            nodes[i].interaction = Interaction3d::Hovered(point);
            touched = true;
        }
        i += 1;
    }
    assert(old(nodes)@.take(i as int) =~= old(nodes)@);
    touched
}

/// Strikes `entity` from the candidates, wherever it is listed.
pub(crate) fn remove_candidate(hovered: &mut Vec<u64>, entity: u64)
    ensures
        forall|other: u64| #[trigger]
            final(hovered)@.contains(other) <==> old(hovered)@.contains(other) && other != entity,
{
    let mut i: usize = 0;
    while i < hovered.len()
        invariant
            i <= hovered.len(),
            forall|j: int| 0 <= j < i ==> hovered@[j] != entity,
            forall|other: u64| #[trigger] hovered@.contains(other) ==> old(hovered)@.contains(other),
            forall|other: u64|
                old(hovered)@.contains(other) && other != entity ==> #[trigger] hovered@.contains(
                    other,
                ),
        decreases hovered.len() - i,
    {
        if hovered[i] == entity {
            let ghost before = hovered@;
            hovered.remove(i);
            proof {
                let after = hovered@;
                assert forall|other: u64| after.contains(other) implies before.contains(other) by {
                    let at = choose|at: int| 0 <= at < after.len() && after[at] == other;
                    if at < i {
                        assert(before[at] == other);
                    } else {
                        assert(before[at + 1] == other);
                    }
                }
                assert forall|other: u64|
                    before.contains(other) && other != entity implies after.contains(other) by {
                    let at = choose|at: int| 0 <= at < before.len() && before[at] == other;
                    if at < i {
                        assert(after[at] == other);
                    } else {
                        assert(after[at - 1] == other);
                    }
                }
            }
        } else {
            i += 1;
        }
    }
}

} // verus!
