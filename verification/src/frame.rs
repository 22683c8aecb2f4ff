//! What one frame does to the interactive objects, stated over sequences.

use vstd::prelude::*;
use crate::config::PluginConfig;
use crate::input::PointerInput;
use crate::interaction::Interaction3d;
use crate::node::{pickable, NodeQuery};
use crate::point::WorldPoint;
use crate::ray_cast::RayHit;

verus! {

/// The point that a state reports for a hit at `at`: the hit itself where the
/// point switch for the kind of frame is on, the origin where it is off.
pub open spec fn hit_point(config: PluginConfig, clicked: bool, at: WorldPoint) -> WorldPoint {
    if clicked {
        if config.press_point_enabled {
            at
        } else {
            WorldPoint::zero()
        }
    } else {
        if config.hover_point_enabled {
            at
        } else {
            WorldPoint::zero()
        }
    }
}

/// Where the last of the rays that met `entity` met it.
pub open spec fn last_hit(hits: Seq<Option<RayHit>>, entity: u64) -> Option<WorldPoint>
    decreases hits.len(),
{
    if hits.len() == 0 {
        None
    } else {
        match hits.last() {
            Some(hit) if hit.entity == entity => Some(hit.point),
            _ => last_hit(hits.drop_last(), entity),
        }
    }
}

/// The identities of the pickable objects that the rays met, one for each
/// ray that met one, in the order of the rays.
pub open spec fn hit_entities(nodes: Seq<NodeQuery>, hits: Seq<Option<RayHit>>) -> Seq<u64>
    decreases hits.len(),
{
    if hits.len() == 0 {
        Seq::<u64>::empty()
    } else {
        let earlier = hit_entities(nodes, hits.drop_last());
        match hits.last() {
            Some(hit) if pickable(nodes, hit.entity) => earlier.push(hit.entity),
            _ => earlier,
        }
    }
}

/// The state of an object once the resets queued by the frame before and the
/// release of this frame have been applied to it.
pub open spec fn settled(node: NodeQuery, pending: Seq<u64>, release: bool) -> Interaction3d {
    if pending.contains(node.entity) {
        Interaction3d::Idle
    } else if release && node.interaction.pressed() {
        Interaction3d::Idle
    } else {
        node.interaction
    }
}

/// The state that one frame with a window leaves an object in.
///
/// `pending` are the identities queued by the frame before, `overlay` tells
/// whether an element in front of the scene has the pointer, `clicked` and
/// `released` are the edges of the frame, and `hits` is what the ray of each
/// camera met.
pub open spec fn resolved(
    node: NodeQuery,
    pending: Seq<u64>,
    overlay: bool,
    config: PluginConfig,
    clicked: bool,
    released: bool,
    hits: Seq<Option<RayHit>>,
) -> Interaction3d {
    let rest = settled(node, pending, released && config.press_enabled);
    let met = last_hit(hits, node.entity);
    if !node.visible() {
        Interaction3d::Idle
    } else if overlay {
        if rest.hovered() {
            Interaction3d::Idle
        } else {
            rest
        }
    } else if clicked && config.press_enabled {
        match met {
            Some(at) => Interaction3d::Pressed(hit_point(config, clicked, at)),
            None => if rest.hovered() {
                Interaction3d::Idle
            } else {
                rest
            },
        }
    } else if rest.pressed() {
        rest
    } else if config.hover_enabled {
        match met {
            Some(at) => Interaction3d::Hovered(hit_point(config, clicked, at)),
            None => Interaction3d::Idle,
        }
    } else {
        Interaction3d::Idle
    }
}

/// The objects as one frame leaves them: each keeps its identity and its
/// visibility and takes the state that `resolved` gives. Without a primary
/// window the frame changes nothing.
pub open spec fn resolve_nodes(
    nodes: Seq<NodeQuery>,
    pending: Seq<u64>,
    overlay: bool,
    config: PluginConfig,
    input: PointerInput,
    hits: Seq<Option<RayHit>>,
) -> Seq<NodeQuery> {
    if !input.has_window {
        nodes
    } else {
        Seq::new(
            nodes.len(),
            |i: int|
                nodes[i].with_interaction(
                    resolved(
                        nodes[i],
                        pending,
                        overlay,
                        config,
                        input.clicked(),
                        input.released(),
                        hits,
                    ),
                ),
        )
    }
}

/// The queue as one frame leaves it: the objects that were pressed and
/// released within the frame, which the next frame is to clear.
pub open spec fn resolve_pending(
    nodes: Seq<NodeQuery>,
    pending: Seq<u64>,
    overlay: bool,
    config: PluginConfig,
    input: PointerInput,
    hits: Seq<Option<RayHit>>,
) -> Seq<u64> {
    if !input.has_window {
        pending
    } else if !overlay && input.clicked() && config.press_enabled && input.released() {
        hit_entities(nodes, hits)
    } else {
        Seq::<u64>::empty()
    }
}

/// What one more ray adds to `last_hit` and to `hit_entities`.
pub(crate) proof fn lemma_next_hit(nodes: Seq<NodeQuery>, hits: Seq<Option<RayHit>>, k: int)
    requires
        0 <= k < hits.len(),
    ensures
        forall|entity: u64| #[trigger]
            last_hit(hits.take(k + 1), entity) == (match hits[k] {
                Some(hit) if hit.entity == entity => Some(hit.point),
                _ => last_hit(hits.take(k), entity),
            }),
        hit_entities(nodes, hits.take(k + 1)) == (match hits[k] {
            Some(hit) if pickable(nodes, hit.entity) => hit_entities(nodes, hits.take(k)).push(
                hit.entity,
            ),
            _ => hit_entities(nodes, hits.take(k)),
        }),
{
    assert(hits.take(k + 1).drop_last() =~= hits.take(k));
    assert(hits.take(k + 1).last() == hits[k]);
}

/// A ray that met an object is the last to have met it, or a later one is.
pub(crate) proof fn lemma_met_has_last_hit(hits: Seq<Option<RayHit>>, k: int)
    requires
        0 <= k < hits.len(),
        hits[k] is Some,
    ensures
        last_hit(hits, hits[k]->0.entity) is Some,
    decreases hits.len(),
{
    if k < hits.len() - 1 {
        lemma_met_has_last_hit(hits.drop_last(), k);
    }
}

/// A pickable object that some ray met is among the identities that the rays
/// met.
pub(crate) proof fn lemma_met_is_listed(nodes: Seq<NodeQuery>, hits: Seq<Option<RayHit>>, entity: u64)
    requires
        pickable(nodes, entity),
        last_hit(hits, entity) is Some,
    ensures
        hit_entities(nodes, hits).contains(entity),
    decreases hits.len(),
{
    broadcast use vstd::seq_lib::lemma_seq_contains_after_push;

    match hits.last() {
        Some(hit) if hit.entity == entity => {},
        _ => {
            lemma_met_is_listed(nodes, hits.drop_last(), entity);
        },
    }
}

} // verus!
