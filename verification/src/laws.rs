//! What holds of every frame, proved from the frame model.

use vstd::prelude::*;
use crate::config::PluginConfig;
use crate::frame::{
    hit_point, last_hit, lemma_met_has_last_hit, lemma_met_is_listed, resolve_nodes,
    resolve_pending, settled,
};
use crate::input::PointerInput;
use crate::interaction::Interaction3d;
use crate::node::{pickable, NodeQuery};
use crate::point::WorldPoint;
use crate::ray_cast::RayHit;

verus! {

/// A frame without a press or release edge and without an element in front of
/// the scene settles at once: resolved again with the same rays, nothing
/// changes any more. An object that is shown and not pressed, and that a ray
/// meets while hovering is looked for, rests at `Hovered`, at the reported
/// point of the last ray that met it.
pub proof fn law_quiet_frame_is_stable(
    nodes: Seq<NodeQuery>,
    pending: Seq<u64>,
    config: PluginConfig,
    input: PointerInput,
    hits: Seq<Option<RayHit>>,
)
    requires
        !input.clicked(),
        !input.released(),
    ensures
        ({
            let once = resolve_nodes(nodes, pending, false, config, input, hits);
            let queue = resolve_pending(nodes, pending, false, config, input, hits);
            &&& resolve_nodes(once, queue, false, config, input, hits) == once
            &&& resolve_pending(once, queue, false, config, input, hits) == queue
            &&& forall|i: int|
                0 <= i < nodes.len() && input.has_window && config.hover_enabled
                    && nodes[i].visible() && !settled(nodes[i], pending, false).pressed()
                    && last_hit(hits, nodes[i].entity) is Some ==> (#[trigger] once[i]).interaction
                    == Interaction3d::Hovered(
                    hit_point(config, false, last_hit(hits, nodes[i].entity)->0),
                )
        }),
{
    let once = resolve_nodes(nodes, pending, false, config, input, hits);
    let queue = resolve_pending(nodes, pending, false, config, input, hits);
    if input.has_window {
        assert(queue =~= Seq::<u64>::empty());
        assert forall|i: int| 0 <= i < once.len() implies !queue.contains(
            (#[trigger] once[i]).entity,
        ) by {}
    }
    assert(resolve_nodes(once, queue, false, config, input, hits) =~= once);
}

/// A press and a release in one frame show for exactly one frame. In a frame
/// with both edges, while pressing is looked for and no element in front of
/// the scene has the pointer, a shown object that a ray meets is left
/// `Pressed` and queued. The frame after it, if it has no edge of its own,
/// leaves the object idle, unless a ray meets the object again while hovering
/// is looked for and nothing is in front of the scene.
pub proof fn law_tap_shows_for_one_frame(
    nodes: Seq<NodeQuery>,
    pending: Seq<u64>,
    config: PluginConfig,
    tap: PointerInput,
    hits: Seq<Option<RayHit>>,
    quiet: PointerInput,
    overlay_after: bool,
    hits_after: Seq<Option<RayHit>>,
    i: int,
)
    requires
        0 <= i < nodes.len(),
        nodes[i].visible(),
        config.press_enabled,
        tap.has_window && tap.clicked() && tap.released(),
        last_hit(hits, nodes[i].entity) is Some,
        quiet.has_window && !quiet.clicked() && !quiet.released(),
        !(config.hover_enabled && !overlay_after && last_hit(hits_after, nodes[i].entity) is Some),
    ensures
        ({
            let first = resolve_nodes(nodes, pending, false, config, tap, hits);
            let queue = resolve_pending(nodes, pending, false, config, tap, hits);
            let second = resolve_nodes(first, queue, overlay_after, config, quiet, hits_after);
            &&& first[i].interaction == Interaction3d::Pressed(
                hit_point(config, true, last_hit(hits, nodes[i].entity)->0),
            )
            &&& queue.contains(nodes[i].entity)
            &&& second[i].interaction == Interaction3d::Idle
        }),
{
    assert(nodes[i].entity == nodes[i].entity && nodes[i].visible());
    assert(pickable(nodes, nodes[i].entity));
    lemma_met_is_listed(nodes, hits, nodes[i].entity);
}

/// An object that is not shown is idle after every frame that has a window,
/// whatever the rays met; a frame without a window leaves it as it was.
pub proof fn law_hidden_object_is_idle(
    nodes: Seq<NodeQuery>,
    pending: Seq<u64>,
    overlay: bool,
    config: PluginConfig,
    input: PointerInput,
    hits: Seq<Option<RayHit>>,
    i: int,
)
    requires
        0 <= i < nodes.len(),
        !nodes[i].visible(),
    ensures
        resolve_nodes(nodes, pending, overlay, config, input, hits)[i].interaction == (
        if input.has_window {
            Interaction3d::Idle
        } else {
            nodes[i].interaction
        }),
{
}

/// While an element in front of the scene has the pointer, a frame drops
/// every hover, queues nothing, and the rays play no part in it.
pub proof fn law_overlay_suppresses(
    nodes: Seq<NodeQuery>,
    pending: Seq<u64>,
    config: PluginConfig,
    input: PointerInput,
    hits: Seq<Option<RayHit>>,
    other_hits: Seq<Option<RayHit>>,
)
    requires
        input.has_window,
    ensures
        ({
            let after = resolve_nodes(nodes, pending, true, config, input, hits);
            &&& forall|i: int|
                0 <= i < nodes.len() && (#[trigger] nodes[i]).interaction.hovered()
                    ==> after[i].interaction == Interaction3d::Idle
            &&& forall|i: int| 0 <= i < nodes.len() ==> !(#[trigger] after[i]).interaction.hovered()
            &&& after == resolve_nodes(nodes, pending, true, config, input, other_hits)
            &&& resolve_pending(nodes, pending, true, config, input, hits) == Seq::<u64>::empty()
        }),
{
    assert(resolve_nodes(nodes, pending, true, config, input, hits) =~= resolve_nodes(
        nodes,
        pending,
        true,
        config,
        input,
        other_hits,
    ));
}

/// An object that is still pressed once the resets and the release of the
/// frame have been applied is never turned to `Hovered` by a ray. While it is
/// shown it stays as it is, or a press edge presses it anew where a ray meets
/// it.
pub proof fn law_pressed_is_not_hovered(
    nodes: Seq<NodeQuery>,
    pending: Seq<u64>,
    overlay: bool,
    config: PluginConfig,
    input: PointerInput,
    hits: Seq<Option<RayHit>>,
    i: int,
)
    requires
        0 <= i < nodes.len(),
        settled(nodes[i], pending, input.released() && config.press_enabled).pressed(),
    ensures
        ({
            let after = resolve_nodes(nodes, pending, overlay, config, input, hits)[i].interaction;
            let met = last_hit(hits, nodes[i].entity);
            &&& !after.hovered()
            &&& nodes[i].visible() ==> after == (if input.has_window && !overlay && input.clicked()
                && config.press_enabled && met is Some {
                Interaction3d::Pressed(hit_point(config, true, met->0))
            } else {
                nodes[i].interaction
            })
        }),
{
}

/// With hovering looked for and its point switched off, every `Hovered` that
/// a frame with a window leaves reports the origin, wherever the ray met the
/// object. A frame with a press edge is held to this only where the press
/// point is not switched on without pressing being looked for.
pub proof fn law_hover_point_is_gated(
    nodes: Seq<NodeQuery>,
    pending: Seq<u64>,
    overlay: bool,
    config: PluginConfig,
    input: PointerInput,
    hits: Seq<Option<RayHit>>,
    i: int,
)
    requires
        0 <= i < nodes.len(),
        input.has_window,
        config.hover_enabled,
        !config.hover_point_enabled,
        !(input.clicked() && config.press_point_enabled && !config.press_enabled),
    ensures
        ({
            let after = resolve_nodes(nodes, pending, overlay, config, input, hits)[i].interaction;
            after.hovered() ==> after == Interaction3d::Hovered(WorldPoint::zero())
        }),
{
}

/// Every camera counts: when the rays of two cameras meet two shown objects
/// in one frame, with a window and nothing in front of the scene, each object
/// is marked, whatever the other ray met. A press edge, where pressing is
/// looked for, leaves both `Pressed`; otherwise, where hovering is looked for,
/// each is left `Hovered` unless it is still pressed.
pub proof fn law_every_camera_counts(
    nodes: Seq<NodeQuery>,
    pending: Seq<u64>,
    config: PluginConfig,
    input: PointerInput,
    hits: Seq<Option<RayHit>>,
    first: int,
    second: int,
    i: int,
    j: int,
)
    requires
        input.has_window,
        0 <= first < hits.len() && 0 <= second < hits.len(),
        hits[first] is Some && hits[second] is Some,
        0 <= i < nodes.len() && 0 <= j < nodes.len(),
        nodes[i].visible() && nodes[j].visible(),
        nodes[i].entity == hits[first]->0.entity,
        nodes[j].entity == hits[second]->0.entity,
    ensures
        ({
            let after = resolve_nodes(nodes, pending, false, config, input, hits);
            let release = input.released() && config.press_enabled;
            &&& input.clicked() && config.press_enabled ==> after[i].interaction.pressed()
                && after[j].interaction.pressed()
            &&& !(input.clicked() && config.press_enabled) && config.hover_enabled ==> {
                &&& after[i].interaction.hovered() || settled(nodes[i], pending, release).pressed()
                &&& after[j].interaction.hovered() || settled(nodes[j], pending, release).pressed()
            }
        }),
{
    lemma_met_has_last_hit(hits, first);
    lemma_met_has_last_hit(hits, second);
}

} // verus!
