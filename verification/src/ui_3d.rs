//! The resolver: which object the pointer hovers or presses in a frame.

use vstd::prelude::*;
use bevy_rapier3d::prelude::RapierContext;
use crate::config::PluginConfig;
use crate::frame::{
    hit_entities, hit_point, last_hit, lemma_next_hit, resolve_nodes, resolve_pending, settled,
};
use crate::input::PointerInput;
use crate::interaction::Interaction3d;
use crate::node::{hoverable, lemma_hoverable_same, lemma_pickable_same, pickable, NodeQuery};
use crate::point::{WorldPoint, WorldRay};
use crate::ray_cast::{cast_outcome, cast_rays, RayHit};
use crate::steps::{
    clear_unhit, collect_hover_candidates, hover_hit, press_hit, release_pressed,
    remove_candidate, reset_queued, screened,
};
use crate::ui_state::UiState;

verus! {

/// The state of a screened object once the rays in `hits` have been applied
/// to it, before the candidates that no ray met are cleared.
spec fn cast_state(
    base: NodeQuery,
    config: PluginConfig,
    clicked: bool,
    hits: Seq<Option<RayHit>>,
) -> Interaction3d {
    if !base.visible() {
        base.interaction
    } else if clicked && config.press_enabled {
        match last_hit(hits, base.entity) {
            Some(at) => Interaction3d::Pressed(hit_point(config, clicked, at)),
            None => base.interaction,
        }
    } else if config.hover_enabled && !base.interaction.pressed() {
        match last_hit(hits, base.entity) {
            Some(at) => Interaction3d::Hovered(hit_point(config, clicked, at)),
            None => base.interaction,
        }
    } else {
        base.interaction
    }
}

/// Whether a hover that the rays in `hits` carried to `entity` has struck it
/// from the candidates.
spec fn struck(
    base: Seq<NodeQuery>,
    config: PluginConfig,
    clicked: bool,
    hits: Seq<Option<RayHit>>,
    entity: u64,
) -> bool {
    &&& config.hover_enabled
    &&& !(clicked && config.press_enabled)
    &&& last_hit(hits, entity) is Some
    &&& hoverable(base, entity)
}

/// `hit_entities` looks at identity and visibility only.
proof fn lemma_hit_entities_same(a: Seq<NodeQuery>, b: Seq<NodeQuery>, hits: Seq<Option<RayHit>>)
    requires
        a.len() == b.len(),
        forall|i: int| 0 <= i < a.len() ==> (#[trigger] a[i]).same_object(b[i]),
    ensures
        hit_entities(a, hits) == hit_entities(b, hits),
    decreases hits.len(),
{
    if hits.len() > 0 {
        lemma_hit_entities_same(a, b, hits.drop_last());
        if let Some(hit) = hits.last() {
            lemma_pickable_same(a, b, hit.entity);
        }
    }
}

/// Resolves one frame from what the ray of each camera met.
///
/// The resets queued by the frame before are applied, then the release of a
/// press, then every object is screened. Unless an element in front of the
/// scene has the pointer, the hits are applied in the order of the cameras and
/// the hover candidates that no ray met are cleared. A hit on an identity that
/// is not pickable among `nodes` changes nothing. Without a primary window the
/// frame changes nothing at all.
pub fn resolve_interactions(
    ui_state: &mut UiState,
    plugin_config: &PluginConfig,
    input: &PointerInput,
    hits: &Vec<Option<RayHit>>,
    nodes: &mut Vec<NodeQuery>,
)
    ensures
        final(nodes)@ == resolve_nodes(
            old(nodes)@,
            old(ui_state).pending(),
            old(ui_state).overlay(),
            *plugin_config,
            *input,
            hits@,
        ),
        final(ui_state).pending() == resolve_pending(
            old(nodes)@,
            old(ui_state).pending(),
            old(ui_state).overlay(),
            *plugin_config,
            *input,
            hits@,
        ),
        final(ui_state).overlay() == old(ui_state).overlay(),
{
    if !input.has_window {
        return ;
    }
    let config = *plugin_config;
    let mouse_clicked = input.mouse_clicked();
    let mouse_released = input.mouse_released();
    let pressing = mouse_clicked && config.press_enabled;
    let ghost pending = ui_state.pending();
    let ghost release = mouse_released && config.press_enabled;

    reset_queued(ui_state, nodes);
    if mouse_released && config.press_enabled {
        release_pressed(nodes);
    }
    let ghost rested = nodes@;
    assert forall|i: int| 0 <= i < rested.len() implies #[trigger] rested[i] == old(
        nodes,
    )@[i].with_interaction(settled(old(nodes)@[i], pending, release)) by {
        assert(!Seq::<u64>::empty().contains(old(nodes)@[i].entity));
    }

    let overlay = ui_state.over_ui_2d_element();
    let mut hovered_nodes = collect_hover_candidates(nodes, mouse_clicked || overlay);
    let ghost base = nodes@;
    let ghost listed = hovered_nodes@;
    if overlay {
        assert(nodes@ =~= resolve_nodes(old(nodes)@, pending, overlay, config, *input, hits@));
        return ;
    }
    let mut k: usize = 0;
    while k < hits.len()
        invariant
            k <= hits.len(),
            pressing == (mouse_clicked && config.press_enabled),
            nodes@.len() == base.len(),
            forall|i: int|
                0 <= i < base.len() ==> #[trigger] nodes@[i] == base[i].with_interaction(
                    cast_state(base[i], config, mouse_clicked, hits@.take(k as int)),
                ),
            forall|entity: u64| #[trigger]
                hovered_nodes@.contains(entity) <==> listed.contains(entity) && !struck(
                    base,
                    config,
                    mouse_clicked,
                    hits@.take(k as int),
                    entity,
                ),
            ui_state.pending() == (if pressing && mouse_released {
                hit_entities(base, hits@.take(k as int))
            } else {
                Seq::<u64>::empty()
            }),
            ui_state.overlay() == old(ui_state).overlay(),
        decreases hits.len() - k,
    {
        let ghost earlier = hits@.take(k as int);
        let ghost current = nodes@;
        let ghost remaining = hovered_nodes@;
        proof {
            lemma_next_hit(base, hits@, k as int);
        }
        if let Some(hit) = hits[k] {
            let point = if mouse_clicked {
                if config.press_point_enabled {
                    hit.point
                } else {
                    WorldPoint::origin()
                }
            } else {
                if config.hover_point_enabled {
                    hit.point
                } else {
                    WorldPoint::origin()
                }
            };
            if pressing {
                let found = press_hit(nodes, hit.entity, point);
                proof {
                    lemma_pickable_same(current, base, hit.entity);
                }
                if mouse_released && found {
                    ui_state.defer_reset(hit.entity);
                }
            } else if config.hover_enabled {
                let touched = hover_hit(nodes, hit.entity, point);
                proof {
                    lemma_hoverable_same(current, base, hit.entity);
                }
                if touched {
                    remove_candidate(&mut hovered_nodes, hit.entity);
                }
            }
        }
        proof {
            let later = hits@.take(k + 1);
            assert forall|entity: u64| #[trigger]
                hovered_nodes@.contains(entity) <==> listed.contains(entity) && !struck(
                    base,
                    config,
                    mouse_clicked,
                    later,
                    entity,
                ) by {
                assert(remaining.contains(entity) <==> listed.contains(entity) && !struck(
                    base,
                    config,
                    mouse_clicked,
                    earlier,
                    entity,
                ));
                assert(last_hit(later, entity) == (match hits@[k as int] {
                    Some(hit) if hit.entity == entity => Some(hit.point),
                    _ => last_hit(earlier, entity),
                }));
            }
        }
        k += 1;
    }
    assert(hits@.take(k as int) =~= hits@);
    let ghost cast = nodes@;
    clear_unhit(nodes, &hovered_nodes);
    proof {
        let goal = resolve_nodes(old(nodes)@, pending, overlay, config, *input, hits@);
        assert forall|i: int| 0 <= i < goal.len() implies nodes@[i] == goal[i] by {
            let node = old(nodes)@[i];
            assert(cast[i] == base[i].with_interaction(
                cast_state(base[i], config, mouse_clicked, hits@),
            ));
            assert(base[i] == rested[i].with_interaction(screened(rested[i], mouse_clicked)));
            lemma_pickable_same(rested, old(nodes)@, node.entity);
            if node.visible() {
                assert(rested[i].entity == node.entity && rested[i].visible());
                assert(pickable(rested, node.entity));
                if !base[i].interaction.pressed() {
                    assert(base[i].entity == node.entity && base[i].visible());
                    assert(hoverable(base, node.entity));
                }
            }
        }
        assert(nodes@ =~= goal);
        if pressing && mouse_released {
            lemma_hit_entities_same(base, old(nodes)@, hits@);
        }
    }
}

/// Resolves one frame: casts the ray of each camera against the pickable
/// objects and applies what the rays met, as `resolve_interactions` does.
///
/// `rays` holds one entry for each active camera, in their order, and no ray
/// for a camera that cannot place the pointer in the world. No ray is cast
/// without a primary window, nor while an element in front of the scene has
/// the pointer. Which object a ray meets, and where, is for the physics engine
/// to say: the frame is resolved from some answers that name pickable objects
/// only.
pub fn interaction_system(
    ui_state: &mut UiState,
    plugin_config: &PluginConfig,
    input: &PointerInput,
    rapier_context: &RapierContext,
    rays: &Vec<Option<WorldRay>>,
    nodes: &mut Vec<NodeQuery>,
)
    ensures
        exists|hits: Seq<Option<RayHit>>|
            {
                &&& #[trigger] cast_outcome(rays@, old(nodes)@, hits)
                &&& final(nodes)@ == resolve_nodes(
                    old(nodes)@,
                    old(ui_state).pending(),
                    old(ui_state).overlay(),
                    *plugin_config,
                    *input,
                    hits,
                )
                &&& final(ui_state).pending() == resolve_pending(
                    old(nodes)@,
                    old(ui_state).pending(),
                    old(ui_state).overlay(),
                    *plugin_config,
                    *input,
                    hits,
                )
            },
        final(ui_state).overlay() == old(ui_state).overlay(),
        final(nodes)@.len() == old(nodes)@.len(),
        forall|i: int|
            0 <= i < old(nodes)@.len() ==> (#[trigger] final(nodes)@[i]).same_object(
                old(nodes)@[i],
            ),
        forall|i: int|
            0 <= i < old(nodes)@.len() && input.has_window && !old(nodes)@[i].visible() ==> (
            #[trigger] final(nodes)@[i]).interaction == Interaction3d::Idle,
        !input.has_window ==> final(nodes)@ == old(nodes)@ && final(ui_state).pending() == old(
            ui_state,
        ).pending(),
{
    let casting = input.has_window && !ui_state.over_ui_2d_element();
    let hits = if casting {
        cast_rays(rapier_context, rays, nodes)
    } else {
        Vec::new()
    };
    resolve_interactions(ui_state, plugin_config, input, &hits, nodes);
    proof {
        let unmet = Seq::new(rays@.len(), |k: int| None::<RayHit>);
        let answers = if casting {
            hits@
        } else {
            unmet
        };
        assert(cast_outcome(rays@, old(nodes)@, answers));
        assert(nodes@ =~= resolve_nodes(
            old(nodes)@,
            old(ui_state).pending(),
            old(ui_state).overlay(),
            *plugin_config,
            *input,
            answers,
        ));
    }
}

} // verus!
