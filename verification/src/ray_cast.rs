use vstd::prelude::*;
use bevy::prelude::Entity;
use bevy_rapier3d::prelude::{QueryFilter, RapierContext, Real, Vect};
use crate::node::{is_pickable, pickable, NodeQuery};
use crate::point::{WorldPoint, WorldRay};

verus! {

/// `bevy_rapier3d::plugin::RapierContext`, the state of the physics engine with
/// the shapes of the scene. Nothing is known of what it holds.
#[verifier::external_type_specification]
#[verifier::external_body]
pub struct ExRapierContext(RapierContext);

/// Where a ray first meets an object.
#[derive(Clone, Copy, Debug, PartialEq, Eq, Structural)]
pub struct RayHit {
    /// The identity of the object that the ray met.
    pub entity: u64,
    /// The point in world space at which it met the object.
    pub point: WorldPoint,
}

/// `RapierContext::cast_ray_and_get_normal` with the largest finite length,
/// solid shapes and a filter whose predicate is `is_pickable`. The coordinates
/// go in and come out by their bit patterns, the identity by
/// `Entity::to_bits`.
///
/// Taken on trust: the engine reports a shape only after the predicate has
/// admitted the identity attached to it, so whatever it reports is pickable.
/// That it reports the nearest such shape, and the point where the ray enters
/// it, is the engine's word and is not stated here.
#[verifier::external_body]
fn cast_ray(context: &RapierContext, ray: &WorldRay, nodes: &Vec<NodeQuery>) -> (hit: Option<RayHit>)
    ensures
        hit matches Some(h) ==> pickable(nodes@, h.entity),
{
    let o = ray.origin;
    let d = ray.direction;
    let shown = |entity: Entity| is_pickable(nodes, entity.to_bits());
    match context.cast_ray_and_get_normal(
        Vect::new(Real::from_bits(o.x), Real::from_bits(o.y), Real::from_bits(o.z)),
        Vect::new(Real::from_bits(d.x), Real::from_bits(d.y), Real::from_bits(d.z)),
        Real::MAX, true,
        QueryFilter::new().predicate(&shown),
    ) {
        Some((entity, at)) => Some(RayHit {
            entity: entity.to_bits(),
            point: WorldPoint { x: at.point.x.to_bits(), y: at.point.y.to_bits(), z: at.point.z.to_bits() },
        }),
        None => None,
    }
}

/// What casting `rays` against `nodes` may give: one answer for each ray, none
/// where there is no ray, and only pickable objects.
pub open spec fn cast_outcome(
    rays: Seq<Option<WorldRay>>,
    nodes: Seq<NodeQuery>,
    hits: Seq<Option<RayHit>>,
) -> bool {
    &&& hits.len() == rays.len()
    &&& forall|k: int|
        0 <= k < hits.len() ==> (match #[trigger] hits[k] {
            Some(hit) => rays[k] is Some && pickable(nodes, hit.entity),
            None => true,
        })
}

/// Casts the ray of each camera against the pickable objects. A camera that
/// has no ray meets nothing.
pub fn cast_rays(
    context: &RapierContext,
    rays: &Vec<Option<WorldRay>>,
    nodes: &Vec<NodeQuery>,
) -> (hits: Vec<Option<RayHit>>)
    ensures
        cast_outcome(rays@, nodes@, hits@),
{
    let mut hits: Vec<Option<RayHit>> = Vec::new();
    let mut k: usize = 0;
    while k < rays.len()
        invariant
            k <= rays.len(),
            cast_outcome(rays@.take(k as int), nodes@, hits@),
        decreases rays.len() - k,
    {
        let hit = match &rays[k] {
            Some(ray) => cast_ray(context, ray, nodes),
            None => None,
        };
        hits.push(hit);
        k += 1;
    }
    proof {
        assert(rays@.take(k as int) =~= rays@);
    }
    hits
}

} // verus!
