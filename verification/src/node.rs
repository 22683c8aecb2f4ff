use vstd::prelude::*;
use crate::interaction::Interaction3d;

verus! {

/// What the resolver reads and writes of one interactive object.
#[derive(Clone, Copy, Debug, PartialEq, Eq, Structural)]
pub struct NodeQuery {
    /// The identity of the object.
    pub entity: u64,
    /// The pointer interaction that the object is in.
    pub interaction: Interaction3d,
    /// Whether the scene shows the object; an object without the flag is shown.
    pub computed_visibility: Option<bool>,
}

impl NodeQuery {
    /// An object is hidden only when its flag is present and false.
    pub open spec fn visible(self) -> bool {
        self.computed_visibility != Some(false)
    }

    /// The same object in another state.
    pub open spec fn with_interaction(self, interaction: Interaction3d) -> NodeQuery {
        NodeQuery { entity: self.entity, interaction, computed_visibility: self.computed_visibility }
    }

    /// The same object as `other` but for its state.
    pub open spec fn same_object(self, other: NodeQuery) -> bool {
        self.entity == other.entity && self.computed_visibility == other.computed_visibility
    }

    pub fn is_visible(&self) -> (b: bool)
        ensures
            b == self.visible(),
    {
        match self.computed_visibility {
            Some(shown) => shown,
            None => true,
        }
    }
}

/// A ray may stop at `entity` when some tracked object has that identity and is
/// shown.
pub open spec fn pickable(nodes: Seq<NodeQuery>, entity: u64) -> bool {
    exists|i: int| 0 <= i < nodes.len() && #[trigger] nodes[i].entity == entity && nodes[i].visible()
}

pub fn is_pickable(nodes: &Vec<NodeQuery>, entity: u64) -> (b: bool)
    ensures
        b == pickable(nodes@, entity),
{
    let mut i: usize = 0;
    while i < nodes.len()
        invariant
            i <= nodes.len(),
            forall|j: int| 0 <= j < i ==> !(#[trigger] nodes[j].entity == entity && nodes[j].visible()),
        decreases nodes.len() - i,
    {
        if nodes[i].entity == entity && nodes[i].is_visible() {
            return true;
        }
        i += 1;
    }
    false
}

/// A ray may turn `entity` to `Hovered` when some tracked object has that
/// identity, is shown and is not pressed.
pub open spec fn hoverable(nodes: Seq<NodeQuery>, entity: u64) -> bool {
    exists|i: int|
        0 <= i < nodes.len() && #[trigger] nodes[i].entity == entity && nodes[i].visible()
            && !nodes[i].interaction.pressed()
}

/// Two lists that hold the same objects, place by place, have the same
/// pickable objects.
pub(crate) proof fn lemma_pickable_same(a: Seq<NodeQuery>, b: Seq<NodeQuery>, entity: u64)
    requires
        a.len() == b.len(),
        forall|i: int| 0 <= i < a.len() ==> (#[trigger] a[i]).same_object(b[i]),
    ensures
        pickable(a, entity) == pickable(b, entity),
{
    if pickable(a, entity) {
        let at = choose|at: int|
            0 <= at < a.len() && #[trigger] a[at].entity == entity && a[at].visible();
        assert(a[at].same_object(b[at]));
        assert(b[at].entity == entity && b[at].visible());
    }
    if pickable(b, entity) {
        let at = choose|at: int|
            0 <= at < b.len() && #[trigger] b[at].entity == entity && b[at].visible();
        assert(a[at].same_object(b[at]));
        assert(a[at].entity == entity && a[at].visible());
    }
}

/// Two lists that hold the same objects, place by place, with the same ones
/// pressed, have the same hoverable objects.
pub(crate) proof fn lemma_hoverable_same(a: Seq<NodeQuery>, b: Seq<NodeQuery>, entity: u64)
    requires
        a.len() == b.len(),
        forall|i: int|
            0 <= i < a.len() ==> (#[trigger] a[i]).same_object(b[i]) && a[i].interaction.pressed()
                == b[i].interaction.pressed(),
    ensures
        hoverable(a, entity) == hoverable(b, entity),
{
    if hoverable(a, entity) {
        let at = choose|at: int|
            0 <= at < a.len() && #[trigger] a[at].entity == entity && a[at].visible()
                && !a[at].interaction.pressed();
        assert(a[at].same_object(b[at]));
        assert(b[at].entity == entity && b[at].visible() && !b[at].interaction.pressed());
    }
    if hoverable(b, entity) {
        let at = choose|at: int|
            0 <= at < b.len() && #[trigger] b[at].entity == entity && b[at].visible()
                && !b[at].interaction.pressed();
        assert(a[at].same_object(b[at]));
        assert(a[at].entity == entity && a[at].visible() && !a[at].interaction.pressed());
    }
}

/// Among the first `i + 1` objects those are pickable that are so among the
/// first `i`, and the one at `i` if it is shown.
pub(crate) proof fn lemma_pickable_step(nodes: Seq<NodeQuery>, i: int, entity: u64)
    requires
        0 <= i < nodes.len(),
    ensures
        pickable(nodes.take(i + 1), entity) <==> pickable(nodes.take(i), entity) || (nodes[i].entity
            == entity && nodes[i].visible()),
{
    let seen = nodes.take(i);
    let more = nodes.take(i + 1);
    if pickable(seen, entity) {
        let at = choose|at: int|
            0 <= at < seen.len() && #[trigger] seen[at].entity == entity && seen[at].visible();
        assert(more[at].entity == entity && more[at].visible());
    }
    if nodes[i].entity == entity && nodes[i].visible() {
        assert(more[i].entity == entity && more[i].visible());
    }
    if pickable(more, entity) {
        let at = choose|at: int|
            0 <= at < more.len() && #[trigger] more[at].entity == entity && more[at].visible();
        if at < i {
            assert(seen[at].entity == entity && seen[at].visible());
        }
    }
}

/// Among the first `i + 1` objects those are hoverable that are so among the
/// first `i`, and the one at `i` if it is shown and not pressed.
pub(crate) proof fn lemma_hoverable_step(nodes: Seq<NodeQuery>, i: int, entity: u64)
    requires
        0 <= i < nodes.len(),
    ensures
        hoverable(nodes.take(i + 1), entity) <==> hoverable(nodes.take(i), entity) || (
        nodes[i].entity == entity && nodes[i].visible() && !nodes[i].interaction.pressed()),
{
    let seen = nodes.take(i);
    let more = nodes.take(i + 1);
    if hoverable(seen, entity) {
        let at = choose|at: int|
            0 <= at < seen.len() && #[trigger] seen[at].entity == entity && seen[at].visible()
                && !seen[at].interaction.pressed();
        assert(more[at].entity == entity && more[at].visible() && !more[at].interaction.pressed());
    }
    if nodes[i].entity == entity && nodes[i].visible() && !nodes[i].interaction.pressed() {
        assert(more[i].entity == entity && more[i].visible() && !more[i].interaction.pressed());
    }
    if hoverable(more, entity) {
        let at = choose|at: int|
            0 <= at < more.len() && #[trigger] more[at].entity == entity && more[at].visible()
                && !more[at].interaction.pressed();
        if at < i {
            assert(seen[at].entity == entity && seen[at].visible()
                && !seen[at].interaction.pressed());
        }
    }
}

} // verus!
