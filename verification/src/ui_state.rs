use vstd::prelude::*;
use smallvec::SmallVec;

verus! {

/// A queue of object identities: a `smallvec::SmallVec` that stores one
/// identity inline and moves to the heap when it holds more. What it holds is
/// known only through `queued`, as the four functions below report it.
#[verifier::external_body]
pub struct ResetQueue {
    items: SmallVec<[u64; 1]>,
}

/// The identities that a queue holds, oldest first.
pub uninterp spec fn queued(queue: ResetQueue) -> Seq<u64>;

/// `SmallVec::new`: the new vector holds nothing.
#[verifier::external_body]
fn queue_new() -> (queue: ResetQueue)
    ensures
        queued(queue) == Seq::<u64>::empty(),
{
    ResetQueue { items: SmallVec::new() }
}

/// `SmallVec::push`: the item is appended behind those already held.
#[verifier::external_body]
fn queue_push(queue: &mut ResetQueue, entity: u64)
    ensures
        queued(*final(queue)) == queued(*old(queue)).push(entity),
{
    queue.items.push(entity)
}

/// `SmallVec::drain` over the full range: the items come out in the order in
/// which they were held, and the vector is left empty.
#[verifier::external_body]
fn queue_drain(queue: &mut ResetQueue) -> (items: Vec<u64>)
    ensures
        items@ == queued(*old(queue)),
        queued(*final(queue)) == Seq::<u64>::empty(),
{
    queue.items.drain(..).collect()
}

/// `SmallVec::as_slice`: the items in the order in which they are held; the
/// vector itself stays as it is.
#[verifier::external_body]
fn queue_items(queue: &ResetQueue) -> (items: Vec<u64>)
    ensures
        items@ == queued(*queue),
{
    queue.items.as_slice().to_vec()
}

/// What the resolver carries from one frame to the next.
pub struct UiState {
    /// The objects to be cleared when the next frame begins.
    ui_3d_entities_to_reset: ResetQueue,
    /// Whether a flat element in front of the scene has the pointer.
    over_ui_2d_element: bool,
}

impl UiState {
    /// The objects to be cleared when the next frame begins, oldest first.
    pub closed spec fn pending(self) -> Seq<u64> {
        queued(self.ui_3d_entities_to_reset)
    }

    /// Whether a flat element in front of the scene has the pointer.
    pub closed spec fn overlay(self) -> bool {
        self.over_ui_2d_element
    }

    pub fn new() -> (state: UiState)
        ensures
            state.pending() == Seq::<u64>::empty(),
            !state.overlay(),
    {
        UiState { ui_3d_entities_to_reset: queue_new(), over_ui_2d_element: false }
    }

    pub fn over_ui_2d_element(&self) -> (claimed: bool)
        ensures
            claimed == self.overlay(),
    {
        self.over_ui_2d_element
    }

    pub fn set_over_ui_2d_element(&mut self, claimed: bool)
        ensures
            final(self).overlay() == claimed,
            final(self).pending() == old(self).pending(),
    {
        self.over_ui_2d_element = claimed;
    }

    pub fn entities_to_reset(&self) -> (entities: Vec<u64>)
        ensures
            entities@ == self.pending(),
    {
        queue_items(&self.ui_3d_entities_to_reset)
    }

    /// Queues one more object to be cleared when the next frame begins.
    pub fn defer_reset(&mut self, entity: u64)
        ensures
            final(self).pending() == old(self).pending().push(entity),
            final(self).overlay() == old(self).overlay(),
    {
        queue_push(&mut self.ui_3d_entities_to_reset, entity);
    }

    /// Empties the queue and hands out what it held.
    pub fn take_resets(&mut self) -> (entities: Vec<u64>)
        ensures
            entities@ == old(self).pending(),
            final(self).pending() == Seq::<u64>::empty(),
            final(self).overlay() == old(self).overlay(),
    {
        queue_drain(&mut self.ui_3d_entities_to_reset)
    }
}

impl Default for UiState {
    fn default() -> (state: UiState)
        ensures
            state.pending() == Seq::<u64>::empty(),
            !state.overlay(),
    {
        UiState::new()
    }
}

} // verus!
