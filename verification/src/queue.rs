use vstd::prelude::*;

verus! {

#[verifier::external_type_specification]
#[verifier::external_body]
#[verifier::reject_recursive_types(T)]
pub struct ExArrayQueue<T>(crossbeam_queue::ArrayQueue<T>);

/// The connection identifiers a queue currently holds, oldest first.
pub uninterp spec fn queue_contents(q: crossbeam_queue::ArrayQueue<u64>) -> Seq<u64>;

/// The fixed capacity the queue was created with.
pub uninterp spec fn queue_capacity(q: crossbeam_queue::ArrayQueue<u64>) -> nat;

/// Relies on crossbeam_queue::ArrayQueue::new: a new, empty ring buffer of
/// the given fixed capacity. `new` panics on a zero capacity and on one so
/// large that its stamp arithmetic overflows, so both are excluded here.
#[verifier::external_body]
pub(crate) fn queue_new(capacity: usize) -> (q: crossbeam_queue::ArrayQueue<u64>)
    requires
        1 <= capacity < usize::MAX / 2,
    ensures
        queue_contents(q) == Seq::<u64>::empty(),
        queue_capacity(q) == capacity as nat,
{
    crossbeam_queue::ArrayQueue::new(capacity)
}

/// Relies on crossbeam_queue::ArrayQueue::push: appends the value at the
/// tail if the queue is below capacity, otherwise hands it back untouched;
/// never blocks and never grows the buffer.
#[verifier::external_body]
pub(crate) fn queue_push(q: &mut crossbeam_queue::ArrayQueue<u64>, id: u64) -> (accepted: bool)
    ensures
        queue_capacity(*final(q)) == queue_capacity(*old(q)),
        accepted == (queue_contents(*old(q)).len() < queue_capacity(*old(q))),
        accepted ==> queue_contents(*final(q)) == queue_contents(*old(q)).push(id),
        !accepted ==> queue_contents(*final(q)) == queue_contents(*old(q)),
{
    q.push(id).is_ok()
}

/// Relies on crossbeam_queue::ArrayQueue::pop: removes and returns the
/// oldest value, or returns nothing when the queue is empty; never blocks.
#[verifier::external_body]
pub(crate) fn queue_pop(q: &mut crossbeam_queue::ArrayQueue<u64>) -> (item: Option<u64>)
    ensures
        queue_capacity(*final(q)) == queue_capacity(*old(q)),
        match item {
            Some(id) => queue_contents(*old(q)).len() > 0 && id == queue_contents(*old(q))[0]
                && queue_contents(*final(q)) == queue_contents(*old(q)).drop_first(),
            None => queue_contents(*old(q)).len() == 0 && queue_contents(*final(q))
                == queue_contents(*old(q)),
        },
{
    q.pop()
}

} // verus!
