use vstd::prelude::*;

verus! {

/// An opaque unit of work handed from a producer to the pool and on to a
/// `Worker`. The pool never inspects it; the identifier is the handle by
/// which the surrounding system finds the actual resource (for example an
/// accepted network stream).
#[derive(Clone, Copy, PartialEq, Eq, Structural, Debug)]
pub struct Connection {
    pub id: u64,
}

impl Connection {
    pub fn new(id: u64) -> (c: Connection)
        ensures
            c.id == id,
    {
        Connection { id }
    }
}

} // verus!
