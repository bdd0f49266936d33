//! A simple stack of nodes: nodes are pushed at the head, one at a time or
//! as a whole sub-list, and can only be removed all at once, which leaves the
//! queue empty.

use vstd::prelude::*;

verus! {

/// A queue of nodes, viewed as the sequence of its nodes from the head on.
#[derive(Debug)]
pub struct RawQueue<N> {
    nodes: Vec<N>,
}

impl<N> View for RawQueue<N> {
    type V = Seq<N>;

    closed spec fn view(&self) -> Seq<N> {
        self.nodes@
    }
}

impl<N> RawQueue<N> {
    /// Creates an empty queue.
    pub fn new() -> (q: Self)
        ensures
            q@ == Seq::<N>::empty(),
    {
        RawQueue { nodes: Vec::new() }
    }

    /// Returns `true` if the queue holds no node.
    pub fn is_empty(&self) -> (b: bool)
        ensures
            b == (self@.len() == 0),
    {
        self.nodes.len() == 0
    }

    /// Pushes `node` to the head of the queue.
    pub fn push(&mut self, node: N)
        ensures
            final(self)@ == seq![node] + old(self)@,
    {
        self.nodes.insert(0, node);
        assert(self@ =~= seq![node] + old(self)@);
    }

    /// Pushes the sub-list `nodes`, in its order, to the head of the queue.
    pub fn push_many(&mut self, nodes: Vec<N>)
        ensures
            final(self)@ == nodes@ + old(self)@,
    {
        let mut nodes = nodes;
        nodes.append(&mut self.nodes);
        self.nodes = nodes;
    }

    /// Takes all nodes out of the queue, head first, and leaves it empty.
    pub fn take_all(&mut self) -> (taken: Vec<N>)
        ensures
            taken@ == old(self)@,
            final(self)@ == Seq::<N>::empty(),
    {
        let mut taken = Vec::new();
        core::mem::swap(&mut taken, &mut self.nodes);
        taken
    }

    /// The same as [`take_all`](Self::take_all), for a queue that is not
    /// shared with any other thread.
    pub fn take_all_unsync(&mut self) -> (taken: Vec<N>)
        ensures
            taken@ == old(self)@,
            final(self)@ == Seq::<N>::empty(),
    {
        self.take_all()
    }
}

} // verus!
