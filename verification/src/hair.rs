use vstd::prelude::*;

verus! {

/// Where a strand grows from: its offset from the head centre and the
/// direction it points in at rest.
#[derive(Clone, Copy, Debug)]
pub struct HairRoot<V> {
    pub offset: V,
    pub normal: V,
}

/// One simulated point of a strand.
#[derive(Clone, Copy, Debug)]
pub struct HairNode<V> {
    pub position: V,
    pub velocity: V,
}

/// A strand of hair: its root, all of its nodes, and how many of them,
/// counted from the root, are still attached (`active_len`). Cutting only
/// lowers `active_len`; the nodes themselves stay allocated.
#[derive(Clone, Debug)]
pub struct HairStrand<V> {
    pub root: HairRoot<V>,
    pub nodes: Vec<HairNode<V>>,
    pub active_len: usize,
}

impl<V> HairStrand<V> {
    /// Number of nodes that are attached: `active_len`, but never more than
    /// there are nodes.
    pub open spec fn active_end(&self) -> int {
        if self.active_len < self.nodes@.len() {
            self.active_len as int
        } else {
            self.nodes@.len() as int
        }
    }

    /// The attached nodes, root first.
    pub open spec fn attached(&self) -> Seq<HairNode<V>> {
        self.nodes@.take(self.active_end())
    }

    /// A strand in a consistent state: at least the root node is attached,
    /// and no more nodes are attached than exist.
    pub open spec fn well_formed(&self) -> bool {
        1 <= self.active_len <= self.nodes@.len()
    }

    /// `true` while at least one segment (two nodes) is still attached.
    pub fn is_active(&self) -> (r: bool)
        ensures
            r == (self.active_len > 1),
    {
        self.active_len > 1
    }

    fn attached_count(&self) -> (n: usize)
        ensures
            n == self.active_end(),
    {
        if self.active_len < self.nodes.len() {
            self.active_len
        } else {
            self.nodes.len()
        }
    }

    /// The attached nodes, root first.
    pub fn active_nodes(&self) -> (r: &[HairNode<V>])
        ensures
            r@ == self.attached(),
    {
        let end = self.attached_count();
        let (head, _rest) = self.nodes.as_slice().split_at(end);
        head
    }

    /// The attached nodes, root first, for updating in place; the detached
    /// nodes and the strand's other fields are left as they are.
    pub fn active_nodes_mut(&mut self) -> (r: &mut [HairNode<V>])
        ensures
            r@ == old(self).attached(),
            final(self).root == old(self).root,
            final(self).active_len == old(self).active_len,
            final(self).nodes@ == final(r)@ + old(self).nodes@.skip(old(self).active_end()),
    {
        let end = self.attached_count();
        let (head, _rest) = self.nodes.as_mut_slice().split_at_mut(end);
        head
    }

    /// Sets the number of attached nodes to `new_active_len`, clamped to at
    /// least the root node and at most all nodes.
    pub fn shorten_to(&mut self, new_active_len: usize)
        requires
            old(self).nodes@.len() >= 1,
        ensures
            final(self).active_len == (if new_active_len < 1 {
                1
            } else if new_active_len > old(self).nodes@.len() {
                old(self).nodes@.len() as int
            } else {
                new_active_len as int
            }),
            final(self).nodes == old(self).nodes,
            final(self).root == old(self).root,
            final(self).well_formed(),
    {
        let len = self.nodes.len();
        self.active_len = if new_active_len < 1 {
            1
        } else if new_active_len > len {
            len
        } else {
            new_active_len
        };
    }
}

impl<V: Copy> HairStrand<V> {
    /// A strand of `nodes_per_strand` nodes, all attached, each resting at
    /// `origin` with velocity `origin` (the zero vector, as the caller
    /// supplies it).
    pub fn new(root: HairRoot<V>, nodes_per_strand: usize, origin: V) -> (s: Self)
        ensures
            s.root == root,
            s.active_len == nodes_per_strand,
            s.nodes@.len() == nodes_per_strand,
            nodes_per_strand >= 1 ==> s.well_formed(),
            forall|i: int|
                0 <= i < nodes_per_strand ==> #[trigger] s.nodes@[i] == (HairNode {
                    position: origin,
                    velocity: origin,
                }),
    {
        let blank = HairNode { position: origin, velocity: origin };
        let mut nodes: Vec<HairNode<V>> = Vec::with_capacity(nodes_per_strand);
        let mut i: usize = 0;
        while i < nodes_per_strand
            invariant
                i <= nodes_per_strand,
                nodes@.len() == i,
                forall|j: int| 0 <= j < i ==> #[trigger] nodes@[j] == blank,
            decreases nodes_per_strand - i,
        {
            nodes.push(blank);
            i = i + 1;
        }
        HairStrand { root, nodes, active_len: nodes_per_strand }
    }

    /// Cuts the strand just before node `cut_idx`, which must be an attached
    /// node other than the root: the attached nodes from `cut_idx` on are
    /// returned in order, and only the first `cut_idx` nodes stay attached.
    pub fn cut_at(&mut self, cut_idx: usize) -> (tail: Vec<HairNode<V>>)
        requires
            1 <= cut_idx < old(self).active_end(),
        ensures
            tail@ == old(self).nodes@.subrange(cut_idx as int, old(self).active_end()),
            final(self).active_len == cut_idx,
            final(self).nodes == old(self).nodes,
            final(self).root == old(self).root,
            old(self).attached() == final(self).attached() + tail@,
            tail@.len() >= 1,
            final(self).active_len < old(self).active_len,
            final(self).well_formed(),
    {
        let end = self.attached_count();
        let mut tail: Vec<HairNode<V>> = Vec::new();
        let mut i: usize = cut_idx;
        while i < end
            invariant
                cut_idx <= i <= end,
                end == self.active_end(),
                end <= self.nodes@.len(),
                tail@ == self.nodes@.subrange(cut_idx as int, i as int),
            decreases end - i,
        {
            tail.push(self.nodes[i]);
            i = i + 1;
        }
        self.shorten_to(cut_idx);
        assert(old(self).attached() =~= self.attached() + tail@);
        tail
    }
}

} // verus!
