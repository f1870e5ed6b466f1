use vstd::prelude::*;

verus! {

/// What a node of the scene graph does.
#[derive(Clone, Copy, Debug, PartialEq, Eq, Structural)]
pub enum Op {
    /// The null node at index 0, which stands for "no child".
    NoOp,
    // Combinators
    Union,
    Intersect,
    Subtract,
    // Unary operators
    Transform,
    Texture,
    // Primitives
    Sphere,
}

/// The index of a node in the graph's node array.
#[derive(Clone, Copy, Debug, PartialEq, Eq, Structural)]
pub struct NodeIdx(pub u32);

/// The index of the null node: a child that points here is absent.
pub open spec fn null_idx() -> NodeIdx {
    NodeIdx(0)
}

/// The data of a node whose operation takes none.
pub const DEFAULT_DATA: i32 = 0;

/// A node: its operation, its data (an index into an array of the graph or a
/// single integer, depending on the operation) and its two children.
#[derive(Clone, Copy, Debug, PartialEq, Eq, Structural)]
pub struct Node {
    pub op: Op,
    pub data: i32,
    pub left: NodeIdx,
    pub right: NodeIdx,
}

impl Node {
    /// A node with the given operation, data and children.
    pub fn new(op: Op, data: i32, left: NodeIdx, right: NodeIdx) -> (n: Self)
        ensures
            n == (Node { op, data, left, right }),
    {
        Self { op, data, left, right }
    }
}

/// The null node stored at index 0.
pub open spec fn null_node() -> Node {
    Node { op: Op::NoOp, data: DEFAULT_DATA, left: null_idx(), right: null_idx() }
}

/// A scene graph kept in flat arrays so that it can be handed to the GPU:
/// the nodes, and the transforms that `Transform` nodes index by their data.
/// A node with nothing pointing to it is a root; `root` names the one drawn.
pub struct SceneGraph<T> {
    pub root: NodeIdx,
    pub nodes: Vec<Node>,
    pub transforms: Vec<T>,
}

impl<T> SceneGraph<T> {
    /// The graph is well formed: the null node sits at index 0, there is at
    /// least the identity transform, and every `Transform` node's data is the
    /// index of a stored transform.
    pub open spec fn wf(self) -> bool {
        &&& self.nodes@.len() >= 1
        &&& self.nodes@[0] == null_node()
        &&& self.transforms@.len() >= 1
        &&& forall|i: int|
            0 <= i < self.nodes@.len() && (#[trigger] self.nodes@[i]).op == Op::Transform ==> 0
                <= self.nodes@[i].data < self.transforms@.len()
    }

    /// Every node other than the null node points only to nodes made before
    /// it, so the graph has no cycle.
    pub open spec fn is_dag(self) -> bool {
        forall|i: int|
            0 < i < self.nodes@.len() ==> (#[trigger] self.nodes@[i]).left.0 < i
                && self.nodes@[i].right.0 < i
    }

    /// Whether `n` names a node of the graph.
    pub open spec fn has_node(self, n: NodeIdx) -> bool {
        n.0 < self.nodes@.len()
    }

    /// Room for one more node whose index fits a `NodeIdx`.
    pub open spec fn can_add_node(self) -> bool {
        self.nodes@.len() <= u32::MAX
    }

    /// Room for one more transform whose index fits a node's data.
    pub open spec fn can_add_transform(self) -> bool {
        self.transforms@.len() <= i32::MAX
    }

    /// A graph holding only the null node, with `identity` as transform 0.
    pub fn new(identity: T) -> (g: Self)
        ensures
            g.wf(),
            g.is_dag(),
            g.nodes@ == seq![null_node()],
            g.transforms@ == seq![identity],
            g.root == null_idx(),
    {
        let mut nodes: Vec<Node> = Vec::new();
        nodes.push(Node::new(Op::NoOp, DEFAULT_DATA, NodeIdx(0), NodeIdx(0)));
        let mut transforms: Vec<T> = Vec::new();
        transforms.push(identity);
        let g = Self { root: NodeIdx(0), nodes, transforms };
        assert(g.nodes@ =~= seq![null_node()]);
        assert(g.transforms@ =~= seq![identity]);
        g
    }

    /// Appends a node and returns its index.
    fn new_node(&mut self, op: Op, data: i32, left: NodeIdx, right: NodeIdx) -> (idx: NodeIdx)
        requires
            old(self).can_add_node(),
        ensures
            idx.0 == old(self).nodes@.len(),
            final(self).nodes@ == old(self).nodes@.push(Node { op, data, left, right }),
            final(self).transforms@ == old(self).transforms@,
            final(self).root == old(self).root,
    {
        self.nodes.push(Node::new(op, data, left, right));
        NodeIdx((self.nodes.len() - 1) as u32)
    }

    /// Appends a node with one child.
    fn unary(&mut self, op: Op, data: i32, left: NodeIdx) -> (idx: NodeIdx)
        requires
            old(self).can_add_node(),
        ensures
            idx.0 == old(self).nodes@.len(),
            final(self).nodes@ == old(self).nodes@.push(Node { op, data, left, right: null_idx() }),
            final(self).transforms@ == old(self).transforms@,
            final(self).root == old(self).root,
    {
        self.new_node(op, data, left, NodeIdx(0))
    }

    /// Appends a node without children.
    fn leaf(&mut self, op: Op, data: i32) -> (idx: NodeIdx)
        requires
            old(self).can_add_node(),
        ensures
            idx.0 == old(self).nodes@.len(),
            final(self).nodes@ == old(self).nodes@.push(
                Node { op, data, left: null_idx(), right: null_idx() },
            ),
            final(self).transforms@ == old(self).transforms@,
            final(self).root == old(self).root,
    {
        self.new_node(op, data, NodeIdx(0), NodeIdx(0))
    }

    /// Stores a transform and returns its index.
    fn new_trans(&mut self, transform: T) -> (i: i32)
        requires
            old(self).can_add_transform(),
        ensures
            i == old(self).transforms@.len(),
            final(self).transforms@ == old(self).transforms@.push(transform),
            final(self).nodes@ == old(self).nodes@,
            final(self).root == old(self).root,
    {
        self.transforms.push(transform);
        (self.transforms.len() - 1) as i32
    }

    /// `next` is this graph with node `n` appended at index `idx`; the
    /// transforms and the root are unchanged.
    pub open spec fn appends_node(self, next: Self, n: Node, idx: NodeIdx) -> bool {
        &&& idx.0 == self.nodes@.len()
        &&& next.nodes@ == self.nodes@.push(n)
        &&& next.transforms@ == self.transforms@
        &&& next.root == self.root
    }

    /// Appends the union of the shapes at `left` and `right`.
    pub fn union(&mut self, left: NodeIdx, right: NodeIdx) -> (idx: NodeIdx)
        requires
            old(self).can_add_node(),
        ensures
            old(self).appends_node(*final(self), Node { op: Op::Union, data: DEFAULT_DATA, left, right }, idx),
            old(self).wf() ==> final(self).wf(),
            old(self).is_dag() && old(self).has_node(left) && old(self).has_node(right) ==> final(self).is_dag(),
    {
        self.new_node(Op::Union, DEFAULT_DATA, left, right)
    }

    /// Appends the intersection of the shapes at `left` and `right`.
    pub fn intersect(&mut self, left: NodeIdx, right: NodeIdx) -> (idx: NodeIdx)
        requires
            old(self).can_add_node(),
        ensures
            old(self).appends_node(*final(self), Node { op: Op::Intersect, data: DEFAULT_DATA, left, right }, idx),
            old(self).wf() ==> final(self).wf(),
            old(self).is_dag() && old(self).has_node(left) && old(self).has_node(right) ==> final(self).is_dag(),
    {
        self.new_node(Op::Intersect, DEFAULT_DATA, left, right)
    }

    /// Appends the shape at `left` with the shape at `right` cut away.
    pub fn subtract(&mut self, left: NodeIdx, right: NodeIdx) -> (idx: NodeIdx)
        requires
            old(self).can_add_node(),
        ensures
            old(self).appends_node(*final(self), Node { op: Op::Subtract, data: DEFAULT_DATA, left, right }, idx),
            old(self).wf() ==> final(self).wf(),
            old(self).is_dag() && old(self).has_node(left) && old(self).has_node(right) ==> final(self).is_dag(),
    {
        self.new_node(Op::Subtract, DEFAULT_DATA, left, right)
    }

    /// Stores `trans` and appends a node that applies it to the shape at
    /// `left`; the node's data is the index of the stored transform.
    pub fn transform(&mut self, trans: T, left: NodeIdx) -> (idx: NodeIdx)
        requires
            old(self).can_add_node(),
            old(self).can_add_transform(),
        ensures
            idx.0 == old(self).nodes@.len(),
            final(self).transforms@ == old(self).transforms@.push(trans),
            final(self).nodes@ == old(self).nodes@.push(
                Node {
                    op: Op::Transform,
                    data: old(self).transforms@.len() as i32,
                    left,
                    right: null_idx(),
                },
            ),
            final(self).root == old(self).root,
            old(self).wf() ==> final(self).wf(),
            old(self).is_dag() && old(self).has_node(left) ==> final(self).is_dag(),
    {
        let data = self.new_trans(trans);
        self.unary(Op::Transform, data, left)
    }

    /// Appends a node that applies texture `tex` to the shape at `left`.
    pub fn texture(&mut self, tex: i32, left: NodeIdx) -> (idx: NodeIdx)
        requires
            old(self).can_add_node(),
        ensures
            old(self).appends_node(*final(self), Node { op: Op::Texture, data: tex, left, right: null_idx() }, idx),
            old(self).wf() ==> final(self).wf(),
            old(self).is_dag() && old(self).has_node(left) ==> final(self).is_dag(),
    {
        self.unary(Op::Texture, tex, left)
    }

    /// Appends a sphere of the given radius, in thousandths.
    pub fn sphere(&mut self, radius: i32) -> (idx: NodeIdx)
        requires
            old(self).can_add_node(),
        ensures
            old(self).appends_node(
                *final(self),
                Node { op: Op::Sphere, data: radius, left: null_idx(), right: null_idx() },
                idx,
            ),
            old(self).wf() ==> final(self).wf(),
            old(self).is_dag() ==> final(self).is_dag(),
    {
        self.leaf(Op::Sphere, radius)
    }
}

/// The first scene: two spheres of radius 500 thousandths, one moved by
/// `left_shift` and one by `right_shift`, joined by a union that is the root.
/// The sphere is stored once and shared by both transforms.
pub fn a_scene1<T>(identity: T, left_shift: T, right_shift: T) -> (g: SceneGraph<T>)
    ensures
        g.wf(),
        g.is_dag(),
        g.transforms@ == seq![identity, left_shift, right_shift],
        g.nodes@ == seq![
            null_node(),
            Node { op: Op::Sphere, data: 500, left: null_idx(), right: null_idx() },
            Node { op: Op::Transform, data: 1, left: NodeIdx(1), right: null_idx() },
            Node { op: Op::Transform, data: 2, left: NodeIdx(1), right: null_idx() },
            Node { op: Op::Union, data: DEFAULT_DATA, left: NodeIdx(2), right: NodeIdx(3) },
        ],
        g.root == NodeIdx(4),
{
    let mut a = SceneGraph::new(identity);
    let sphere = a.sphere(500);
    let left = a.transform(left_shift, sphere);
    let right = a.transform(right_shift, sphere);
    a.root = a.union(left, right);
    assert(a.transforms@ =~= seq![identity, left_shift, right_shift]);
    assert(a.nodes@ =~= seq![
        null_node(),
        Node { op: Op::Sphere, data: 500, left: null_idx(), right: null_idx() },
        Node { op: Op::Transform, data: 1, left: NodeIdx(1), right: null_idx() },
        Node { op: Op::Transform, data: 2, left: NodeIdx(1), right: null_idx() },
        Node { op: Op::Union, data: DEFAULT_DATA, left: NodeIdx(2), right: NodeIdx(3) },
    ]);
    a
}

} // verus!
