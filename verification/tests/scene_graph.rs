use raymarching::scene_graph::{a_scene1, Node, NodeIdx, Op, SceneGraph, DEFAULT_DATA};

fn null() -> Node {
    Node { op: Op::NoOp, data: DEFAULT_DATA, left: NodeIdx(0), right: NodeIdx(0) }
}

#[test]
fn new_graph_holds_the_null_node() {
    let g: SceneGraph<&str> = SceneGraph::new("identity");
    assert_eq!(g.nodes, vec![null()]);
    assert_eq!(g.transforms, vec!["identity"]);
    assert_eq!(g.root, NodeIdx(0));
}

#[test]
fn node_new() {
    let n = Node::new(Op::Texture, 3, NodeIdx(1), NodeIdx(0));
    assert_eq!(n, Node { op: Op::Texture, data: 3, left: NodeIdx(1), right: NodeIdx(0) });
}

#[test]
fn builders_append_in_order() {
    let mut g: SceneGraph<i64> = SceneGraph::new(0);
    let s = g.sphere(250);
    assert_eq!(s, NodeIdx(1));
    let t = g.texture(7, s);
    assert_eq!(t, NodeIdx(2));
    let m = g.transform(42, t);
    assert_eq!(m, NodeIdx(3));
    let u = g.union(s, m);
    let i = g.intersect(u, t);
    let d = g.subtract(i, s);
    assert_eq!((u, i, d), (NodeIdx(4), NodeIdx(5), NodeIdx(6)));
    assert_eq!(g.transforms, vec![0, 42]);
    assert_eq!(
        g.nodes,
        vec![
            null(),
            Node { op: Op::Sphere, data: 250, left: NodeIdx(0), right: NodeIdx(0) },
            Node { op: Op::Texture, data: 7, left: NodeIdx(1), right: NodeIdx(0) },
            Node { op: Op::Transform, data: 1, left: NodeIdx(2), right: NodeIdx(0) },
            Node { op: Op::Union, data: 0, left: NodeIdx(1), right: NodeIdx(3) },
            Node { op: Op::Intersect, data: 0, left: NodeIdx(4), right: NodeIdx(2) },
            Node { op: Op::Subtract, data: 0, left: NodeIdx(5), right: NodeIdx(1) },
        ]
    );
    // every node points only to earlier nodes
    for (k, n) in g.nodes.iter().enumerate().skip(1) {
        assert!((n.left.0 as usize) < k && (n.right.0 as usize) < k);
    }
}

#[test]
fn transforms_are_indexed_by_their_nodes() {
    let mut g: SceneGraph<(f32, f32, f32)> = SceneGraph::new((0.0, 0.0, 0.0));
    let s = g.sphere(1);
    let a = g.transform((1.0, 0.0, 0.0), s);
    let b = g.transform((0.0, 2.0, 0.0), s);
    let na = g.nodes[a.0 as usize];
    let nb = g.nodes[b.0 as usize];
    assert_eq!(g.transforms[na.data as usize], (1.0, 0.0, 0.0));
    assert_eq!(g.transforms[nb.data as usize], (0.0, 2.0, 0.0));
}

#[test]
fn first_scene() {
    let g = a_scene1("id", "left", "right");
    assert_eq!(g.transforms, vec!["id", "left", "right"]);
    assert_eq!(
        g.nodes,
        vec![
            null(),
            Node { op: Op::Sphere, data: 500, left: NodeIdx(0), right: NodeIdx(0) },
            Node { op: Op::Transform, data: 1, left: NodeIdx(1), right: NodeIdx(0) },
            Node { op: Op::Transform, data: 2, left: NodeIdx(1), right: NodeIdx(0) },
            Node { op: Op::Union, data: 0, left: NodeIdx(2), right: NodeIdx(3) },
        ]
    );
    assert_eq!(g.root, NodeIdx(4));
}
