//! The document tree, and the extraction of path descriptors from it.
use vstd::prelude::*;
use crate::geom::{
    embed_spec, fits_i64, fixed_mul, fixed_mul_fits, fixed_mul_spec, neg_sat, neg_sat_spec, Mat4, Transform2, Vec2,
};
use crate::path::{convert_segments, convert_spec, PathConvIter, PathEvent, PathSegment};
use crate::style::{paint_color_spec, stroke_options_spec, Color, DrawType, Fill, Stroke};

verus! {

/// A path of the document: its commands, its paint and its absolute transform
/// (the product of all its ancestors' transforms).
#[derive(Clone, Debug)]
pub struct PathNode {
    pub segments: Vec<PathSegment>,
    pub fill: Option<Fill>,
    pub stroke: Option<Stroke>,
    pub abs_transform: Transform2,
}

/// A group of nodes, in document order, with the transform it gives them.
#[derive(Debug)]
pub struct Group {
    pub transform: Transform2,
    pub children: Vec<Node>,
}

/// A node of the document tree.
#[derive(Debug)]
pub enum Node {
    Group(Group),
    Path(PathNode),
    Other,
}

/// A parsed document: its intrinsic size and its root group.
#[derive(Debug)]
pub struct Tree {
    pub size: Vec2,
    pub root: Group,
}

/// One fill or stroke job of a path.
#[derive(Clone, Debug)]
pub struct PathDescriptor {
    pub segments: Vec<PathEvent>,
    pub abs_transform: Mat4,
    pub color: Color,
    pub draw_type: DrawType,
}

/// What a descriptor holds, as mathematical values.
pub struct DescriptorModel {
    pub segments: Seq<PathEvent>,
    pub abs_transform: Mat4,
    pub color: Color,
    pub draw_type: DrawType,
}

impl View for PathDescriptor {
    type V = DescriptorModel;

    open spec fn view(&self) -> DescriptorModel {
        DescriptorModel {
            segments: self.segments@,
            abs_transform: self.abs_transform,
            color: self.color,
            draw_type: self.draw_type,
        }
    }
}

/// The logical window that the document's coordinates are given against.
#[derive(Clone, Copy, Debug, PartialEq, Eq, Structural)]
pub struct ViewBox {
    pub x: i64,
    pub y: i64,
    pub w: i64,
    pub h: i64,
}

/// A loaded image: its name, size, view box and descriptors in painting order.
#[derive(Clone, Debug)]
pub struct Svg {
    pub name: String,
    pub size: Vec2,
    pub view_box: ViewBox,
    pub paths: Vec<PathDescriptor>,
}

/// The descriptors of one path: its fill first, then its stroke, each only if present.
pub open spec fn path_descriptors(p: PathNode) -> Seq<DescriptorModel> {
    let t = p.abs_transform;
    let events = convert_spec(p.segments@, t.sx < 0, t.sy < 0);
    let fill = match p.fill {
        Some(f) => seq![
            DescriptorModel {
                segments: events,
                abs_transform: embed_spec(t),
                color: paint_color_spec(f.paint, f.opacity),
                draw_type: DrawType::Fill,
            },
        ],
        None => Seq::empty(),
    };
    let stroke = match p.stroke {
        Some(s) => seq![
            DescriptorModel {
                segments: events,
                abs_transform: embed_spec(t),
                color: paint_color_spec(s.paint, s.opacity),
                draw_type: DrawType::Stroke(stroke_options_spec(s)),
            },
        ],
        None => Seq::empty(),
    };
    fill + stroke
}

/// The descriptors of a node, in depth-first pre-order.
pub open spec fn node_descriptors(n: Node) -> Seq<DescriptorModel>
    decreases n,
{
    match n {
        Node::Group(g) => nodes_descriptors(g.children@),
        Node::Path(p) => path_descriptors(p),
        Node::Other => Seq::empty(),
    }
}

/// The descriptors of a sequence of sibling nodes, one node after the other.
pub open spec fn nodes_descriptors(ns: Seq<Node>) -> Seq<DescriptorModel>
    decreases ns,
{
    if ns.len() == 0 {
        Seq::empty()
    } else {
        nodes_descriptors(ns.drop_last()) + node_descriptors(ns.last())
    }
}

/// The view box of a document of the given size under its root transform.
pub open spec fn view_box_spec(size: Vec2, t: Transform2) -> ViewBox {
    ViewBox {
        x: neg_sat_spec(t.tx),
        y: neg_sat_spec(t.ty),
        w: fixed_mul_spec(size.x as int, t.sx as int) as i64,
        h: fixed_mul_spec(size.y as int, t.sy as int) as i64,
    }
}

/// The models of a list of descriptors.
pub open spec fn models(v: Seq<PathDescriptor>) -> Seq<DescriptorModel> {
    v.map_values(|d: PathDescriptor| d@)
}

proof fn lemma_models_push(v: Seq<PathDescriptor>, d: PathDescriptor)
    ensures
        models(v.push(d)) == models(v) + seq![d@],
{
    assert(models(v.push(d)) =~= models(v) + seq![d@]);
}

impl PathNode {
    /// A converter over this path's commands, sign-corrected by its absolute transform.
    pub fn conv_iter(&self) -> (r: PathConvIter)
        ensures
            r.wf(),
            r.pending() == convert_spec(
                self.segments@,
                self.abs_transform.sx < 0,
                self.abs_transform.sy < 0,
            ),
    {
        PathConvIter::new(self.segments.clone(), &self.abs_transform)
    }

    /// Appends this path's descriptors: one for its fill, then one for its stroke,
    /// each only where the path has it.
    pub fn push_descriptors(&self, descriptors: &mut Vec<PathDescriptor>)
        ensures
            models(final(descriptors)@) == models(old(descriptors)@) + path_descriptors(*self),
    {
        let t = self.abs_transform;
        let abs_t = t.to_matrix();
        let ghost start = models(descriptors@);
        let ghost events = convert_spec(self.segments@, t.sx < 0, t.sy < 0);
        let ghost fill_part: Seq<DescriptorModel> = path_descriptors(*self).take(
            if self.fill.is_some() { 1 } else { 0 },
        );
        if let Some(fill) = &self.fill {
            let (color, draw_type) = fill.resolve();
            let d = PathDescriptor {
                segments: convert_segments(&self.segments, &t),
                abs_transform: abs_t,
                color,
                draw_type,
            };
            proof {
                lemma_models_push(descriptors@, d);
            }
            descriptors.push(d);
        }
        if let Some(stroke) = &self.stroke {
            let (color, draw_type) = stroke.resolve();
            let d = PathDescriptor {
                segments: convert_segments(&self.segments, &t),
                abs_transform: abs_t,
                color,
                draw_type,
            };
            proof {
                lemma_models_push(descriptors@, d);
            }
            descriptors.push(d);
        }
        assert(models(descriptors@) =~= start + path_descriptors(*self));
    }
}

/// Appends the descriptors of `node` and of everything below it, in document order.
pub fn parse_tree(node: &Node, descriptors: &mut Vec<PathDescriptor>)
    ensures
        models(final(descriptors)@) == models(old(descriptors)@) + node_descriptors(*node),
    decreases node,
{
    match node {
        Node::Group(group) => {
            let ghost start = models(descriptors@);
            let n = group.children.len();
            let mut i: usize = 0;
            while i < n
                invariant
                    i <= n,
                    n == group.children@.len(),
                    *node == Node::Group(*group),
                    models(descriptors@) == start + nodes_descriptors(group.children@.take(i as int)),
                decreases n - i,
            {
                proof {
                    let g = node->Group_0;
                    assert(decreases_to!(*node => g));
                    assert(decreases_to!(g => g.children));
                    vstd::std_specs::vec::axiom_vec_index_decreases(g.children, i as int);
                    assert(decreases_to!(*node => g.children[i as int]));
                }
                parse_tree(&group.children[i], descriptors);
                proof {
                    let ns = group.children@.take(i + 1);
                    assert(ns.drop_last() =~= group.children@.take(i as int));
                    assert(ns.last() == group.children@[i as int]);
                }
                i = i + 1;
            }
            assert(group.children@.take(n as int) =~= group.children@);
            assert(models(descriptors@) =~= start + node_descriptors(*node));
        },
        Node::Path(path) => {
            path.push_descriptors(descriptors);
        },
        Node::Other => {
            assert(models(descriptors@) =~= models(descriptors@) + node_descriptors(*node));
        },
    }
}

impl Default for Svg {
    fn default() -> (r: Svg)
        ensures
            r.name@ == Seq::<char>::empty(),
            r.size == (Vec2 { x: 0, y: 0 }),
            r.view_box == (ViewBox { x: 0, y: 0, w: 0, h: 0 }),
            r.paths@.len() == 0,
    {
        Svg::empty()
    }
}

impl Svg {
    /// An empty image: no name, no size, an empty view box, no descriptors.
    pub fn empty() -> (r: Svg)
        ensures
            r.name@ == Seq::<char>::empty(),
            r.size == (Vec2 { x: 0, y: 0 }),
            r.view_box == (ViewBox { x: 0, y: 0, w: 0, h: 0 }),
            r.paths@.len() == 0,
    {
        Svg {
            name: String::new(),
            size: Vec2 { x: 0, y: 0 },
            view_box: ViewBox { x: 0, y: 0, w: 0, h: 0 },
            paths: Vec::new(),
        }
    }

    /// Whether `from_tree` can take `tree`: its view box extent fits.
    pub fn view_box_fits(tree: &Tree) -> (r: bool)
        ensures
            r == (fits_i64(fixed_mul_spec(tree.size.x as int, tree.root.transform.sx as int))
                && fits_i64(fixed_mul_spec(tree.size.y as int, tree.root.transform.sy as int))),
    {
        fixed_mul_fits(tree.size.x, tree.root.transform.sx) && fixed_mul_fits(
            tree.size.y,
            tree.root.transform.sy,
        )
    }

    /// The image of a parsed document: its size, the view box that the root
    /// transform gives, and the descriptors of every path in document order.
    pub fn from_tree(tree: Tree) -> (r: Svg)
        requires
            fits_i64(fixed_mul_spec(tree.size.x as int, tree.root.transform.sx as int)),
            fits_i64(fixed_mul_spec(tree.size.y as int, tree.root.transform.sy as int)),
        ensures
            r.name@ == Seq::<char>::empty(),
            r.size == tree.size,
            r.view_box == view_box_spec(tree.size, tree.root.transform),
            models(r.paths@) == nodes_descriptors(tree.root.children@),
    {
        let transform = tree.root.transform;
        let size = tree.size;
        let children = &tree.root.children;
        let mut descriptors: Vec<PathDescriptor> = Vec::new();
        let n = children.len();
        let mut i: usize = 0;
        while i < n
            invariant
                i <= n,
                n == children@.len(),
                models(descriptors@) == nodes_descriptors(children@.take(i as int)),
            decreases n - i,
        {
            parse_tree(&children[i], &mut descriptors);
            proof {
                let ns = children@.take(i + 1);
                assert(ns.drop_last() =~= children@.take(i as int));
                assert(ns.last() == children@[i as int]);
            }
            i = i + 1;
        }
        proof {
            assert(children@.take(0) =~= Seq::<Node>::empty());
            assert(children@.take(n as int) =~= children@);
        }
        Svg {
            name: String::new(),
            size,
            view_box: ViewBox {
                x: neg_sat(transform.tx),
                y: neg_sat(transform.ty),
                w: fixed_mul(size.x, transform.sx),
                h: fixed_mul(size.y, transform.sy),
            },
            paths: descriptors,
        }
    }
}

/// Painting order is document order, whatever the nesting: the descriptors of
/// a group are those of its children one after the other, those of a path
/// depend on the path alone, and wrapping a node in a group changes nothing.
/// So a group holding paths `p1`, `p2` and a group holding `p3` give the descriptors of `p1`, then `p2`, then `p3`.
pub proof fn lemma_extraction_order(g1: Group, g2: Group, p1: PathNode, p2: PathNode, p3: PathNode)
    requires
        g1.children@ == seq![Node::Path(p1), Node::Path(p2)],
        g2.children@ == seq![Node::Path(p3)],
    ensures
        nodes_descriptors(seq![Node::Group(g1), Node::Group(g2)]) == path_descriptors(p1)
            + path_descriptors(p2) + path_descriptors(p3),
{
    let s1 = seq![Node::Path(p1), Node::Path(p2)];
    assert(s1.drop_last() =~= seq![Node::Path(p1)]);
    lemma_single(Node::Path(p1));
    lemma_single(Node::Path(p3));
    let top = seq![Node::Group(g1), Node::Group(g2)];
    assert(top.drop_last() =~= seq![Node::Group(g1)]);
    lemma_single(Node::Group(g1));
    assert(top.last() == Node::Group(g2));
    assert(node_descriptors(Node::Group(g2)) == nodes_descriptors(g2.children@));
    assert(node_descriptors(Node::Group(g1)) == nodes_descriptors(s1));
    assert(s1.last() == Node::Path(p2));
    assert(nodes_descriptors(s1) == nodes_descriptors(s1.drop_last()) + node_descriptors(s1.last()));
    assert(node_descriptors(Node::Path(p2)) == path_descriptors(p2));
    assert(node_descriptors(Node::Path(p1)) == path_descriptors(p1));
    assert(nodes_descriptors(s1) == path_descriptors(p1) + path_descriptors(p2));
    assert(nodes_descriptors(top) == nodes_descriptors(s1) + path_descriptors(p3));
    assert(nodes_descriptors(top) =~= path_descriptors(p1) + path_descriptors(p2)
        + path_descriptors(p3));
}

/// The descriptors of sibling nodes are those of each node, concatenated in order.
pub proof fn lemma_siblings_concatenate(a: Seq<Node>, b: Seq<Node>)
    ensures
        nodes_descriptors(a + b) == nodes_descriptors(a) + nodes_descriptors(b),
    decreases b.len(),
{
    if b.len() == 0 {
        assert(a + b =~= a);
        assert(nodes_descriptors(a) + nodes_descriptors(b) =~= nodes_descriptors(a));
    } else {
        assert((a + b).drop_last() =~= a + b.drop_last());
        assert((a + b).last() == b.last());
        lemma_siblings_concatenate(a, b.drop_last());
        assert(nodes_descriptors(a + b) =~= nodes_descriptors(a) + nodes_descriptors(b));
    }
}

proof fn lemma_single(n: Node)
    ensures
        nodes_descriptors(seq![n]) == node_descriptors(n),
{
    let s = seq![n];
    assert(s.drop_last() =~= Seq::<Node>::empty());
    assert(s.last() == n);
    assert(nodes_descriptors(Seq::<Node>::empty()) == Seq::<DescriptorModel>::empty());
    assert(nodes_descriptors(s) == nodes_descriptors(s.drop_last()) + node_descriptors(n));
    assert(nodes_descriptors(s) =~= node_descriptors(n));
}

/// Nesting a node in a group of its own leaves its descriptors as they were.
pub proof fn lemma_nesting_transparent(g: Group, n: Node)
    requires
        g.children@ == seq![n],
    ensures
        node_descriptors(Node::Group(g)) == node_descriptors(n),
{
    lemma_single(n);
}

} // verus!
