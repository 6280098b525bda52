//! Gathers what the tessellators produced for each descriptor into one mesh.
//!
//! Vertex positions are of any type `V`: they are carried, never read.
use vstd::prelude::*;
use crate::document::PathDescriptor;
use crate::style::Color;

verus! {

/// Triangles produced for one descriptor: vertices, and indices into them,
/// three per triangle.
pub struct Geometry<V> {
    pub vertices: Vec<V>,
    pub indices: Vec<u32>,
}

/// One mesh for a whole image: positions, a color per vertex, triangle indices.
pub struct MeshBuffer<V> {
    pub vertices: Vec<V>,
    pub colors: Vec<Color>,
    pub indices: Vec<u32>,
}

/// The geometry holds at least one triangle, its indices come three by three,
/// and every index names one of its vertices.
pub open spec fn valid_geometry<V>(g: Geometry<V>) -> bool {
    &&& g.indices@.len() > 0
    &&& g.indices@.len() % 3 == 0
    &&& forall|k: int| 0 <= k < g.indices@.len() ==> (#[trigger] g.indices@[k] as int) < g.vertices@.len()
}

/// A tessellator's output that goes into the mesh; anything else is skipped.
pub open spec fn usable<V>(o: Option<Geometry<V>>) -> bool {
    o matches Some(g) && valid_geometry(g)
}

/// The indices moved up by `base`.
pub open spec fn offset(idx: Seq<u32>, base: int) -> Seq<u32> {
    idx.map_values(|i: u32| (i + base) as u32)
}

pub open spec fn mesh_vertices<V>(os: Seq<Option<Geometry<V>>>) -> Seq<V>
    decreases os.len(),
{
    if os.len() == 0 {
        Seq::empty()
    } else {
        mesh_vertices(os.drop_last()) + if usable(os.last()) {
            os.last()->Some_0.vertices@
        } else {
            Seq::empty()
        }
    }
}

/// Each usable output's vertex count times the color of its descriptor.
pub open spec fn mesh_colors<V>(os: Seq<Option<Geometry<V>>>, cs: Seq<Color>) -> Seq<Color>
    decreases os.len(),
{
    if os.len() == 0 {
        Seq::empty()
    } else {
        mesh_colors(os.drop_last(), cs.drop_last()) + if usable(os.last()) {
            Seq::new(os.last()->Some_0.vertices@.len(), |k: int| cs.last())
        } else {
            Seq::empty()
        }
    }
}

/// Each usable output's indices, moved past the vertices that came before it.
pub open spec fn mesh_indices<V>(os: Seq<Option<Geometry<V>>>) -> Seq<u32>
    decreases os.len(),
{
    if os.len() == 0 {
        Seq::empty()
    } else {
        mesh_indices(os.drop_last()) + if usable(os.last()) {
            offset(os.last()->Some_0.indices@, mesh_vertices(os.drop_last()).len() as int)
        } else {
            Seq::empty()
        }
    }
}

/// How many outputs are skipped.
pub open spec fn skipped_count<V>(os: Seq<Option<Geometry<V>>>) -> nat
    decreases os.len(),
{
    if os.len() == 0 {
        0
    } else {
        skipped_count(os.drop_last()) + if usable(os.last()) { 0nat } else { 1nat }
    }
}

/// The colors of the descriptors, in order.
pub open spec fn descriptor_colors(paths: Seq<PathDescriptor>) -> Seq<Color> {
    paths.map_values(|d: PathDescriptor| d.color)
}

impl<V: Copy> MeshBuffer<V> {
    /// A mesh with nothing in it.
    pub fn new() -> (r: MeshBuffer<V>)
        ensures
            r.vertices@.len() == 0,
            r.colors@.len() == 0,
            r.indices@.len() == 0,
    {
        MeshBuffer { vertices: Vec::new(), colors: Vec::new(), indices: Vec::new() }
    }

    /// Appends one descriptor's triangles, all in `color`, their indices moved
    /// past the vertices already held.
    pub fn append(&mut self, g: &Geometry<V>, color: Color)
        requires
            valid_geometry(*g),
            old(self).vertices@.len() + g.vertices@.len() <= u32::MAX,
        ensures
            final(self).vertices@ == old(self).vertices@ + g.vertices@,
            final(self).colors@ == old(self).colors@ + Seq::new(g.vertices@.len(), |k: int| color),
            final(self).indices@ == old(self).indices@ + offset(g.indices@, old(self).vertices@.len() as int),
    {
        let base = self.vertices.len() as u32;
        let ghost v0 = self.vertices@;
        let ghost c0 = self.colors@;
        let ghost i0 = self.indices@;
        let n = g.vertices.len();
        let mut j: usize = 0;
        while j < n
            invariant
                j <= n,
                n == g.vertices@.len(),
                self.vertices@ == v0 + g.vertices@.take(j as int),
                self.colors@ == c0 + Seq::new(j as nat, |k: int| color),
                self.indices@ == i0,
            decreases n - j,
        {
            self.vertices.push(g.vertices[j]);
            self.colors.push(color);
            proof {
                assert(g.vertices@.take(j + 1) =~= g.vertices@.take(j as int).push(g.vertices@[j as int]));
                assert(Seq::new((j + 1) as nat, |k: int| color) =~= Seq::new(j as nat, |k: int| color).push(color));
            }
            j = j + 1;
        }
        assert(g.vertices@.take(n as int) =~= g.vertices@);
        let m = g.indices.len();
        let mut j: usize = 0;
        while j < m
            invariant
                j <= m,
                m == g.indices@.len(),
                base == v0.len(),
                v0.len() + g.vertices@.len() <= u32::MAX,
                self.vertices@ == v0 + g.vertices@,
                self.colors@ == c0 + Seq::new(g.vertices@.len(), |k: int| color),
                valid_geometry(*g),
                self.indices@ == i0 + offset(g.indices@.take(j as int), base as int),
            decreases m - j,
        {
            let idx = g.indices[j];
            assert((g.indices@[j as int] as int) < g.vertices@.len());
            self.indices.push(idx + base);
            proof {
                assert(offset(g.indices@.take(j + 1), base as int) =~= offset(g.indices@.take(j as int), base as int).push(
                    (idx + base) as u32,
                ));
            }
            j = j + 1;
        }
        assert(g.indices@.take(m as int) =~= g.indices@);
    }
}

fn is_usable<V>(o: &Option<Geometry<V>>) -> (r: bool)
    ensures
        r == usable(*o),
{
    match o {
        Some(g) => {
            let n = g.indices.len();
            if n == 0 || n % 3 != 0 {
                return false;
            }
            let mut k: usize = 0;
            while k < n
                invariant
                    k <= n,
                    n == g.indices@.len(),
                    *o == Some(*g),
                    forall|q: int| 0 <= q < k ==> (#[trigger] g.indices@[q] as int) < g.vertices@.len(),
                decreases n - k,
            {
                if g.indices[k] as usize >= g.vertices.len() {
                    assert(!((g.indices@[k as int] as int) < g.vertices@.len()));
                    return false;
                }
                k = k + 1;
            }
            true
        },
        None => false,
    }
}

proof fn lemma_vertices_grow<V>(os: Seq<Option<Geometry<V>>>, i: int)
    requires
        0 <= i <= os.len(),
    ensures
        mesh_vertices(os.take(i)).len() <= mesh_vertices(os).len(),
    decreases os.len() - i,
{
    if i < os.len() {
        lemma_vertices_grow(os, i + 1);
        let t = os.take(i + 1);
        assert(t.drop_last() =~= os.take(i));
    } else {
        assert(os.take(i) =~= os);
    }
}

/// Whether the usable outputs hold few enough vertices in all for `u32` indices.
pub fn mesh_len_fits<V>(outputs: &Vec<Option<Geometry<V>>>) -> (r: bool)
    ensures
        r == (mesh_vertices(outputs@).len() <= u32::MAX),
{
    let ghost os = outputs@;
    let n = outputs.len();
    let mut total: usize = 0;
    let mut i: usize = 0;
    while i < n
        invariant
            i <= n,
            n == os.len(),
            os == outputs@,
            total == mesh_vertices(os.take(i as int)).len(),
            total <= u32::MAX,
        decreases n - i,
    {
        proof {
            let t = os.take(i + 1);
            assert(t.drop_last() =~= os.take(i as int));
            assert(t.last() == os[i as int]);
            lemma_vertices_grow(os, i + 1);
        }
        let o = &outputs[i];
        if is_usable(o) {
            match o {
                Some(g) => {
                    let len = g.vertices.len();
                    if len > 4294967295usize - total {
                        return false;
                    }
                    total = total + len;
                },
                None => {},
            }
        }
        i = i + 1;
    }
    assert(os.take(n as int) =~= os);
    true
}

/// Skip and continue: when the middle one of three outputs is not usable, the
/// mesh holds the first output's triangles then the third's, in their
/// descriptors' colors, the third's indices moved past the first's vertices,
/// and one descriptor is counted as skipped.
pub proof fn lemma_skip_and_continue<V>(
    g1: Geometry<V>,
    o2: Option<Geometry<V>>,
    g3: Geometry<V>,
    c1: Color,
    c2: Color,
    c3: Color,
)
    requires
        valid_geometry(g1),
        !usable(o2),
        valid_geometry(g3),
    ensures
        mesh_vertices(seq![Some(g1), o2, Some(g3)]) == g1.vertices@ + g3.vertices@,
        mesh_colors(seq![Some(g1), o2, Some(g3)], seq![c1, c2, c3]) == Seq::new(
            g1.vertices@.len(),
            |k: int| c1,
        ) + Seq::new(g3.vertices@.len(), |k: int| c3),
        mesh_indices(seq![Some(g1), o2, Some(g3)]) == g1.indices@ + offset(
            g3.indices@,
            g1.vertices@.len() as int,
        ),
        skipped_count(seq![Some(g1), o2, Some(g3)]) == 1,
{
    let s1 = seq![Some(g1)];
    let s2 = seq![Some(g1), o2];
    let s3 = seq![Some(g1), o2, Some(g3)];
    let e = Seq::<Option<Geometry<V>>>::empty();
    assert(s1.drop_last() =~= e);
    assert(s2.drop_last() =~= s1);
    assert(s3.drop_last() =~= s2);
    let cs = seq![c1, c2, c3];
    assert(cs.drop_last() =~= seq![c1, c2]);
    assert(seq![c1, c2].drop_last() =~= seq![c1]);
    assert(seq![c1].drop_last() =~= Seq::<Color>::empty());
    assert(s1.last() == Some(g1));
    assert(s2.last() == o2);
    assert(s3.last() == Some(g3));
    assert(cs.last() == c3);
    assert(seq![c1, c2].last() == c2);
    assert(seq![c1].last() == c1);
    assert(mesh_vertices(e) =~= Seq::<V>::empty());
    assert(mesh_colors(e, Seq::<Color>::empty()) =~= Seq::<Color>::empty());
    assert(mesh_vertices(s1) =~= g1.vertices@);
    assert(mesh_vertices(s2) =~= g1.vertices@);
    assert(mesh_vertices(s3) =~= g1.vertices@ + g3.vertices@);
    assert(forall|k: int| 0 <= k < g1.indices@.len() ==> #[trigger] offset(g1.indices@, 0)[k] == g1.indices@[k]);
    assert(offset(g1.indices@, 0) =~= g1.indices@);
    assert(mesh_vertices(e).len() == 0);
    assert(mesh_indices(e) =~= Seq::<u32>::empty());
    assert(mesh_indices(s1) == mesh_indices(e) + offset(g1.indices@, 0));
    assert(mesh_indices(s1) =~= g1.indices@);
    assert(mesh_indices(s2) =~= g1.indices@);
    assert(mesh_indices(s3) =~= g1.indices@ + offset(g3.indices@, g1.vertices@.len() as int));
    assert(skipped_count(e) == 0);
    assert(skipped_count(s1) == 0);
    assert(skipped_count(s2) == 1);
    assert(skipped_count(s3) == 1);
    assert(mesh_colors(s1, seq![c1]) =~= Seq::new(g1.vertices@.len(), |k: int| c1));
    assert(mesh_colors(s2, seq![c1, c2]) =~= Seq::new(g1.vertices@.len(), |k: int| c1));
    assert(mesh_colors(s3, cs) =~= Seq::new(g1.vertices@.len(), |k: int| c1) + Seq::new(
        g3.vertices@.len(),
        |k: int| c3,
    ));
}

/// One mesh for all descriptors of an image. `outputs[i]` is what the
/// tessellator produced for `paths[i]`: `None` where it failed. An output that
/// fails, has no triangle or names a vertex it lacks is skipped; the others go
/// into the mesh in order, in their descriptor's color. The count of skipped
/// descriptors comes back beside the mesh.
pub fn generate_buffer<V: Copy>(paths: &Vec<PathDescriptor>, outputs: &Vec<Option<Geometry<V>>>) -> (r: (MeshBuffer<V>, usize))
    requires
        outputs@.len() == paths@.len(),
        mesh_vertices(outputs@).len() <= u32::MAX,
    ensures
        r.0.vertices@ == mesh_vertices(outputs@),
        r.0.colors@ == mesh_colors(outputs@, descriptor_colors(paths@)),
        r.0.indices@ == mesh_indices(outputs@),
        r.1 == skipped_count(outputs@),
{
    let ghost os = outputs@;
    let ghost cs = descriptor_colors(paths@);
    let mut buffer: MeshBuffer<V> = MeshBuffer::new();
    let mut skipped: usize = 0;
    let n = outputs.len();
    let mut i: usize = 0;
    while i < n
        invariant
            i <= n,
            n == os.len(),
            os == outputs@,
            cs == descriptor_colors(paths@),
            os.len() == paths@.len(),
            mesh_vertices(os).len() <= u32::MAX,
            buffer.vertices@ == mesh_vertices(os.take(i as int)),
            buffer.colors@ == mesh_colors(os.take(i as int), cs.take(i as int)),
            buffer.indices@ == mesh_indices(os.take(i as int)),
            skipped == skipped_count(os.take(i as int)),
            skipped <= i,
        decreases n - i,
    {
        proof {
            let t = os.take(i + 1);
            assert(t.drop_last() =~= os.take(i as int));
            assert(t.last() == os[i as int]);
            assert(cs.take(i + 1).drop_last() =~= cs.take(i as int));
            assert(cs.take(i + 1).last() == paths@[i as int].color);
            lemma_vertices_grow(os, i + 1);
        }
        let o = &outputs[i];
        if is_usable(o) {
            match o {
                Some(g) => {
                    buffer.append(g, paths[i].color);
                },
                None => {},
            }
        } else {
            skipped = skipped + 1;
        }
        i = i + 1;
    }
    proof {
        assert(os.take(n as int) =~= os);
        assert(cs.take(n as int) =~= cs);
    }
    (buffer, skipped)
}

} // verus!
