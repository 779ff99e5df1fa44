//! Triangle soup to indexed geometry: every distinct vertex is kept once, in
//! order of first appearance, and an index buffer replays the input order.

use vstd::prelude::*;

verus! {

/// Three 32-bit floats, each held as its bit pattern.
#[derive(Clone, Copy, Debug, PartialEq, Eq, Structural)]
pub struct Bits3 {
    pub x: u32,
    pub y: u32,
    pub z: u32,
}

/// Two 32-bit floats, each held as its bit pattern.
#[derive(Clone, Copy, Debug, PartialEq, Eq, Structural)]
pub struct Bits2 {
    pub u: u32,
    pub v: u32,
}

/// One corner of a triangle. Each component is the bit pattern of a 32-bit
/// float, so two vertices are the same exactly when all eleven words agree.
#[derive(Clone, Copy, Debug, PartialEq, Eq, Structural)]
pub struct MyVertex {
    pub position: Bits3,
    pub color: Bits3,
    pub normal: Bits3,
    pub texcoord: Bits2,
}

/// Bit pattern of `0.5f32`, the grey given to every loaded vertex.
pub const HALF_GREY: u32 = 0x3F00_0000;

/// The distinct vertices of `raw`, each at the place of its first appearance.
pub open spec fn unique_of(raw: Seq<MyVertex>) -> Seq<MyVertex>
    decreases raw.len(),
{
    if raw.len() == 0 {
        Seq::empty()
    } else {
        let earlier = unique_of(raw.drop_last());
        if earlier.contains(raw.last()) {
            earlier
        } else {
            earlier.push(raw.last())
        }
    }
}

/// The place in `vertices` at which `vertex` stands. Meant for sequences that
/// hold `vertex` exactly once, where there is only one such place.
pub open spec fn position_in(vertices: Seq<MyVertex>, vertex: MyVertex) -> int {
    choose|k: int| 0 <= k < vertices.len() && vertices[k] == vertex
}

/// The index buffer of `raw`: for every vertex, in order, the place of its
/// equal among the distinct vertices.
pub open spec fn indices_of(raw: Seq<MyVertex>) -> Seq<int> {
    Seq::new(raw.len(), |i: int| position_in(unique_of(raw), raw[i]))
}

/// What an index buffer stands for: the vertex each index points at, in order.
pub open spec fn replay(vertices: Seq<MyVertex>, indices: Seq<int>) -> Seq<MyVertex> {
    Seq::new(indices.len(), |i: int| vertices[indices[i]])
}

/// Some vertex of `raw` occurs at two different places.
pub open spec fn has_duplicates(raw: Seq<MyVertex>) -> bool {
    exists|i: int, j: int| 0 <= i < j < raw.len() && raw[i] == raw[j]
}

/// Every index points inside `vertices`.
pub open spec fn indices_in_range(vertices: Seq<MyVertex>, indices: Seq<int>) -> bool {
    forall|i: int| 0 <= i < indices.len() ==> 0 <= #[trigger] indices[i] < vertices.len()
}

/// The distinct vertices contain exactly the vertices of the input.
pub proof fn lemma_unique_same_members(raw: Seq<MyVertex>, v: MyVertex)
    ensures
        unique_of(raw).contains(v) <==> raw.contains(v),
    decreases raw.len(),
{
    if raw.len() > 0 {
        let head = raw.drop_last();
        lemma_unique_same_members(head, v);
        lemma_unique_same_members(head, raw.last());
        let earlier = unique_of(head);
        let u = unique_of(raw);
        if raw.contains(v) {
            let k = choose|k: int| 0 <= k < raw.len() && raw[k] == v;
            if k < raw.len() - 1 {
                assert(head[k] == v);
            }
            if earlier.contains(v) {
                let m = choose|m: int| 0 <= m < earlier.len() && earlier[m] == v;
                assert(u[m] == v);
            } else {
                assert(u[earlier.len() as int] == v);
            }
        }
        if u.contains(v) {
            let k = choose|k: int| 0 <= k < u.len() && u[k] == v;
            if k < earlier.len() {
                assert(earlier[k] == v);
                let m = choose|m: int| 0 <= m < head.len() && head[m] == v;
                assert(raw[m] == v);
            } else {
                assert(raw[raw.len() - 1] == v);
            }
        }
    }
}

/// No vertex is kept twice.
pub proof fn lemma_unique_no_duplicates(raw: Seq<MyVertex>)
    ensures
        !has_duplicates(unique_of(raw)),
    decreases raw.len(),
{
    if raw.len() > 0 {
        lemma_unique_no_duplicates(raw.drop_last());
        let earlier = unique_of(raw.drop_last());
        let u = unique_of(raw);
        assert forall|i: int, j: int| 0 <= i < j < u.len() implies u[i] != u[j] by {
            if j < earlier.len() {
                assert(earlier[i] == u[i] && earlier[j] == u[j]);
            } else {
                assert(earlier[i] == u[i]);
            }
        }
    }
}

/// There are never more distinct vertices than vertices, and strictly fewer
/// exactly when some vertex repeats.
pub proof fn lemma_unique_len(raw: Seq<MyVertex>)
    ensures
        unique_of(raw).len() <= raw.len(),
        unique_of(raw).len() < raw.len() <==> has_duplicates(raw),
    decreases raw.len(),
{
    if raw.len() > 0 {
        let head = raw.drop_last();
        lemma_unique_len(head);
        lemma_unique_same_members(head, raw.last());
        if has_duplicates(head) {
            let (i, j) = choose|i: int, j: int| 0 <= i < j < head.len() && head[i] == head[j];
            assert(raw[i] == raw[j]);
        }
        if unique_of(head).contains(raw.last()) {
            let k = choose|k: int| 0 <= k < head.len() && head[k] == raw.last();
            assert(raw[k] == raw[raw.len() - 1]);
        }
        if has_duplicates(raw) {
            let (i, j) = choose|i: int, j: int| 0 <= i < j < raw.len() && raw[i] == raw[j];
            if j < head.len() {
                assert(head[i] == head[j]);
            } else {
                assert(head[i] == raw.last());
            }
        }
    }
}

/// The distinct vertices of a prefix open the distinct vertices of the whole.
pub proof fn lemma_unique_prefix(raw: Seq<MyVertex>, k: int)
    requires
        0 <= k <= raw.len(),
    ensures
        unique_of(raw.take(k)).is_prefix_of(unique_of(raw)),
    decreases raw.len() - k,
{
    if k == raw.len() {
        assert(raw.take(k) == raw);
    } else {
        lemma_unique_prefix(raw, k + 1);
        assert(raw.take(k + 1).drop_last() == raw.take(k));
    }
}

/// Indexed geometry: the distinct vertices and, for every input vertex in
/// order, the place of its equal among them.
#[derive(Debug)]
pub struct Model {
    pub vertices: Vec<MyVertex>,
    pub indices: Vec<u32>,
}

impl Clone for Model {
    fn clone(&self) -> (copy: Self)
        ensures
            copy.vertices@ == self.vertices@,
            copy.indices@ == self.indices@,
    {
        let mut vertices: Vec<MyVertex> = Vec::new();
        let mut i: usize = 0;
        while i < self.vertices.len()
            invariant
                i <= self.vertices.len(),
                vertices@ == self.vertices@.take(i as int),
            decreases self.vertices.len() - i,
        {
            vertices.push(self.vertices[i]);
            assert(self.vertices@.take(i + 1) == self.vertices@.take(i as int).push(
                self.vertices@[i as int],
            ));
            i += 1;
        }
        let mut indices: Vec<u32> = Vec::new();
        let mut j: usize = 0;
        while j < self.indices.len()
            invariant
                j <= self.indices.len(),
                indices@ == self.indices@.take(j as int),
                vertices@ == self.vertices@.take(self.vertices.len() as int),
            decreases self.indices.len() - j,
        {
            indices.push(self.indices[j]);
            assert(self.indices@.take(j + 1) == self.indices@.take(j as int).push(
                self.indices@[j as int],
            ));
            j += 1;
        }
        assert(self.vertices@.take(self.vertices.len() as int) == self.vertices@);
        assert(self.indices@.take(self.indices.len() as int) == self.indices@);
        Model { vertices, indices }
    }
}

/// Place of the first vertex of `vertices` equal to `vertex`, if there is one.
pub fn position(vertices: &Vec<MyVertex>, vertex: &MyVertex) -> (found: Option<usize>)
    ensures
        found is None <==> !vertices@.contains(*vertex),
        found matches Some(p) ==> p < vertices.len() && vertices@[p as int] == *vertex
            && forall|j: int| 0 <= j < p ==> vertices@[j] != *vertex,
{
    let mut i: usize = 0;
    while i < vertices.len()
        invariant
            i <= vertices.len(),
            forall|j: int| 0 <= j < i ==> vertices@[j] != *vertex,
        decreases vertices.len() - i,
    {
        if vertices[i] == *vertex {
            return Some(i);
        }
        i += 1;
    }
    None
}

impl Model {
    /// The index buffer as mathematical integers.
    pub open spec fn index_values(&self) -> Seq<int> {
        Seq::new(self.indices@.len(), |i: int| self.indices@[i] as int)
    }

    /// No vertex is stored twice and every index points at a stored vertex.
    pub open spec fn well_formed(&self) -> bool {
        &&& !has_duplicates(self.vertices@)
        &&& indices_in_range(self.vertices@, self.index_values())
    }

    /// Indexes a triangle soup: walks `raw` in order, reuses the index of a
    /// vertex already seen and appends one never seen.
    pub fn build(raw: &Vec<MyVertex>) -> (model: Model)
        requires
            unique_of(raw@).len() <= u32::MAX + 1,
        ensures
            model.vertices@ == unique_of(raw@),
            model.index_values() == indices_of(raw@),
            model.well_formed(),
            replay(model.vertices@, model.index_values()) == raw@,
            model.indices@.len() == raw@.len(),
            model.vertices@.len() <= raw@.len(),
            model.vertices@.len() < raw@.len() <==> has_duplicates(raw@),
    {
        let mut vertices: Vec<MyVertex> = Vec::new();
        let mut indices: Vec<u32> = Vec::new();
        let mut i: usize = 0;
        while i < raw.len()
            invariant
                i <= raw.len(),
                unique_of(raw@).len() <= u32::MAX + 1,
                vertices@ == unique_of(raw@.take(i as int)),
                indices@.len() == i,
                forall|j: int|
                    0 <= j < i ==> (#[trigger] indices@[j] as int) < vertices@.len()
                        && vertices@[indices@[j] as int] == raw@[j],
            decreases raw.len() - i,
        {
            let vertex = raw[i];
            proof {
                lemma_unique_prefix(raw@, i + 1);
                assert(raw@.take(i + 1).drop_last() == raw@.take(i as int));
            }
            match position(&vertices, &vertex) {
                Some(p) => {
                    indices.push(p as u32);
                },
                None => {
                    vertices.push(vertex);
                    indices.push((vertices.len() - 1) as u32);
                },
            }
            i += 1;
        }
        let model = Model { vertices, indices };
        proof {
            assert(raw@.take(raw.len() as int) == raw@);
            lemma_round_trip(raw@);
            lemma_unique_no_duplicates(raw@);
            lemma_unique_len(raw@);
            assert(model.index_values() =~= indices_of(raw@));
        }
        model
    }

    /// Reads the index buffer back into the vertex sequence it stands for.
    pub fn expand(&self) -> (raw: Vec<MyVertex>)
        requires
            indices_in_range(self.vertices@, self.index_values()),
        ensures
            raw@ == replay(self.vertices@, self.index_values()),
    {
        let mut raw: Vec<MyVertex> = Vec::new();
        let mut i: usize = 0;
        while i < self.indices.len()
            invariant
                i <= self.indices.len(),
                indices_in_range(self.vertices@, self.index_values()),
                raw@ == replay(self.vertices@, self.index_values().take(i as int)),
            decreases self.indices.len() - i,
        {
            assert(self.index_values()[i as int] == self.indices@[i as int]);
            let at = self.indices[i] as usize;
            raw.push(self.vertices[at]);
            assert(raw@ =~= replay(self.vertices@, self.index_values().take(i + 1)));
            i += 1;
        }
        assert(self.index_values().take(self.indices.len() as int) == self.index_values());
        raw
    }

    /// Whether `expand` may be called: every index points at a stored vertex.
    pub fn indices_fit(&self) -> (fit: bool)
        ensures
            fit == indices_in_range(self.vertices@, self.index_values()),
    {
        let mut i: usize = 0;
        while i < self.indices.len()
            invariant
                i <= self.indices.len(),
                forall|j: int| 0 <= j < i ==> (#[trigger] self.indices@[j] as int) < self.vertices@.len(),
            decreases self.indices.len() - i,
        {
            if self.indices[i] as usize >= self.vertices.len() {
                assert(self.index_values()[i as int] >= self.vertices@.len());
                return false;
            }
            i += 1;
        }
        assert forall|j: int| 0 <= j < self.index_values().len() implies 0
            <= #[trigger] self.index_values()[j] < self.vertices@.len() by {
            assert((self.indices@[j] as int) < self.vertices@.len());
        }
        true
    }
}

/// The buffers of one loaded mesh, as a mesh file gives them: corner indices,
/// and flat component lists they point into (three words per position and
/// per normal, two per texture coordinate). Floats are held as bit patterns.
#[derive(Debug)]
pub struct MeshData {
    pub indices: Vec<u32>,
    pub positions: Vec<u32>,
    pub normals: Vec<u32>,
    pub texcoords: Vec<u32>,
}

impl MeshData {
    /// All components of corner `index` are present in the flat lists.
    pub open spec fn covers(&self, index: u32) -> bool {
        &&& index * 3 + 2 < self.positions@.len()
        &&& index * 3 + 2 < self.normals@.len()
        &&& index * 2 + 1 < self.texcoords@.len()
    }

    /// Every corner index has all its components.
    pub open spec fn consistent(&self) -> bool {
        forall|i: int| 0 <= i < self.indices@.len() ==> self.covers(#[trigger] self.indices@[i])
    }

    /// The vertex that corner `index` stands for, coloured mid grey.
    pub open spec fn vertex_at(&self, index: u32) -> MyVertex {
        MyVertex {
            position: Bits3 {
                x: self.positions@[index * 3],
                y: self.positions@[index * 3 + 1],
                z: self.positions@[index * 3 + 2],
            },
            color: Bits3 { x: HALF_GREY, y: HALF_GREY, z: HALF_GREY },
            normal: Bits3 {
                x: self.normals@[index * 3],
                y: self.normals@[index * 3 + 1],
                z: self.normals@[index * 3 + 2],
            },
            texcoord: Bits2 { u: self.texcoords@[index * 2], v: self.texcoords@[index * 2 + 1] },
        }
    }

    /// The triangle soup: one vertex per corner index, in order.
    pub open spec fn soup_of(&self) -> Seq<MyVertex> {
        Seq::new(self.indices@.len(), |i: int| self.vertex_at(self.indices@[i]))
    }

    /// Tests whether corner `index` has all its components.
    pub fn has_corner(&self, index: u32) -> (present: bool)
        ensures
            present == self.covers(index),
    {
        let last3: u64 = index as u64 * 3 + 2;
        let last2: u64 = index as u64 * 2 + 1;
        last3 < self.positions.len() as u64 && last3 < self.normals.len() as u64 && last2
            < self.texcoords.len() as u64
    }

    /// Tests whether every corner index has all its components.
    pub fn is_consistent(&self) -> (whole: bool)
        ensures
            whole == self.consistent(),
    {
        let mut i: usize = 0;
        while i < self.indices.len()
            invariant
                i <= self.indices.len(),
                forall|j: int| 0 <= j < i ==> self.covers(#[trigger] self.indices@[j]),
            decreases self.indices.len() - i,
        {
            if !self.has_corner(self.indices[i]) {
                return false;
            }
            i += 1;
        }
        true
    }

    /// Gathers the components of corner `index` into a vertex.
    pub fn corner(&self, index: u32) -> (vertex: MyVertex)
        requires
            self.covers(index),
        ensures
            vertex == self.vertex_at(index),
    {
        assert(index * 3 + 2 < self.positions.len() <= usize::MAX);
        assert(index * 2 + 1 < self.texcoords.len() <= usize::MAX);
        let p: usize = (index as u64 * 3) as usize;
        let t: usize = (index as u64 * 2) as usize;
        MyVertex {
            position: Bits3 {
                x: self.positions[p],
                y: self.positions[p + 1],
                z: self.positions[p + 2],
            },
            color: Bits3 { x: HALF_GREY, y: HALF_GREY, z: HALF_GREY },
            normal: Bits3 { x: self.normals[p], y: self.normals[p + 1], z: self.normals[p + 2] },
            texcoord: Bits2 { u: self.texcoords[t], v: self.texcoords[t + 1] },
        }
    }

    /// Expands the mesh into its triangle soup.
    pub fn soup(&self) -> (raw: Vec<MyVertex>)
        requires
            self.consistent(),
        ensures
            raw@ == self.soup_of(),
    {
        let mut raw: Vec<MyVertex> = Vec::new();
        let mut i: usize = 0;
        while i < self.indices.len()
            invariant
                i <= self.indices.len(),
                self.consistent(),
                raw@ == self.soup_of().take(i as int),
            decreases self.indices.len() - i,
        {
            raw.push(self.corner(self.indices[i]));
            assert(raw@ =~= self.soup_of().take(i + 1));
            i += 1;
        }
        assert(self.soup_of().take(self.indices.len() as int) == self.soup_of());
        raw
    }
}

impl Model {
    /// Indexed geometry of a loaded mesh: its soup, with equal vertices merged.
    pub fn from_mesh(mesh: &MeshData) -> (model: Model)
        requires
            mesh.consistent(),
            unique_of(mesh.soup_of()).len() <= u32::MAX + 1,
        ensures
            model.vertices@ == unique_of(mesh.soup_of()),
            model.index_values() == indices_of(mesh.soup_of()),
            model.well_formed(),
            replay(model.vertices@, model.index_values()) == mesh.soup_of(),
    {
        let raw = mesh.soup();
        Model::build(&raw)
    }
}

/// Round trip: replaying the index buffer of a soup over its distinct
/// vertices gives the soup back, whatever the soup; the indices are the only
/// ones that do so.
pub proof fn lemma_round_trip(raw: Seq<MyVertex>)
    ensures
        indices_of(raw).len() == raw.len(),
        indices_in_range(unique_of(raw), indices_of(raw)),
        replay(unique_of(raw), indices_of(raw)) == raw,
        forall|i: int, k: int|
            0 <= i < raw.len() && 0 <= k < unique_of(raw).len() && #[trigger] unique_of(raw)[k]
                == #[trigger] raw[i] ==> k == indices_of(raw)[i],
{
    let u = unique_of(raw);
    lemma_unique_no_duplicates(raw);
    assert forall|i: int| 0 <= i < raw.len() implies 0 <= #[trigger] indices_of(raw)[i] < u.len()
        && u[indices_of(raw)[i]] == raw[i] by {
        lemma_unique_same_members(raw, raw[i]);
        assert(raw.contains(raw[i]));
    }
    assert(replay(u, indices_of(raw)) =~= raw);
    assert forall|i: int, k: int|
        0 <= i < raw.len() && 0 <= k < u.len() && #[trigger] u[k] == #[trigger] raw[i] implies k
        == indices_of(raw)[i] by {
        let c = indices_of(raw)[i];
        if k < c {
            assert(u[k] == u[c]);
        } else if c < k {
            assert(u[c] == u[k]);
        }
    }
}

} // verus!
