//! The geometry that is drawn: unique vertices and the 16-bit indices that
//! join them into triangles, and the bytes that fill the two GPU buffers.
use vstd::prelude::*;
use crate::vertex::Vertex;

verus! {

/// Vertices of one textured polygon and the triangle list over them.
#[derive(Clone, Debug)]
pub struct Mesh {
    pub vertices: Vec<Vertex>,
    pub indices: Vec<u16>,
}

/// The components of a run of vertices in buffer order.
pub open spec fn words_of(vs: Seq<Vertex>) -> Seq<u32>
    decreases vs.len(),
{
    if vs.len() == 0 {
        Seq::empty()
    } else {
        words_of(vs.drop_last()) + vs.last().words()
    }
}

proof fn lemma_words_of_len(vs: Seq<Vertex>)
    ensures
        words_of(vs).len() == 5 * vs.len(),
    decreases vs.len(),
{
    if vs.len() > 0 {
        lemma_words_of_len(vs.drop_last());
    }
}

/// The vertices of the shipped polygon: a pentagon of radius one half
/// around the origin in the `z = 0` plane, its texture coordinates the
/// position shifted by one half.
pub open spec fn pentagon_vertices() -> Seq<Vertex> {
    seq![
        Vertex { position: [0xbdb1d0d5, 0x3efc1c5c, 0x00000000], tex_coords: [0x3ed38bcb, 0x3f7e0e2e] },
        Vertex { position: [0xbefd8236, 0x3d8e835a, 0x00000000], tex_coords: [0x3b9f7280, 0x3f11d06b] },
        Vertex { position: [0xbe607229, 0xbee6175f, 0x00000000], tex_coords: [0x3e8fc6ec, 0x3d4f4507] },
        Vertex { position: [0x3eb826aa, 0xbeb1d51f, 0x00000000], tex_coords: [0x3f5c1355, 0x3e1c55c3] },
        Vertex { position: [0x3ee208d8, 0x3e705e9c, 0x00000000], tex_coords: [0x3f71046c, 0x3f3c17a7] },
    ]
}

/// The indices of the shipped polygon: a fan of three triangles around
/// vertex 4.
pub open spec fn pentagon_indices() -> Seq<u16> {
    seq![0, 1, 4, 1, 2, 4, 2, 3, 4]
}

/// The bytes of a word, least significant first, or most significant first.
pub open spec fn word_bytes(w: u32, little_endian: bool) -> Seq<u8> {
    let le = seq![
        (w % 0x100) as u8,
        ((w / 0x100) % 0x100) as u8,
        ((w / 0x10000) % 0x100) as u8,
        (w / 0x1000000) as u8,
    ];
    if little_endian { le } else { le.reverse() }
}

/// The bytes of a 16-bit index, least significant first, or most significant
/// first.
pub open spec fn index_bytes_of(w: u16, little_endian: bool) -> Seq<u8> {
    let le = seq![(w % 0x100) as u8, (w / 0x100) as u8];
    if little_endian { le } else { le.reverse() }
}

/// `bs` holds the words of `ws` one after another, each as its bytes in the
/// one byte order given.
pub open spec fn words_laid_out(ws: Seq<u32>, bs: Seq<u8>, little_endian: bool) -> bool {
    &&& bs.len() == 4 * ws.len()
    &&& forall|i: int| 0 <= i < ws.len() ==>
        bs.subrange(4 * i, 4 * i + 4) == word_bytes(#[trigger] ws[i], little_endian)
}

/// `bs` holds the indices of `ws` one after another, each as its bytes in
/// the one byte order given.
pub open spec fn indices_laid_out(ws: Seq<u16>, bs: Seq<u8>, little_endian: bool) -> bool {
    &&& bs.len() == 2 * ws.len()
    &&& forall|i: int| 0 <= i < ws.len() ==>
        bs.subrange(2 * i, 2 * i + 2) == index_bytes_of(#[trigger] ws[i], little_endian)
}

/// Relies on bytemuck::cast_slice from `u32` to `u8`: the same memory seen as
/// bytes, four for each word, each word in the machine's byte order.
#[verifier::external_body]
fn words_as_bytes(w: &[u32]) -> (r: Vec<u8>)
    ensures
        words_laid_out(w@, r@, true) || words_laid_out(w@, r@, false),
{
    bytemuck::cast_slice::<u32, u8>(w).to_vec()
}

/// Relies on bytemuck::cast_slice from `u16` to `u8`: the same memory seen as
/// bytes, two for each index, each index in the machine's byte order.
#[verifier::external_body]
fn indices_as_bytes(w: &[u16]) -> (r: Vec<u8>)
    ensures
        indices_laid_out(w@, r@, true) || indices_laid_out(w@, r@, false),
{
    bytemuck::cast_slice::<u16, u8>(w).to_vec()
}

impl Mesh {
    /// Every index names a vertex of the mesh.
    pub open spec fn wf(&self) -> bool {
        forall|i: int| 0 <= i < self.indices@.len() ==> (#[trigger] self.indices@[i] as int) < self.vertices@.len()
    }

    /// Number of whole triangles that the index list describes.
    pub open spec fn triangles(&self) -> int {
        self.indices@.len() as int / 3
    }

    /// The five-vertex polygon with the happy-tree texture mapped onto it.
    pub fn pentagon() -> (m: Mesh)
        ensures
            m.wf(),
            m.vertices@.len() == 5,
            m.vertices@ == pentagon_vertices(),
            m.indices@ == pentagon_indices(),
            m.triangles() == 3,
            forall|i: int, j: int|
                0 <= i < j < 5 ==> #[trigger] m.vertices@[i].position@ != #[trigger] m.vertices@[j].position@,
    {
        let vertices = vec![
            Vertex { position: [0xbdb1d0d5, 0x3efc1c5c, 0x00000000], tex_coords: [0x3ed38bcb, 0x3f7e0e2e] },
            Vertex { position: [0xbefd8236, 0x3d8e835a, 0x00000000], tex_coords: [0x3b9f7280, 0x3f11d06b] },
            Vertex { position: [0xbe607229, 0xbee6175f, 0x00000000], tex_coords: [0x3e8fc6ec, 0x3d4f4507] },
            Vertex { position: [0x3eb826aa, 0xbeb1d51f, 0x00000000], tex_coords: [0x3f5c1355, 0x3e1c55c3] },
            Vertex { position: [0x3ee208d8, 0x3e705e9c, 0x00000000], tex_coords: [0x3f71046c, 0x3f3c17a7] },
        ];
        let indices: Vec<u16> = vec![0, 1, 4, 1, 2, 4, 2, 3, 4];
        let m = Mesh { vertices, indices };
        assert(m.indices@ =~= pentagon_indices());
        assert(m.vertices@ =~= pentagon_vertices());
        assert forall|i: int, j: int| 0 <= i < j < 5 implies m.vertices@[i].position@ != m.vertices@[j].position@ by {
            assert(m.vertices@[i].position@[0] != m.vertices@[j].position@[0]);
        }
        m
    }

    /// Number of vertices.
    pub fn vertex_count(&self) -> (r: usize)
        ensures
            r == self.vertices@.len(),
    {
        self.vertices.len()
    }

    /// Number of indices, as the draw call counts them.
    pub fn index_count(&self) -> (r: u32)
        requires
            self.indices@.len() <= u32::MAX,
        ensures
            r == self.indices@.len(),
    {
        self.indices.len() as u32
    }

    /// Number of triangles drawn from the index list.
    pub fn triangle_count(&self) -> (r: usize)
        ensures
            r == self.triangles(),
    {
        self.indices.len() / 3
    }

    /// All vertex components in buffer order.
    pub fn vertex_words(&self) -> (r: Vec<u32>)
        requires
            5 * self.vertices@.len() <= usize::MAX,
        ensures
            r@ == words_of(self.vertices@),
            r@.len() == 5 * self.vertices@.len(),
    {
        let mut r: Vec<u32> = Vec::new();
        let n = self.vertices.len();
        let mut i: usize = 0;
        while i < n
            invariant
                n == self.vertices@.len(),
                i <= n,
                r@ == words_of(self.vertices@.subrange(0, i as int)),
            decreases n - i,
        {
            let v = self.vertices[i];
            r.push(v.position[0]);
            r.push(v.position[1]);
            r.push(v.position[2]);
            r.push(v.tex_coords[0]);
            r.push(v.tex_coords[1]);
            proof {
                let next = self.vertices@.subrange(0, i + 1);
                assert(next.drop_last() =~= self.vertices@.subrange(0, i as int));
                assert(r@ =~= words_of(next));
            }
            i = i + 1;
        }
        proof {
            assert(self.vertices@.subrange(0, n as int) =~= self.vertices@);
            lemma_words_of_len(self.vertices@);
        }
        r
    }

    /// Contents of the vertex buffer: one stride of bytes per vertex, the
    /// components in buffer order, each in the machine's byte order.
    pub fn vertex_bytes(&self) -> (r: Vec<u8>)
        requires
            20 * self.vertices@.len() <= usize::MAX,
        ensures
            r@.len() == crate::vertex::vertex_stride() * self.vertices@.len(),
            words_laid_out(words_of(self.vertices@), r@, true)
                || words_laid_out(words_of(self.vertices@), r@, false),
    {
        let words = self.vertex_words();
        words_as_bytes(words.as_slice())
    }

    /// Contents of the index buffer: two bytes per index, each in the
    /// machine's byte order.
    pub fn index_bytes(&self) -> (r: Vec<u8>)
        ensures
            r@.len() == 2 * self.indices@.len(),
            indices_laid_out(self.indices@, r@, true) || indices_laid_out(self.indices@, r@, false),
    {
        indices_as_bytes(self.indices.as_slice())
    }
}

} // verus!
