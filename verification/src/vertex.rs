//! The vertex of the scene, its layout in a vertex buffer, and the fixed quad.
use vstd::prelude::*;
use crate::bytes::{cast_words, lemma_words_round_trip, read_word, word_at, words_bytes, Endian};

verus! {

/// Format of one vertex attribute: a vector of 32-bit floats.
#[derive(Clone, Copy, Debug, PartialEq, Eq, Structural)]
pub enum VertexFormat {
    Float32,
    Float32x2,
    Float32x3,
    Float32x4,
}

impl VertexFormat {
    /// Number of 32-bit components.
    pub open spec fn components(self) -> nat {
        match self {
            VertexFormat::Float32 => 1,
            VertexFormat::Float32x2 => 2,
            VertexFormat::Float32x3 => 3,
            VertexFormat::Float32x4 => 4,
        }
    }

    /// Size in bytes.
    pub open spec fn size(self) -> nat {
        4 * self.components()
    }

    /// Size in bytes.
    pub fn byte_size(&self) -> (r: u64)
        ensures
            r == self.size(),
    {
        match self {
            VertexFormat::Float32 => 4,
            VertexFormat::Float32x2 => 8,
            VertexFormat::Float32x3 => 12,
            VertexFormat::Float32x4 => 16,
        }
    }
}

/// Whether a vertex buffer advances per vertex or per instance.
#[derive(Clone, Copy, Debug, PartialEq, Eq, Structural)]
pub enum VertexStepMode {
    Vertex,
    Instance,
}

/// One attribute of a vertex buffer: what it is, where it starts inside a vertex,
/// and the shader location it feeds.
#[derive(Clone, Copy, Debug, PartialEq, Eq, Structural)]
pub struct VertexAttribute {
    pub format: VertexFormat,
    pub offset: u64,
    pub shader_location: u32,
}

/// Layout of a vertex buffer.
#[derive(Clone, Debug, PartialEq, Eq)]
pub struct VertexBufferLayout {
    pub array_stride: u64,
    pub step_mode: VertexStepMode,
    pub attributes: Vec<VertexAttribute>,
}

/// Bytes taken by the first `n` of `formats`, laid end to end.
pub open spec fn packed_size(formats: Seq<VertexFormat>, n: int) -> nat
    decreases n,
{
    if n <= 0 {
        0
    } else {
        packed_size(formats, n - 1) + formats[n - 1].size()
    }
}

/// Attributes laid end to end with no padding: each starts where the one before it
/// ends, and feeds the shader location given with it.
pub open spec fn packed_attributes(entries: Seq<(u32, VertexFormat)>) -> Seq<VertexAttribute> {
    let formats = entries.map_values(|e: (u32, VertexFormat)| e.1);
    Seq::new(
        entries.len(),
        |i: int|
            VertexAttribute {
                format: entries[i].1,
                offset: packed_size(formats, i) as u64,
                shader_location: entries[i].0,
            },
    )
}

/// So many attributes, and any fewer, always have offsets that fit.
pub const MAX_PACKED: u64 = 0x0FFF_FFFF_FFFF_FFFF;

/// No padding: in a packed layout each attribute ends where the next one starts.
pub proof fn lemma_packed_is_contiguous(entries: Seq<(u32, VertexFormat)>, i: int)
    requires
        0 <= i,
        i + 1 < entries.len(),
        entries.len() <= MAX_PACKED,
    ensures
        packed_attributes(entries)[i + 1].offset == packed_attributes(entries)[i].offset
            + packed_attributes(entries)[i].format.size(),
        packed_attributes(entries)[i].shader_location == entries[i].0,
        packed_attributes(entries)[0].offset == 0,
{
    let formats = entries.map_values(|e: (u32, VertexFormat)| e.1);
    lemma_packed_size_bound(formats, i);
    lemma_packed_size_bound(formats, i + 1);
    assert(packed_size(formats, i + 1) == packed_size(formats, i) + formats[i].size());
    assert(packed_size(formats, 0) == 0);
}

/// At most 16 bytes per format.
pub proof fn lemma_packed_size_bound(formats: Seq<VertexFormat>, n: int)
    requires
        0 <= n <= formats.len(),
    ensures
        packed_size(formats, n) <= 16 * n,
    decreases n,
{
    if n > 0 {
        lemma_packed_size_bound(formats, n - 1);
    }
}

/// Lays attributes end to end: the offset of each is the total size of those before
/// it. `None` when the offsets no longer fit the 64-bit address.
pub fn attr_array(entries: &[(u32, VertexFormat)]) -> (r: Option<Vec<VertexAttribute>>)
    ensures
        r.is_some() <==> packed_size(
            entries@.map_values(|e: (u32, VertexFormat)| e.1),
            entries@.len() as int,
        ) <= u64::MAX,
        r.is_some() ==> r.unwrap()@ == packed_attributes(entries@),
        entries@.len() <= MAX_PACKED ==> r.is_some(),
{
    proof {
        if entries@.len() <= MAX_PACKED {
            lemma_packed_size_bound(
                entries@.map_values(|e: (u32, VertexFormat)| e.1),
                entries@.len() as int,
            );
        }
    }
    let ghost formats = entries@.map_values(|e: (u32, VertexFormat)| e.1);
    let mut attributes: Vec<VertexAttribute> = Vec::new();
    let mut offset: u64 = 0;
    let mut i: usize = 0;
    while i < entries.len()
        invariant
            i <= entries@.len(),
            formats == entries@.map_values(|e: (u32, VertexFormat)| e.1),
            offset == packed_size(formats, i as int),
            attributes@ == packed_attributes(entries@).take(i as int),
            entries@.len() <= MAX_PACKED ==> packed_size(formats, entries@.len() as int)
                <= u64::MAX,
        decreases entries@.len() - i,
    {
        let (location, format) = entries[i];
        attributes.push(VertexAttribute { format, offset, shader_location: location });
        assert(attributes@ =~= packed_attributes(entries@).take(i + 1));
        assert(formats[i as int] == format);
        match offset.checked_add(format.byte_size()) {
            Some(next) => {
                offset = next;
            },
            None => {
                proof {
                    lemma_packed_size_grows(formats, i + 1, entries@.len() as int);
                }
                return None;
            },
        }
        i += 1;
    }
    assert(attributes@ =~= packed_attributes(entries@));
    Some(attributes)
}

/// The packed size never shrinks as more formats are taken.
pub proof fn lemma_packed_size_grows(formats: Seq<VertexFormat>, m: int, n: int)
    requires
        0 <= m <= n,
    ensures
        packed_size(formats, m) <= packed_size(formats, n),
    decreases n - m,
{
    if m < n {
        lemma_packed_size_grows(formats, m, n - 1);
    }
}

/// Bit pattern of 0.0.
pub const ZERO: u32 = 0x0000_0000;

/// Bit pattern of 1.0.
pub const ONE: u32 = 0x3F80_0000;

/// Bit pattern of 0.5.
pub const HALF: u32 = 0x3F00_0000;

/// Bit pattern of -0.5.
pub const MINUS_HALF: u32 = 0xBF00_0000;

/// Bytes from one vertex to the next in the vertex buffer.
pub const VERTEX_STRIDE: u64 = 32;

/// One corner of the scene. Each component is the bit pattern of a 32-bit float.
#[derive(Clone, Copy, Debug, PartialEq, Eq)]
pub struct Vertex {
    pub position: [u32; 3],
    pub color: [u32; 3],
    pub texture_coords: [u32; 2],
}

/// Shader locations and formats of a vertex's fields, in field order.
pub open spec fn vertex_entries() -> Seq<(u32, VertexFormat)> {
    seq![
        (0u32, VertexFormat::Float32x3),
        (1u32, VertexFormat::Float32x3),
        (2u32, VertexFormat::Float32x2),
    ]
}

/// The layout of a buffer of `Vertex`: position at byte 0 for location 0, colour at
/// byte 12 for location 1, texture coordinate at byte 24 for location 2.
pub open spec fn vertex_attributes() -> Seq<VertexAttribute> {
    seq![
        VertexAttribute { format: VertexFormat::Float32x3, offset: 0, shader_location: 0 },
        VertexAttribute { format: VertexFormat::Float32x3, offset: 12, shader_location: 1 },
        VertexAttribute { format: VertexFormat::Float32x2, offset: 24, shader_location: 2 },
    ]
}

/// The fields of a vertex packed end to end are the layout above, and fill the
/// stride exactly.
pub proof fn lemma_vertex_layout_is_packed()
    ensures
        packed_attributes(vertex_entries()) == vertex_attributes(),
        packed_size(vertex_entries().map_values(|e: (u32, VertexFormat)| e.1), 3)
            == VERTEX_STRIDE,
{
    let formats = vertex_entries().map_values(|e: (u32, VertexFormat)| e.1);
    reveal_with_fuel(packed_size, 4);
    assert(packed_size(formats, 0) == 0);
    assert(packed_size(formats, 1) == 12);
    assert(packed_size(formats, 2) == 24);
    assert(packed_size(formats, 3) == 32);
    assert(packed_attributes(vertex_entries()) =~= vertex_attributes());
}

/// Field `a` of a vertex, counted as the layout counts attributes.
pub open spec fn vertex_attribute(v: Vertex, a: int) -> Seq<u32> {
    if a == 0 {
        v.position@
    } else if a == 1 {
        v.color@
    } else {
        v.texture_coords@
    }
}

/// The eight words of a vertex in field order.
pub open spec fn vertex_words(v: Vertex) -> Seq<u32> {
    seq![
        v.position[0],
        v.position[1],
        v.position[2],
        v.color[0],
        v.color[1],
        v.color[2],
        v.texture_coords[0],
        v.texture_coords[1],
    ]
}

/// The words of a run of vertices: vertex `i` fills words `8 * i .. 8 * i + 8`.
pub open spec fn flattened(vertices: Seq<Vertex>) -> Seq<u32> {
    Seq::new(8 * vertices.len(), |j: int| vertex_words(vertices[j / 8])[j % 8])
}

/// The vertex buffer's contents for `vertices` on a machine of byte order `e`.
pub open spec fn encoded(vertices: Seq<Vertex>, e: Endian) -> Seq<u8> {
    words_bytes(flattened(vertices), e)
}

/// The `n` words that start at byte `start` of `bytes`.
pub open spec fn words_at(bytes: Seq<u8>, start: int, n: nat, e: Endian) -> Seq<u32> {
    Seq::new(n, |k: int| word_at(bytes, start + 4 * k, e))
}

/// The two triangles of the unit quad, three corners each.
pub open spec fn quad_vertices() -> Seq<Vertex> {
    let top_left = Vertex {
        position: [MINUS_HALF, HALF, ZERO],
        color: [ONE, ZERO, ZERO],
        texture_coords: [ZERO, ONE],
    };
    let bottom_left = Vertex {
        position: [MINUS_HALF, MINUS_HALF, ZERO],
        color: [ZERO, ONE, ZERO],
        texture_coords: [ZERO, ZERO],
    };
    let bottom_right = Vertex {
        position: [HALF, MINUS_HALF, ZERO],
        color: [ZERO, ZERO, ONE],
        texture_coords: [ONE, ZERO],
    };
    let top_right = Vertex {
        position: [HALF, HALF, ZERO],
        color: [ZERO, ZERO, ONE],
        texture_coords: [ONE, ONE],
    };
    seq![top_left, bottom_left, bottom_right, top_left, bottom_right, top_right]
}

/// Number of vertices drawn each frame.
pub const VERTEX_COUNT: u32 = 6;

/// The scene: one quad as two triangles.
pub fn quad() -> (r: Vec<Vertex>)
    ensures
        r@ == quad_vertices(),
        r@.len() == VERTEX_COUNT,
{
    let top_left = Vertex {
        position: [MINUS_HALF, HALF, ZERO],
        color: [ONE, ZERO, ZERO],
        texture_coords: [ZERO, ONE],
    };
    let bottom_left = Vertex {
        position: [MINUS_HALF, MINUS_HALF, ZERO],
        color: [ZERO, ONE, ZERO],
        texture_coords: [ZERO, ZERO],
    };
    let bottom_right = Vertex {
        position: [HALF, MINUS_HALF, ZERO],
        color: [ZERO, ZERO, ONE],
        texture_coords: [ONE, ZERO],
    };
    let top_right = Vertex {
        position: [HALF, HALF, ZERO],
        color: [ZERO, ZERO, ONE],
        texture_coords: [ONE, ONE],
    };
    let r = vec![top_left, bottom_left, bottom_right, top_left, bottom_right, top_right];
    assert(r@ =~= quad_vertices());
    r
}

impl VertexBufferLayout {
    /// This is the layout of a buffer of `Vertex`: one vertex per 32 bytes, stepped
    /// per vertex, its three fields packed in order.
    pub open spec fn is_vertex_layout(&self) -> bool {
        &&& self.array_stride == VERTEX_STRIDE
        &&& self.step_mode == VertexStepMode::Vertex
        &&& self.attributes@ == vertex_attributes()
    }
}

impl Vertex {
    /// Layout of a buffer of vertices.
    pub fn desc() -> (r: VertexBufferLayout)
        ensures
            r.is_vertex_layout(),
    {
        let entries = vec![
            (0u32, VertexFormat::Float32x3),
            (1u32, VertexFormat::Float32x3),
            (2u32, VertexFormat::Float32x2),
        ];
        proof {
            assert(entries@ =~= vertex_entries());
            lemma_vertex_layout_is_packed();
        }
        let attributes = attr_array(entries.as_slice()).unwrap();
        VertexBufferLayout {
            array_stride: VERTEX_STRIDE,
            step_mode: VertexStepMode::Vertex,
            attributes,
        }
    }
}

/// The contents of a vertex buffer holding `vertices`: their words in field order,
/// as bytes in the machine's byte order.
pub fn vertex_bytes(vertices: &[Vertex]) -> (r: Vec<u8>)
    ensures
        r@ == encoded(vertices@, Endian::Little) || r@ == encoded(vertices@, Endian::Big),
        r@.len() == VERTEX_STRIDE * vertices@.len(),
{
    let mut words: Vec<u32> = Vec::new();
    let mut i: usize = 0;
    while i < vertices.len()
        invariant
            i <= vertices@.len(),
            words@.len() == 8 * i,
            forall|j: int| 0 <= j < 8 * i ==> words@[j] == flattened(vertices@)[j],
        decreases vertices@.len() - i,
    {
        let v = vertices[i];
        words.push(v.position[0]);
        words.push(v.position[1]);
        words.push(v.position[2]);
        words.push(v.color[0]);
        words.push(v.color[1]);
        words.push(v.color[2]);
        words.push(v.texture_coords[0]);
        words.push(v.texture_coords[1]);
        i += 1;
    }
    assert(words@ =~= flattened(vertices@));
    cast_words(words.as_slice())
}

/// Reads attribute `attribute` of vertex `vertex` out of a vertex buffer's bytes,
/// going by the layout's stride and the attribute's offset and format. `None` when
/// the layout has no such attribute or the attribute does not lie within `bytes`.
pub fn read_attribute(
    bytes: &[u8],
    layout: &VertexBufferLayout,
    attribute: usize,
    vertex: usize,
    e: Endian,
) -> (r: Option<Vec<u32>>)
    ensures
        r.is_some() <==> attribute < layout.attributes@.len() && vertex * layout.array_stride
            + layout.attributes@[attribute as int].offset
            + layout.attributes@[attribute as int].format.size() <= bytes@.len(),
        r.is_some() ==> r.unwrap()@ == words_at(
            bytes@,
            vertex * layout.array_stride + layout.attributes@[attribute as int].offset,
            layout.attributes@[attribute as int].format.components(),
            e,
        ),
{
    if attribute >= layout.attributes.len() {
        return None;
    }
    let attr = layout.attributes[attribute];
    let size: u64 = attr.format.byte_size();
    let len: u64 = bytes.len() as u64;
    let base: u64 = match (vertex as u64).checked_mul(layout.array_stride) {
        Some(base) => base,
        None => {
            return None;
        },
    };
    let start: u64 = match base.checked_add(attr.offset) {
        Some(start) => start,
        None => {
            return None;
        },
    };
    if start > len || len - start < size {
        return None;
    }
    let start: usize = start as usize;
    let count: usize = (size / 4) as usize;
    let mut words: Vec<u32> = Vec::new();
    let mut k: usize = 0;
    while k < count
        invariant
            k <= count,
            count == attr.format.components(),
            start + 4 * count <= bytes@.len() <= usize::MAX,
            words@ == words_at(bytes@, start as int, k as nat, e),
        decreases count - k,
    {
        let w = read_word(bytes, start + 4 * k, e);
        words.push(w);
        assert(words@ =~= words_at(bytes@, start as int, (k + 1) as nat, e));
        k += 1;
    }
    Some(words)
}

/// What is packed is read back: in the bytes of any run of vertices, each attribute
/// of each vertex, found by the stride and the attribute's offset, holds that
/// vertex's field bit for bit.
pub proof fn lemma_attributes_read_back(vertices: Seq<Vertex>, e: Endian, i: int, a: int)
    requires
        0 <= i < vertices.len(),
        0 <= a < 3,
    ensures
        words_at(
            encoded(vertices, e),
            i * VERTEX_STRIDE + vertex_attributes()[a].offset,
            vertex_attributes()[a].format.components(),
            e,
        ) == vertex_attribute(vertices[i], a),
{
    let words = flattened(vertices);
    let attr = vertex_attributes()[a];
    let start = i * VERTEX_STRIDE + attr.offset;
    let read = words_at(encoded(vertices, e), start, attr.format.components(), e);
    let field = vertex_attribute(vertices[i], a);
    assert(read.len() == field.len());
    assert forall|k: int| 0 <= k < read.len() implies read[k] == field[k] by {
        let j = 8 * i + attr.offset / 4 + k;
        assert(start + 4 * k == 4 * j);
        lemma_words_round_trip(words, e, j);
        assert(words[j] == vertex_words(vertices[j / 8])[j % 8]);
    }
    assert(read =~= field);
}

} // verus!
