//! The static full-screen quad and its vertex-buffer encoding.
//!
//! Six vertices form two triangles covering the screen in normalized device
//! coordinates, each with a matching texture coordinate.  Every coordinate
//! the quad uses is exactly -1, 0 or 1; the vertex buffer holds each one as
//! the 32-bit word of the IEEE single-precision value the shader reads, so
//! encoding and decoding are exact and the round trip is proved lossless.

use vstd::prelude::*;

verus! {

/// IEEE single-precision bit pattern of 1.0.
pub const F32_ONE_BITS: u32 = 0x3F80_0000;

/// IEEE single-precision bit pattern of -1.0.
pub const F32_NEG_ONE_BITS: u32 = 0xBF80_0000;

/// IEEE single-precision bit pattern of 0.0.
pub const F32_ZERO_BITS: u32 = 0x0000_0000;

/// A coordinate of the full-screen quad: each is exactly -1, 0 or 1.
#[derive(Clone, Copy, Debug, PartialEq, Eq, Structural)]
pub enum Coord {
    NegOne,
    Zero,
    One,
}

impl Coord {
    /// The 32-bit word the GPU reads for this coordinate.
    pub open spec fn spec_bits(self) -> u32 {
        match self {
            Coord::NegOne => F32_NEG_ONE_BITS,
            Coord::Zero => F32_ZERO_BITS,
            Coord::One => F32_ONE_BITS,
        }
    }

    /// Which coordinate a buffer word stands for, if any.
    pub open spec fn spec_from_bits(w: u32) -> Option<Coord> {
        if w == F32_NEG_ONE_BITS {
            Some(Coord::NegOne)
        } else if w == F32_ZERO_BITS {
            Some(Coord::Zero)
        } else if w == F32_ONE_BITS {
            Some(Coord::One)
        } else {
            None
        }
    }

    pub fn bits(self) -> (w: u32)
        ensures
            w == self.spec_bits(),
    {
        match self {
            Coord::NegOne => F32_NEG_ONE_BITS,
            Coord::Zero => F32_ZERO_BITS,
            Coord::One => F32_ONE_BITS,
        }
    }

    pub fn from_bits(w: u32) -> (c: Option<Coord>)
        ensures
            c == Coord::spec_from_bits(w),
    {
        if w == F32_NEG_ONE_BITS {
            Some(Coord::NegOne)
        } else if w == F32_ZERO_BITS {
            Some(Coord::Zero)
        } else if w == F32_ONE_BITS {
            Some(Coord::One)
        } else {
            None
        }
    }
}

/// Distinct coordinates have distinct buffer words.
pub proof fn lemma_coord_bits_injective(a: Coord, b: Coord)
    requires
        a.spec_bits() == b.spec_bits(),
    ensures
        a == b,
{
}

/// Decoding inverts encoding on every single coordinate.
pub proof fn lemma_coord_round_trip(c: Coord)
    ensures
        Coord::spec_from_bits(c.spec_bits()) == Some(c),
{
}

/// A two-component vector of quad coordinates.
#[derive(Clone, Copy, Debug, PartialEq, Eq, Structural)]
pub struct CoordPair {
    pub x: Coord,
    pub y: Coord,
}

/// One vertex of the full-screen quad: a 2D position in normalized device
/// coordinates and the texture coordinate sampled there, interleaved in the
/// buffer as four 32-bit words.
#[derive(Clone, Copy, Debug, PartialEq, Eq, Structural)]
pub struct FXAAVertexArgs {
    pub position: CoordPair,
    pub tex_coord: CoordPair,
}

/// An attribute of the vertex layout: shader location, component format
/// and byte offset within one vertex.
#[derive(Clone, Copy, Debug, PartialEq, Eq, Structural)]
pub struct VertexAttr {
    pub location: u32,
    pub format: AttrFormat,
    pub offset: u32,
}

/// Component format of a vertex attribute.
#[derive(Clone, Copy, Debug, PartialEq, Eq, Structural)]
pub enum AttrFormat {
    /// Two 32-bit floats.
    Rg32Sfloat,
}

/// The vertex layout: total stride in bytes and the attribute list.
#[derive(Debug)]
pub struct VertexFormat {
    pub stride: u32,
    pub attributes: Vec<VertexAttr>,
}

/// The layout the quad's vertex buffer follows: a 2-float position at
/// location 0 and a 2-float texture coordinate at location 1, 8-byte
/// aligned pairs, 16 bytes per vertex.
pub open spec fn is_fxaa_vertex_format(f: VertexFormat) -> bool {
    &&& f.stride == 16
    &&& f.attributes@ == seq![
        VertexAttr { location: 0, format: AttrFormat::Rg32Sfloat, offset: 0 },
        VertexAttr { location: 1, format: AttrFormat::Rg32Sfloat, offset: 8 },
    ]
}

impl FXAAVertexArgs {
    pub open spec fn spec_new(px: Coord, py: Coord, tx: Coord, ty: Coord) -> FXAAVertexArgs {
        FXAAVertexArgs {
            position: CoordPair { x: px, y: py },
            tex_coord: CoordPair { x: tx, y: ty },
        }
    }

    pub fn new(px: Coord, py: Coord, tx: Coord, ty: Coord) -> (v: FXAAVertexArgs)
        ensures
            v == FXAAVertexArgs::spec_new(px, py, tx, ty),
    {
        FXAAVertexArgs {
            position: CoordPair { x: px, y: py },
            tex_coord: CoordPair { x: tx, y: ty },
        }
    }

    /// The vertex layout this vertex type is laid out with.
    pub fn vertex() -> (f: VertexFormat)
        ensures
            is_fxaa_vertex_format(f),
    {
        let mut attributes: Vec<VertexAttr> = Vec::new();
        attributes.push(VertexAttr { location: 0, format: AttrFormat::Rg32Sfloat, offset: 0 });
        attributes.push(VertexAttr { location: 1, format: AttrFormat::Rg32Sfloat, offset: 8 });
        assert(attributes@ =~= seq![
            VertexAttr { location: 0, format: AttrFormat::Rg32Sfloat, offset: 0 },
            VertexAttr { location: 1, format: AttrFormat::Rg32Sfloat, offset: 8 },
        ]);
        VertexFormat { stride: 16, attributes }
    }
}

/// The fixed six vertices of the full-screen quad, in draw order:
/// two triangles, position paired with texture coordinate.
pub open spec fn quad_vertices() -> Seq<FXAAVertexArgs> {
    seq![
        FXAAVertexArgs::spec_new(Coord::NegOne, Coord::One, Coord::Zero, Coord::One),
        FXAAVertexArgs::spec_new(Coord::One, Coord::NegOne, Coord::One, Coord::Zero),
        FXAAVertexArgs::spec_new(Coord::NegOne, Coord::NegOne, Coord::Zero, Coord::Zero),
        FXAAVertexArgs::spec_new(Coord::One, Coord::NegOne, Coord::One, Coord::Zero),
        FXAAVertexArgs::spec_new(Coord::NegOne, Coord::One, Coord::Zero, Coord::One),
        FXAAVertexArgs::spec_new(Coord::One, Coord::One, Coord::One, Coord::One),
    ]
}

/// `ws` is the exact buffer image of `vs`: four words per vertex, in order
/// position x, position y, texture x, texture y.
pub open spec fn encodes(vs: Seq<FXAAVertexArgs>, ws: Seq<u32>) -> bool {
    &&& ws.len() == 4 * vs.len()
    &&& forall|i: int| 0 <= i < vs.len() ==> {
        &&& ws[4 * i] == (#[trigger] vs[i]).position.x.spec_bits()
        &&& ws[4 * i + 1] == vs[i].position.y.spec_bits()
        &&& ws[4 * i + 2] == vs[i].tex_coord.x.spec_bits()
        &&& ws[4 * i + 3] == vs[i].tex_coord.y.spec_bits()
    }
}

/// A buffer decodes at all exactly when its length is whole vertices and
/// every word is the image of some coordinate.
pub open spec fn well_formed_buffer(ws: Seq<u32>) -> bool {
    &&& ws.len() % 4 == 0
    &&& forall|i: int| 0 <= i < ws.len() ==> (#[trigger] Coord::spec_from_bits(ws[i])) is Some
}

/// Law: a buffer is the image of at most one vertex sequence, so decoding
/// the quad's buffer can only yield the quad again — round-trip exactness.
pub proof fn lemma_encoding_unique(a: Seq<FXAAVertexArgs>, b: Seq<FXAAVertexArgs>, ws: Seq<u32>)
    requires
        encodes(a, ws),
        encodes(b, ws),
    ensures
        a == b,
{
    assert(a.len() == b.len());
    assert forall|i: int| 0 <= i < a.len() implies a[i] == b[i] by {
        lemma_coord_bits_injective(a[i].position.x, b[i].position.x);
        lemma_coord_bits_injective(a[i].position.y, b[i].position.y);
        lemma_coord_bits_injective(a[i].tex_coord.x, b[i].tex_coord.x);
        lemma_coord_bits_injective(a[i].tex_coord.y, b[i].tex_coord.y);
    }
    assert(a =~= b);
}

/// Law: whatever decodes from the quad's vertex buffer is the quad again:
/// the six vertices, decoded back from the encoded buffer, always equal
/// the fixed set.
pub proof fn lemma_quad_round_trip(ws: Seq<u32>, vs: Seq<FXAAVertexArgs>)
    requires
        encodes(quad_vertices(), ws),
        encodes(vs, ws),
    ensures
        vs == quad_vertices(),
{
    lemma_encoding_unique(vs, quad_vertices(), ws);
}

/// The six quad vertices as a vector, for uploading.
pub fn quad_vertex_list() -> (v: Vec<FXAAVertexArgs>)
    ensures
        v@ == quad_vertices(),
{
    let mut v: Vec<FXAAVertexArgs> = Vec::new();
    v.push(FXAAVertexArgs::new(Coord::NegOne, Coord::One, Coord::Zero, Coord::One));
    v.push(FXAAVertexArgs::new(Coord::One, Coord::NegOne, Coord::One, Coord::Zero));
    v.push(FXAAVertexArgs::new(Coord::NegOne, Coord::NegOne, Coord::Zero, Coord::Zero));
    v.push(FXAAVertexArgs::new(Coord::One, Coord::NegOne, Coord::One, Coord::Zero));
    v.push(FXAAVertexArgs::new(Coord::NegOne, Coord::One, Coord::Zero, Coord::One));
    v.push(FXAAVertexArgs::new(Coord::One, Coord::One, Coord::One, Coord::One));
    assert(v@ =~= quad_vertices());
    v
}

/// Encode a vertex list into the 32-bit words the GPU buffer holds.
pub fn encode_vertex_buffer(vs: &Vec<FXAAVertexArgs>) -> (ws: Vec<u32>)
    requires
        4 * vs@.len() <= usize::MAX,
    ensures
        encodes(vs@, ws@),
{
    let mut ws: Vec<u32> = Vec::new();
    let mut i: usize = 0;
    while i < vs.len()
        invariant
            i <= vs@.len(),
            4 * vs@.len() <= usize::MAX,
            ws@.len() == 4 * i,
            forall|j: int| 0 <= j < i ==> {
                &&& ws@[4 * j] == (#[trigger] vs@[j]).position.x.spec_bits()
                &&& ws@[4 * j + 1] == vs@[j].position.y.spec_bits()
                &&& ws@[4 * j + 2] == vs@[j].tex_coord.x.spec_bits()
                &&& ws@[4 * j + 3] == vs@[j].tex_coord.y.spec_bits()
            },
        decreases vs@.len() - i,
    {
        let v = vs[i];
        ws.push(v.position.x.bits());
        ws.push(v.position.y.bits());
        ws.push(v.tex_coord.x.bits());
        ws.push(v.tex_coord.y.bits());
        i = i + 1;
    }
    ws
}

/// Decode a vertex buffer back into vertices; answers `None` exactly on a
/// buffer that is not the image of any vertex list.
pub fn decode_vertex_buffer(ws: &Vec<u32>) -> (r: Option<Vec<FXAAVertexArgs>>)
    ensures
        r is Some <==> well_formed_buffer(ws@),
        r matches Some(vs) ==> encodes(vs@, ws@),
{
    if ws.len() % 4 != 0 {
        assert(!well_formed_buffer(ws@));
        return None;
    }
    let mut vs: Vec<FXAAVertexArgs> = Vec::new();
    let mut i: usize = 0;
    while ws.len() - i >= 4
        invariant
            i % 4 == 0,
            i <= ws@.len(),
            ws@.len() % 4 == 0,
            vs@.len() == i / 4,
            forall|j: int| 0 <= j < i ==> (#[trigger] Coord::spec_from_bits(ws@[j])) is Some,
            forall|j: int| 0 <= j < vs@.len() ==> {
                &&& ws@[4 * j] == (#[trigger] vs@[j]).position.x.spec_bits()
                &&& ws@[4 * j + 1] == vs@[j].position.y.spec_bits()
                &&& ws@[4 * j + 2] == vs@[j].tex_coord.x.spec_bits()
                &&& ws@[4 * j + 3] == vs@[j].tex_coord.y.spec_bits()
            },
        decreases ws@.len() - i,
    {
        let px = Coord::from_bits(ws[i]);
        let py = Coord::from_bits(ws[i + 1]);
        let tx = Coord::from_bits(ws[i + 2]);
        let ty = Coord::from_bits(ws[i + 3]);
        match (px, py, tx, ty) {
            (Some(px), Some(py), Some(tx), Some(ty)) => {
                proof {
                    lemma_coord_round_trip(px);
                    lemma_coord_round_trip(py);
                    lemma_coord_round_trip(tx);
                    lemma_coord_round_trip(ty);
                }
                vs.push(FXAAVertexArgs::new(px, py, tx, ty));
            },
            _ => {
                return None;
            },
        }
        i = i + 4;
    }
    assert(i == ws@.len());
    Some(vs)
}

} // verus!
