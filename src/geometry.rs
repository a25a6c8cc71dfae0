use vstd::prelude::*;

use crate::mesh::{Mesh, Position3};

verus! {

/// Coordinate `c` (0, 1 or 2) of `p`.
pub open spec fn coordinate(p: Position3, c: int) -> u32 {
    if c == 0 {
        p.x
    } else if c == 1 {
        p.y
    } else {
        p.z
    }
}

/// The vertex buffer's contents: three words per vertex, x, y and z, with no
/// gap between vertices.
pub open spec fn position_words(vertices: Seq<Position3>) -> Seq<u32> {
    Seq::new((3 * vertices.len()) as nat, |k: int| coordinate(vertices[k / 3], k % 3))
}

/// How the vertex shader's position input reads the buffer.
#[derive(Clone, Copy, Debug, PartialEq, Eq, Structural)]
pub struct AttributeLayout {
    /// Floating-point components per vertex.
    pub components: i32,
    /// Whether fixed-point values are normalized.
    pub normalized: bool,
    /// Bytes between consecutive vertices; 0 means tightly packed.
    pub stride: i32,
    /// Byte offset of the first component in the buffer.
    pub offset: usize,
}

/// How the buffer's contents will be used.
#[derive(Clone, Copy, Debug, PartialEq, Eq, Structural)]
pub enum BufferUsage {
    /// Written once, drawn many times.
    StaticDraw,
}

/// Everything the program needs to hand a mesh to the graphics context.
#[derive(Clone, Debug)]
pub struct UploadPlan {
    /// The buffer's contents, one word per coordinate.
    pub data: Vec<u32>,
    /// The buffer's size in bytes.
    pub byte_len: usize,
    pub usage: BufferUsage,
    /// The layout of the shader input named `position`.
    pub attribute: AttributeLayout,
    /// The colour target that the shader output named `out_color` is bound to.
    pub output_slot: u32,
}

/// Why a mesh cannot be uploaded.
#[derive(Clone, Copy, Debug, PartialEq, Eq, Structural)]
pub enum UploadError {
    /// The buffer's size in bytes does not fit the API's signed size type.
    TooLarge,
}

/// Size in bytes of one coordinate.
pub const WORD_BYTES: usize = 4;

/// The position input's layout: two floats per vertex, not normalized,
/// tightly packed, from the start of the buffer.
///
/// Note: the buffer holds three coordinates per vertex, so with stride 0 the
/// shader reads overlapping pairs rather than each vertex's x and y. This
/// layout is kept on purpose, so that the picture drawn stays the same; a
/// layout of three components would read whole vertices.
pub open spec fn position_attribute() -> AttributeLayout {
    AttributeLayout { components: 2, normalized: false, stride: 0, offset: 0 }
}

/// Whether a buffer of `words` coordinates has a byte size the API can take.
pub open spec fn fits_buffer(words: int) -> bool {
    WORD_BYTES * words <= isize::MAX
}

/// The buffer's contents for `vertices`.
pub fn position_data(vertices: &Vec<Position3>) -> (r: Vec<u32>)
    ensures
        r@ == position_words(vertices@),
{
    let mut out: Vec<u32> = Vec::new();
    let mut i: usize = 0;
    while i < vertices.len()
        invariant
            i <= vertices.len(),
            out@.len() == 3 * i,
            forall|k: int| 0 <= k < 3 * i ==> #[trigger] out@[k] == coordinate(vertices@[k / 3], k % 3),
        decreases vertices.len() - i,
    {
        let p = vertices[i];
        out.push(p.x);
        out.push(p.y);
        out.push(p.z);
        proof {
            assert forall|k: int| 0 <= k < 3 * (i + 1) implies #[trigger] out@[k] == coordinate(
                vertices@[k / 3],
                k % 3,
            ) by {
                if k >= 3 * i {
                    assert(k / 3 == i as int && k % 3 == k - 3 * i) by (nonlinear_arith)
                        requires
                            3 * i <= k < 3 * (i + 1),
                    ;
                }
            }
        }
        i = i + 1;
    }
    assert(out@ =~= position_words(vertices@));
    out
}

/// Size in bytes of a buffer of `words` coordinates, when the API can take it.
pub fn buffer_byte_len(words: usize) -> (r: Option<usize>)
    ensures
        fits_buffer(words as int) ==> r == Some((WORD_BYTES * words) as usize),
        !fits_buffer(words as int) ==> r is None,
{
    if words <= (isize::MAX as usize) / WORD_BYTES {
        assert(WORD_BYTES * words <= isize::MAX) by (nonlinear_arith)
            requires
                words <= (isize::MAX as usize) / 4,
        ;
        Some(WORD_BYTES * words)
    } else {
        assert(WORD_BYTES * words > isize::MAX) by (nonlinear_arith)
            requires
                words > (isize::MAX as usize) / 4,
        ;
        None
    }
}

/// Plans the upload of `mesh`: its positions as a static vertex buffer,
/// read by the `position` input as two floats per vertex, with the
/// `out_color` output bound to colour target 0. The two-component layout over
/// three-word vertices is deliberate; see `position_attribute`.
pub fn plan_upload(mesh: &Mesh) -> (r: Result<UploadPlan, UploadError>)
    ensures
        fits_buffer(3 * mesh@.0.len() as int) ==> (r matches Ok(plan) && plan.data@ == position_words(mesh@.0)
            && plan.byte_len == WORD_BYTES * plan.data@.len() && plan.usage == BufferUsage::StaticDraw
            && plan.attribute == position_attribute() && plan.output_slot == 0),
        !fits_buffer(3 * mesh@.0.len() as int) ==> r == Err::<UploadPlan, UploadError>(UploadError::TooLarge),
{
    let data = position_data(mesh.vertices());
    match buffer_byte_len(data.len()) {
        Some(byte_len) => Ok(
            UploadPlan {
                data,
                byte_len,
                usage: BufferUsage::StaticDraw,
                attribute: AttributeLayout { components: 2, normalized: false, stride: 0, offset: 0 },
                output_slot: 0,
            },
        ),
        None => Err(UploadError::TooLarge),
    }
}

} // verus!
