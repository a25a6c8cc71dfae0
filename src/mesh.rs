use vstd::prelude::*;

use crate::obj_text::{is_supported_obj_text, supported_obj_text};

verus! {

/// A vertex position. Each coordinate is held as the bit pattern of an
/// IEEE 754 single-precision number, as the vertex buffer takes it.
#[derive(Clone, Copy, Debug, PartialEq, Eq, Structural)]
pub struct Position3 {
    pub x: u32,
    pub y: u32,
    pub z: u32,
}

/// Vertex positions and triangle indices that `obj::load_obj` reads from the
/// bytes of a Wavefront OBJ text, or `None` when it rejects them.
pub uninterp spec fn obj_positions(text: Seq<u8>) -> Option<(Seq<Position3>, Seq<u32>)>;

#[verifier::external_type_specification]
#[verifier::external_body]
pub struct ExObjError(obj::ObjError);

/// Relies on `obj::load_obj` with `Position` vertices and `u32` indices: the
/// model's positions, in file order, and the position index of each triangle
/// corner. Its result depends on the bytes alone. Face indices are checked
/// against the positions read so far, so each index names a position. The
/// parser stops the program on statements it does not implement and joins
/// continued lines; `requires` keeps to texts without either.
#[verifier::external_body]
fn load_obj_positions(text: &Vec<u8>) -> (r: Result<(Vec<Position3>, Vec<u32>), obj::ObjError>)
    requires
        is_supported_obj_text(text@),
    ensures
        r is Ok <==> obj_positions(text@) is Some,
        r matches Ok((v, i)) ==> obj_positions(text@) == Some((v@, i@)),
        r matches Ok((v, i)) ==> forall|k: int| 0 <= k < i@.len() ==> (i@[k] as int) < v@.len(),
{
    let input = std::io::BufReader::new(std::io::Cursor::new(text.as_slice()));
    let model: obj::Obj<obj::Position, u32> = obj::load_obj(input)?;
    let vertices = model.vertices.iter().map(
        |p| Position3 { x: p.position[0].to_bits(), y: p.position[1].to_bits(), z: p.position[2].to_bits() },
    ).collect();
    Ok((vertices, model.indices))
}

/// Why a mesh could not be loaded.
#[derive(Clone, Copy, Debug, PartialEq, Eq, Structural)]
pub enum MeshError {
    /// The text is not an OBJ model of triangles.
    Malformed,
    /// The model has no vertex position.
    NoVertices,
    /// The model has no triangle.
    NoIndices,
    /// An index names no vertex position.
    IndexOutOfRange,
    /// The text holds a line continuation or a statement the parser does
    /// not implement (free-form geometry, render attributes).
    Unsupported,
}

/// A triangle mesh: vertex positions and the indices of its triangles'
/// corners. Both lists are non-empty and every index names a position.
#[derive(Debug)]
pub struct Mesh {
    vertices: Vec<Position3>,
    indices: Vec<u32>,
}

impl View for Mesh {
    type V = (Seq<Position3>, Seq<u32>);

    closed spec fn view(&self) -> (Seq<Position3>, Seq<u32>) {
        (self.vertices@, self.indices@)
    }
}

/// Whether every index names one of the positions.
pub open spec fn indices_in_range(vertices: Seq<Position3>, indices: Seq<u32>) -> bool {
    forall|k: int| 0 <= k < indices.len() ==> (indices[k] as int) < vertices.len()
}

/// The mesh made of `vertices` and `indices`, or why there is none.
pub open spec fn mesh_outcome(vertices: Seq<Position3>, indices: Seq<u32>) -> Result<
    (Seq<Position3>, Seq<u32>),
    MeshError,
> {
    if vertices.len() == 0 {
        Err(MeshError::NoVertices)
    } else if indices.len() == 0 {
        Err(MeshError::NoIndices)
    } else if !indices_in_range(vertices, indices) {
        Err(MeshError::IndexOutOfRange)
    } else {
        Ok((vertices, indices))
    }
}

/// The mesh that loading the OBJ text `text` gives, or why there is none.
pub open spec fn loaded_mesh(text: Seq<u8>) -> Result<(Seq<Position3>, Seq<u32>), MeshError> {
    if !is_supported_obj_text(text) {
        Err(MeshError::Unsupported)
    } else {
        match obj_positions(text) {
            Some((vertices, indices)) => mesh_outcome(vertices, indices),
            None => Err(MeshError::Malformed),
        }
    }
}

/// A loading result seen through the mesh's view.
pub open spec fn outcome_view(r: Result<Mesh, MeshError>) -> Result<(Seq<Position3>, Seq<u32>), MeshError> {
    match r {
        Ok(m) => Ok(m@),
        Err(e) => Err(e),
    }
}

impl Mesh {
    /// Both lists are non-empty and every index names a position.
    pub open spec fn wf(&self) -> bool {
        &&& self@.0.len() > 0
        &&& self@.1.len() > 0
        &&& indices_in_range(self@.0, self@.1)
    }

    /// A mesh of `vertices` and `indices`; fails when either is empty or an
    /// index names no position.
    pub fn from_parts(vertices: Vec<Position3>, indices: Vec<u32>) -> (r: Result<Mesh, MeshError>)
        ensures
            outcome_view(r) == mesh_outcome(vertices@, indices@),
            r matches Ok(m) ==> m.wf(),
    {
        if vertices.len() == 0 {
            Err(MeshError::NoVertices)
        } else if indices.len() == 0 {
            Err(MeshError::NoIndices)
        } else {
            let n = vertices.len();
            let mut k: usize = 0;
            while k < indices.len()
                invariant
                    k <= indices.len(),
                    n == vertices.len(),
                    n > 0,
                    indices.len() > 0,
                    forall|m: int| 0 <= m < k ==> (indices@[m] as int) < n,
                decreases indices.len() - k,
            {
                if indices[k] as usize >= n {
                    assert((indices@[k as int] as int) >= vertices@.len());
                    return Err(MeshError::IndexOutOfRange);
                }
                k = k + 1;
            }
            Ok(Mesh { vertices, indices })
        }
    }

    /// The vertex positions.
    pub fn vertices(&self) -> (r: &Vec<Position3>)
        ensures
            r@ == self@.0,
    {
        &self.vertices
    }

    /// The triangle corner indices.
    pub fn indices(&self) -> (r: &Vec<u32>)
        ensures
            r@ == self@.1,
    {
        &self.indices
    }
}

/// Loads a mesh from the bytes of a Wavefront OBJ text. A mesh it returns
/// always has at least one vertex and one index, and every index names a
/// position. A text with a line continuation or a statement the parser does
/// not implement is refused before parsing.
pub fn load_mesh(text: &Vec<u8>) -> (r: Result<Mesh, MeshError>)
    ensures
        outcome_view(r) == loaded_mesh(text@),
        r matches Ok(m) ==> m.wf(),
{
    if !supported_obj_text(text) {
        return Err(MeshError::Unsupported);
    }
    match load_obj_positions(text) {
        Ok((vertices, indices)) => Mesh::from_parts(vertices, indices),
        Err(_) => Err(MeshError::Malformed),
    }
}

} // verus!
