use vstd::prelude::*;

verus! {

/// Number of `f32` components in one vertex: a 3-component position.
pub const FLOATS_PER_VERTEX: usize = 3;

/// Size in bytes of one vertex component (`f32`) and of one index (`u32`).
pub const BYTES_PER_ELEMENT: u64 = 4;

/// Largest element count whose byte size fits a GL buffer size (`isize`).
pub const MAX_BUFFER_ELEMENTS: u64 = 0x1fff_ffff_ffff_ffff;

/// Largest index count that one indexed draw can name (`i32::MAX`).
pub const MAX_INDEX_COUNT: usize = 0x7fff_ffff;

/// Why vertex and index data cannot be uploaded as a mesh.
#[derive(Clone, Copy, Debug, PartialEq, Eq, Structural)]
pub enum MeshError {
    /// The number of vertex floats is not a multiple of three.
    RaggedVertexData,
    /// Some index names a vertex that does not exist.
    IndexOutOfRange,
    /// More indices than one draw call can name.
    TooManyIndices,
    /// A buffer's byte size does not fit a GL buffer size.
    TooLarge,
}

/// The accepted shape of a mesh: counts and buffer sizes in bytes.
#[derive(Clone, Copy, Debug, PartialEq, Eq, Structural)]
pub struct MeshLayout {
    pub vertex_count: usize,
    pub index_count: usize,
    pub vertex_bytes: u64,
    pub index_bytes: u64,
}

/// Every index names one of the first `vertex_count` vertices.
pub open spec fn indices_within(indices: Seq<u32>, vertex_count: int) -> bool {
    forall|i: int| 0 <= i < indices.len() ==> (#[trigger] indices[i] as int) < vertex_count
}

/// The byte size of `count` four-byte elements fits a GL buffer size.
pub open spec fn fits_buffer(count: int) -> bool {
    count <= MAX_BUFFER_ELEMENTS
}

/// What `check_mesh` answers for `float_count` vertex floats and `indices`.
pub open spec fn mesh_result(float_count: int, indices: Seq<u32>) -> Result<MeshLayout, MeshError> {
    if float_count % 3 != 0 {
        Err(MeshError::RaggedVertexData)
    } else if !indices_within(indices, float_count / 3) {
        Err(MeshError::IndexOutOfRange)
    } else if indices.len() > MAX_INDEX_COUNT {
        Err(MeshError::TooManyIndices)
    } else if !fits_buffer(float_count) {
        Err(MeshError::TooLarge)
    } else {
        Ok(
            MeshLayout {
                vertex_count: (float_count / 3) as usize,
                index_count: indices.len() as usize,
                vertex_bytes: (4 * float_count) as u64,
                index_bytes: (4 * indices.len()) as u64,
            },
        )
    }
}

/// Byte size of `count` four-byte elements, or `None` where it does not fit
/// a GL buffer size.
pub fn byte_size(count: usize) -> (r: Option<u64>)
    ensures
        fits_buffer(count as int) ==> r == Some((4 * count) as u64),
        !fits_buffer(count as int) ==> r is None,
{
    let wide = count as u64;
    if wide <= MAX_BUFFER_ELEMENTS {
        Some(wide * BYTES_PER_ELEMENT)
    } else {
        None
    }
}

/// Position of the first index that names no vertex, if any.
pub fn first_index_out_of_range(indices: &Vec<u32>, vertex_count: usize) -> (r: Option<usize>)
    ensures
        r is None <==> indices_within(indices@, vertex_count as int),
        r matches Some(p) ==> p < indices@.len() && indices@[p as int] as int >= vertex_count
            && indices_within(indices@.take(p as int), vertex_count as int),
{
    let mut i: usize = 0;
    while i < indices.len()
        invariant
            i <= indices@.len(),
            indices_within(indices@.take(i as int), vertex_count as int),
        decreases indices@.len() - i,
    {
        if indices[i] as usize >= vertex_count {
            return Some(i);
        }
        assert(indices@.take(i as int + 1) == indices@.take(i as int).push(indices@[i as int]));
        i = i + 1;
    }
    assert(indices@.take(i as int) == indices@);
    None
}

/// Checks vertex data of `float_count` floats and the index data against each
/// other and against GL's size limits.
pub fn check_mesh(float_count: usize, indices: &Vec<u32>) -> (r: Result<MeshLayout, MeshError>)
    ensures
        r == mesh_result(float_count as int, indices@),
{
    if float_count % FLOATS_PER_VERTEX != 0 {
        return Err(MeshError::RaggedVertexData);
    }
    let vertex_count = float_count / FLOATS_PER_VERTEX;
    if first_index_out_of_range(indices, vertex_count).is_some() {
        return Err(MeshError::IndexOutOfRange);
    }
    if indices.len() > MAX_INDEX_COUNT {
        return Err(MeshError::TooManyIndices);
    }
    let vertex_bytes = match byte_size(float_count) {
        Some(b) => b,
        None => return Err(MeshError::TooLarge),
    };
    let index_bytes = match byte_size(indices.len()) {
        Some(b) => b,
        None => return Err(MeshError::TooLarge),
    };
    Ok(MeshLayout { vertex_count, index_count: indices.len(), vertex_bytes, index_bytes })
}

} // verus!
