use vstd::prelude::*;

verus! {

/// Why an index set was rejected as polygon geometry.
#[derive(Debug, Clone, Copy, PartialEq, Eq, Structural)]
pub enum GeometryError {
    /// The index count is not a multiple of three, so the list does not
    /// describe whole triangles.
    PartialTriangle,
    /// Some index points past the last vertex.
    IndexOutOfRange,
}

/// Every index points at an existing vertex.
pub open spec fn indices_in_range(indices: Seq<u16>, num_vertices: u32) -> bool {
    forall|i: int| 0 <= i < indices.len() ==> #[trigger] indices[i] < num_vertices
}

/// An index list describes triangles over `num_vertices` vertices: whole
/// triangles only, every corner an existing vertex.
pub open spec fn valid_geometry(indices: Seq<u16>, num_vertices: u32) -> bool {
    &&& indices.len() % 3 == 0
    &&& indices_in_range(indices, num_vertices)
}

/// The indexed triangles of one drawable polygon model, together with how
/// many vertices the accompanying vertex buffer must hold. The vertex
/// positions and texture coordinates themselves live with the caller that
/// owns the GPU buffers; the model fixes which corners each triangle uses
/// and how many indices one draw call covers.
#[derive(Debug)]
pub struct GeometryModel {
    pub num_vertices: u32,
    pub indices: Vec<u16>,
}

impl GeometryModel {
    /// Whole triangles, all corners in range, and an index count a draw
    /// call can name.
    pub open spec fn wf(&self) -> bool {
        &&& valid_geometry(self.indices@, self.num_vertices)
        &&& self.indices@.len() <= u32::MAX
    }

    /// Accepts exactly the index lists that describe whole triangles over
    /// `num_vertices` vertices; tells a truncated triangle apart from an
    /// out-of-range corner.
    pub fn new(num_vertices: u32, indices: Vec<u16>) -> (r: Result<GeometryModel, GeometryError>)
        requires
            indices@.len() <= u32::MAX,
        ensures
            r is Ok <==> valid_geometry(indices@, num_vertices),
            r is Ok ==> r->Ok_0.wf() && r->Ok_0.num_vertices == num_vertices
                && r->Ok_0.indices@ == indices@,
            r is Err ==> r->Err_0 == (if indices@.len() % 3 != 0 {
                GeometryError::PartialTriangle
            } else {
                GeometryError::IndexOutOfRange
            }),
    {
        if indices.len() % 3 != 0 {
            return Err(GeometryError::PartialTriangle);
        }
        let mut i: usize = 0;
        while i < indices.len()
            invariant
                0 <= i <= indices@.len(),
                indices@.len() % 3 == 0,
                forall|j: int| 0 <= j < i ==> #[trigger] indices@[j] < num_vertices,
            decreases indices@.len() - i,
        {
            if (indices[i] as u32) >= num_vertices {
                return Err(GeometryError::IndexOutOfRange);
            }
            i += 1;
        }
        Ok(GeometryModel { num_vertices, indices })
    }

    /// How many indices one indexed draw over this model covers.
    pub fn num_indices(&self) -> (r: u32)
        requires
            self.wf(),
        ensures
            r == self.indices@.len(),
    {
        self.indices.len() as u32
    }
}

/// The index list of the five-vertex fan model: three triangles around
/// vertex 4.
pub open spec fn pentagon_indices() -> Seq<u16> {
    seq![0u16, 1u16, 4u16, 1u16, 2u16, 4u16, 2u16, 3u16, 4u16]
}

/// The index list of the four-vertex quad model: two triangles.
pub open spec fn quad_indices() -> Seq<u16> {
    seq![0u16, 2u16, 1u16, 0u16, 3u16, 2u16]
}

/// The five-vertex fan model the video can be drawn onto.
pub fn pentagon_model() -> (r: GeometryModel)
    ensures
        r.wf(),
        r.num_vertices == 5,
        r.indices@ == pentagon_indices(),
{
    let mut indices: Vec<u16> = Vec::new();
    indices.push(0);
    indices.push(1);
    indices.push(4);
    indices.push(1);
    indices.push(2);
    indices.push(4);
    indices.push(2);
    indices.push(3);
    indices.push(4);
    proof {
        assert(indices@ =~= pentagon_indices());
        assert forall|j: int| 0 <= j < pentagon_indices().len() implies
            #[trigger] pentagon_indices()[j] < 5u32 by {
            if j == 0 {
            } else if j == 1 {
            } else if j == 2 {
            } else if j == 3 {
            } else if j == 4 {
            } else if j == 5 {
            } else if j == 6 {
            } else if j == 7 {
            } else {
                assert(j == 8);
            }
        }
    }
    GeometryModel { num_vertices: 5, indices }
}

/// The full-screen-ish quad model the video is drawn onto by default.
pub fn quad_model() -> (r: GeometryModel)
    ensures
        r.wf(),
        r.num_vertices == 4,
        r.indices@ == quad_indices(),
{
    let mut indices: Vec<u16> = Vec::new();
    indices.push(0);
    indices.push(2);
    indices.push(1);
    indices.push(0);
    indices.push(3);
    indices.push(2);
    proof {
        assert(indices@ =~= quad_indices());
        assert forall|j: int| 0 <= j < quad_indices().len() implies
            #[trigger] quad_indices()[j] < 4u32 by {
            if j == 0 {
            } else if j == 1 {
            } else if j == 2 {
            } else if j == 3 {
            } else if j == 4 {
            } else {
                assert(j == 5);
            }
        }
    }
    GeometryModel { num_vertices: 4, indices }
}

} // verus!
