//! Bookkeeping for a GPU mesh buffer pair (vertices and triangle faces).
//!
//! The policy kept here is the one a renderer must follow to minimise
//! buffer churn: an update reallocates a buffer only when the new data
//! exceeds the buffer's current capacity, otherwise it overwrites the used
//! region in place; and every update refreshes the face count used for
//! drawing. The GPU calls themselves are the renderer's business — it asks
//! this type what to do and carries it out.

use vstd::prelude::*;

verus! {

/// Largest face count the bookkeeping accepts, so that the drawn index
/// count `3 * faces` fits in a `usize` on every machine.
pub const MAX_FACE_COUNT: usize = 0x4000_0000;

/// The buffer usage hint the mesh was created with.
#[derive(Debug, Clone, Copy, PartialEq, Eq, Structural)]
pub enum UsageType {
    Static,
    Dynamic,
}

/// What a renderer must do to one GPU buffer to carry out an update.
#[derive(Debug, Clone, Copy, PartialEq, Eq, Structural)]
pub enum BufferUpdate {
    /// The new data exceeds the buffer's capacity: allocate the buffer
    /// anew at the new size and upload everything.
    Reallocate,
    /// The new data fits: overwrite the used region, leaving the
    /// allocation as it is.
    InPlace,
}

/// Capacity and draw-count state of one mesh on the GPU.
#[derive(Debug, Clone, Copy)]
pub struct Mesh {
    vertex_buffer_size: usize,
    face_buffer_size: usize,
    total_faces: usize,
    usage_type: UsageType,
}

impl Mesh {
    /// Allocated capacity of the vertex buffer, in vertices.
    pub closed spec fn spec_vertex_capacity(&self) -> usize {
        self.vertex_buffer_size
    }

    /// Allocated capacity of the face buffer, in faces.
    pub closed spec fn spec_face_capacity(&self) -> usize {
        self.face_buffer_size
    }

    /// Number of faces the next draw call renders.
    pub closed spec fn spec_total_faces(&self) -> usize {
        self.total_faces
    }

    pub closed spec fn spec_usage_type(&self) -> UsageType {
        self.usage_type
    }

    /// Bookkeeping for a mesh whose buffers were just created from
    /// `vertex_count` vertices and `face_count` faces: both buffers are
    /// exactly full.
    pub fn from_vertices(vertex_count: usize, face_count: usize, usage_type: UsageType) -> (r:
        Mesh)
        requires
            face_count <= MAX_FACE_COUNT,
        ensures
            r.spec_vertex_capacity() == vertex_count,
            r.spec_face_capacity() == face_count,
            r.spec_total_faces() == face_count,
            r.spec_usage_type() == usage_type,
    {
        Mesh {
            vertex_buffer_size: vertex_count,
            face_buffer_size: face_count,
            total_faces: face_count,
            usage_type,
        }
    }

    /// Decides how each buffer takes new data of the given sizes and
    /// refreshes the draw count. A buffer is reallocated exactly when the
    /// new data exceeds its capacity; capacity never shrinks.
    pub fn update_vertices(&mut self, vertex_count: usize, face_count: usize) -> (r: (
        BufferUpdate,
        BufferUpdate,
    ))
        requires
            face_count <= MAX_FACE_COUNT,
        ensures
            r.0 == (if vertex_count > old(self).spec_vertex_capacity() {
                BufferUpdate::Reallocate
            } else {
                BufferUpdate::InPlace
            }),
            r.1 == (if face_count > old(self).spec_face_capacity() {
                BufferUpdate::Reallocate
            } else {
                BufferUpdate::InPlace
            }),
            final(self).spec_vertex_capacity() == (if vertex_count > old(
                self,
            ).spec_vertex_capacity() {
                vertex_count
            } else {
                old(self).spec_vertex_capacity()
            }),
            final(self).spec_face_capacity() == (if face_count > old(self).spec_face_capacity() {
                face_count
            } else {
                old(self).spec_face_capacity()
            }),
            final(self).spec_total_faces() == face_count,
            final(self).spec_usage_type() == old(self).spec_usage_type(),
    {
        let vertex_action = if vertex_count > self.vertex_buffer_size {
            self.vertex_buffer_size = vertex_count;
            BufferUpdate::Reallocate
        } else {
            BufferUpdate::InPlace
        };
        let face_action = if face_count > self.face_buffer_size {
            self.face_buffer_size = face_count;
            BufferUpdate::Reallocate
        } else {
            BufferUpdate::InPlace
        };
        self.total_faces = face_count;
        (vertex_action, face_action)
    }

    /// Number of indices a draw call must render: three per face.
    pub fn index_count(&self) -> (r: usize)
        requires
            self.spec_total_faces() <= MAX_FACE_COUNT,
        ensures
            r == 3 * self.spec_total_faces(),
    {
        3 * self.total_faces
    }

    pub fn get_usage_type(&self) -> (r: UsageType)
        ensures
            r == self.spec_usage_type(),
    {
        self.usage_type
    }

    pub fn get_vertex_capacity(&self) -> (r: usize)
        ensures
            r == self.spec_vertex_capacity(),
    {
        self.vertex_buffer_size
    }

    pub fn get_face_capacity(&self) -> (r: usize)
        ensures
            r == self.spec_face_capacity(),
    {
        self.face_buffer_size
    }

    pub fn get_total_faces(&self) -> (r: usize)
        ensures
            r == self.spec_total_faces(),
    {
        self.total_faces
    }
}

} // verus!
