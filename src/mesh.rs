//! A read-only view of a triangle mesh: its index buffer and the per-vertex
//! attribute arrays that edge extraction reads. Floating-point attributes are
//! carried as their IEEE-754 single-precision bit patterns.

use vstd::prelude::*;

verus! {

/// A triangle index buffer, stored with 16-bit or 32-bit indices.
pub enum IndexBuffer {
    U16(Vec<u16>),
    U32(Vec<u32>),
}

impl IndexBuffer {
    /// The indices, widened to `u32`.
    pub open spec fn widened(&self) -> Seq<u32> {
        match self {
            IndexBuffer::U16(v) => v@.map_values(|x: u16| x as u32),
            IndexBuffer::U32(v) => v@,
        }
    }

    /// Copies the indices into one `u32` buffer.
    pub fn to_u32(&self) -> (r: Vec<u32>)
        ensures
            r@ == self.widened(),
    {
        match self {
            IndexBuffer::U16(v) => {
                let mut r: Vec<u32> = Vec::with_capacity(v.len());
                let mut i: usize = 0;
                while i < v.len()
                    invariant
                        i <= v.len(),
                        r@ == v@.take(i as int).map_values(|x: u16| x as u32),
                    decreases v.len() - i,
                {
                    r.push(v[i] as u32);
                    i += 1;
                    assert(r@ =~= v@.take(i as int).map_values(|x: u16| x as u32));
                }
                assert(v@.take(v.len() as int) =~= v@);
                r
            },
            IndexBuffer::U32(v) => v.clone(),
        }
    }
}

/// Per-vertex attributes of a mesh, each array addressed by vertex index.
/// Positions, colors, normals and joint weights hold `f32` bit patterns; a
/// selection tag is one `f32` bit pattern per vertex.
pub struct MeshView {
    pub indices: Option<IndexBuffer>,
    pub positions: Option<Vec<[u32; 3]>>,
    pub colors: Option<Vec<[u32; 4]>>,
    pub normals: Option<Vec<[u32; 3]>>,
    pub joint_indices: Option<Vec<[u16; 4]>>,
    pub joint_weights: Option<Vec<[u32; 4]>>,
    pub tags: Option<Vec<u32>>,
}

/// Every index of `ix` addresses a row of an array of length `len`.
pub open spec fn all_below(ix: Seq<u32>, len: nat) -> bool {
    forall|i: int| 0 <= i < ix.len() ==> (#[trigger] ix[i]) < len
}

impl MeshView {
    /// The index buffer, widened; empty when the mesh has none.
    pub open spec fn index_seq(&self) -> Seq<u32> {
        match self.indices {
            Some(b) => b.widened(),
            None => Seq::empty(),
        }
    }

    /// The selection tags, if the mesh carries them.
    pub open spec fn tag_seq(&self) -> Option<Seq<u32>> {
        match self.tags {
            Some(t) => Some(t@),
            None => None,
        }
    }

    /// Every attribute array that is present can be indexed by every index
    /// of the index buffer.
    pub open spec fn indices_in_range(&self) -> bool {
        let ix = self.index_seq();
        &&& (self.positions matches Some(a) ==> all_below(ix, a@.len()))
        &&& (self.colors matches Some(a) ==> all_below(ix, a@.len()))
        &&& (self.normals matches Some(a) ==> all_below(ix, a@.len()))
        &&& (self.joint_indices matches Some(a) ==> all_below(ix, a@.len()))
        &&& (self.joint_weights matches Some(a) ==> all_below(ix, a@.len()))
        &&& (self.tags matches Some(a) ==> all_below(ix, a@.len()))
    }

    /// Everything that attribute snapshots need is present: the index buffer,
    /// positions, colors, normals, joint indices and joint weights.
    pub open spec fn has_full_attributes(&self) -> bool {
        &&& self.indices is Some
        &&& self.positions is Some
        &&& self.colors is Some
        &&& self.normals is Some
        &&& self.joint_indices is Some
        &&& self.joint_weights is Some
    }

    /// The attribute bundle of vertex `v`.
    pub open spec fn snapshot(&self, v: u32) -> DataVert {
        DataVert {
            position: self.positions->Some_0@[v as int],
            color: Some(self.colors->Some_0@[v as int]),
            normal: Some(self.normals->Some_0@[v as int]),
            joint_indices: Some(self.joint_indices->Some_0@[v as int]),
            joint_weights: Some(self.joint_weights->Some_0@[v as int]),
        }
    }
}

/// The attributes of one edge endpoint.
#[derive(Clone, Copy, Debug, PartialEq, Eq, Default)]
pub struct DataVert {
    pub position: [u32; 3],
    pub color: Option<[u32; 4]>,
    pub normal: Option<[u32; 3]>,
    pub joint_indices: Option<[u16; 4]>,
    pub joint_weights: Option<[u32; 4]>,
}

/// One edge endpoint, by vertex index.
#[derive(Clone, Copy, Debug, PartialEq, Eq, Default)]
pub struct IndexVert {
    pub index: u32,
}

} // verus!
