//! Line lists: the output of one extraction pass, as index pairs or as pairs
//! of endpoint attribute bundles.

use vstd::prelude::*;
use crate::builder::{
    build_edge_list, emitted, ends_below, lemma_emitted_below, lemma_triangle_edges_below,
    triangle_edges, Policy, Selection,
};
use crate::mesh::{DataVert, IndexVert, MeshView};

verus! {

/// A list of lines, each given by the vertex indices of its two ends.
#[derive(Clone, Debug, Default)]
pub struct IndexLineList {
    pub lines: Vec<(IndexVert, IndexVert)>,
}

/// A list of lines, each given by the attribute bundles of its two ends.
#[derive(Clone, Debug, Default)]
pub struct DataLineList {
    pub lines: Vec<(DataVert, DataVert)>,
}

impl IndexLineList {
    /// The lines as index pairs.
    pub open spec fn pairs(&self) -> Seq<(u32, u32)> {
        self.lines@.map_values(|l: (IndexVert, IndexVert)| (l.0.index, l.1.index))
    }

    /// The lines that join the given index pairs, in order and unchanged.
    pub fn from_pairs(pairs: &Vec<(u32, u32)>) -> (r: IndexLineList)
        ensures
            r.pairs() == pairs@,
    {
        let mut lines: Vec<(IndexVert, IndexVert)> = Vec::with_capacity(pairs.len());
        let mut i: usize = 0;
        while i < pairs.len()
            invariant
                i <= pairs.len(),
                lines@.len() == i,
                forall|j: int|
                    0 <= j < i ==> (#[trigger] lines@[j]).0.index == pairs@[j].0 && lines@[j].1.index
                        == pairs@[j].1,
            decreases pairs.len() - i,
        {
            let (a, b) = pairs[i];
            lines.push((IndexVert { index: a }, IndexVert { index: b }));
            i += 1;
        }
        assert(lines@.map_values(|l: (IndexVert, IndexVert)| (l.0.index, l.1.index)) =~= pairs@);
        IndexLineList { lines }
    }
}

impl MeshView {
    /// The selection that data-mode extraction applies: tag filtering when
    /// the mesh carries tags, else every edge.
    pub open spec fn policy(&self) -> Policy {
        match self.tags {
            Some(t) => Policy::TagFiltered(t@),
            None => Policy::Unconditional,
        }
    }

    /// The attribute bundles of the two ends of each pair, in order.
    pub open spec fn snapshots(&self, pairs: Seq<(u32, u32)>) -> Seq<(DataVert, DataVert)> {
        pairs.map_values(|e: (u32, u32)| (self.snapshot(e.0), self.snapshot(e.1)))
    }

    /// The number of vertices that every snapshot array can address.
    pub open spec fn snapshot_rows(&self) -> nat {
        let a = self.positions->Some_0@.len();
        let b = self.colors->Some_0@.len();
        let c = self.normals->Some_0@.len();
        let d = self.joint_indices->Some_0@.len();
        let e = self.joint_weights->Some_0@.len();
        let ab = if a < b { a } else { b };
        let cd = if c < d { c } else { d };
        let abcd = if ab < cd { ab } else { cd };
        if abcd < e { abcd } else { e }
    }

    /// Whether the mesh carries everything that snapshots need.
    pub fn has_snapshot_attributes(&self) -> (r: bool)
        ensures
            r == self.has_full_attributes(),
    {
        self.indices.is_some() && self.positions.is_some() && self.colors.is_some()
            && self.normals.is_some() && self.joint_indices.is_some()
            && self.joint_weights.is_some()
    }

    /// The number of vertices that every snapshot array can address.
    pub fn snapshot_row_count(&self) -> (r: usize)
        requires
            self.has_full_attributes(),
        ensures
            r == self.snapshot_rows(),
    {
        let a = self.positions.as_ref().unwrap().len();
        let b = self.colors.as_ref().unwrap().len();
        let c = self.normals.as_ref().unwrap().len();
        let d = self.joint_indices.as_ref().unwrap().len();
        let e = self.joint_weights.as_ref().unwrap().len();
        let ab = if a < b { a } else { b };
        let cd = if c < d { c } else { d };
        let abcd = if ab < cd { ab } else { cd };
        if abcd < e { abcd } else { e }
    }

    /// The attribute bundle of vertex `v`.
    pub fn vertex_data(&self, v: u32) -> (r: DataVert)
        requires
            self.has_full_attributes(),
            v < self.snapshot_rows(),
        ensures
            r == self.snapshot(v),
    {
        let i = v as usize;
        DataVert {
            position: self.positions.as_ref().unwrap()[i],
            color: Some(self.colors.as_ref().unwrap()[i]),
            normal: Some(self.normals.as_ref().unwrap()[i]),
            joint_indices: Some(self.joint_indices.as_ref().unwrap()[i]),
            joint_weights: Some(self.joint_weights.as_ref().unwrap()[i]),
        }
    }
}

/// The edges of a mesh as index pairs: every triangle edge once, oriented as
/// first met. A mesh without an index buffer gives an empty list.
pub fn generate_edge_line_list_indices(mesh: &MeshView) -> (r: IndexLineList)
    ensures
        r.pairs() == emitted(triangle_edges(mesh.index_seq()), Policy::Unconditional),
{
    match &mesh.indices {
        Some(buffer) => {
            let ix = buffer.to_u32();
            let edges = build_edge_list(&ix, &Selection::Unconditional);
            IndexLineList::from_pairs(&edges)
        },
        None => {
            assert(triangle_edges(mesh.index_seq()) =~= Seq::empty());
            IndexLineList { lines: Vec::new() }
        },
    }
}

/// The lines that join the given index pairs, each end carrying the
/// attribute bundle of its vertex.
pub fn data_line_list_from_pairs(mesh: &MeshView, pairs: &Vec<(u32, u32)>) -> (r: DataLineList)
    requires
        mesh.has_full_attributes(),
        ends_below(pairs@, mesh.snapshot_rows()),
    ensures
        r.lines@ == mesh.snapshots(pairs@),
{
    let mut lines: Vec<(DataVert, DataVert)> = Vec::with_capacity(pairs.len());
    let mut i: usize = 0;
    while i < pairs.len()
        invariant
            i <= pairs.len(),
            mesh.has_full_attributes(),
            ends_below(pairs@, mesh.snapshot_rows()),
            lines@.len() == i,
            forall|j: int|
                0 <= j < i ==> #[trigger] lines@[j] == (
                mesh.snapshot(pairs@[j].0),
                mesh.snapshot(pairs@[j].1),
                ),
        decreases pairs.len() - i,
    {
        let (a, b) = pairs[i];
        assert(pairs@[i as int] == (a, b));
        let start = mesh.vertex_data(a);
        let end = mesh.vertex_data(b);
        lines.push((start, end));
        i += 1;
    }
    assert(lines@ =~= mesh.snapshots(pairs@));
    DataLineList { lines }
}

/// The edges of a mesh with the attribute bundles of their ends. The mesh
/// must carry an index buffer, positions, colors, normals, joint indices and
/// joint weights, else the list is empty. With selection tags only the edges
/// that they select are taken; without, every edge.
pub fn generate_edge_line_list_data(mesh: &MeshView) -> (r: DataLineList)
    requires
        mesh.indices_in_range(),
    ensures
        mesh.has_full_attributes() ==> r.lines@ == mesh.snapshots(
            emitted(triangle_edges(mesh.index_seq()), mesh.policy()),
        ),
        !mesh.has_full_attributes() ==> r.lines@.len() == 0,
{
    if !mesh.has_snapshot_attributes() {
        return DataLineList { lines: Vec::new() };
    }
    let ix = mesh.indices.as_ref().unwrap().to_u32();
    let policy = match &mesh.tags {
        Some(t) => {
            let tags = t.clone();
            assert(tags@ =~= t@);
            Selection::TagFiltered(tags)
        },
        None => Selection::Unconditional,
    };
    let edges = build_edge_list(&ix, &policy);
    proof {
        let rows = mesh.snapshot_rows();
        lemma_triangle_edges_below(ix@, rows);
        lemma_emitted_below(triangle_edges(ix@), policy@, rows);
    }
    data_line_list_from_pairs(mesh, &edges)
}

} // verus!
