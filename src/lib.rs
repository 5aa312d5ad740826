//! Edge-graph extraction for triangle meshes: deduplicated wireframe edge
//! lists, selected either unconditionally or by per-vertex selection tags,
//! with an alternate path that takes an externally authored edge list.

pub mod edge_id;
pub mod mesh;
pub mod builder;
pub mod line_list;
pub mod external;
