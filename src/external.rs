//! Externally authored edge lists. A mesh may carry a JSON envelope whose
//! member `gltf_primitive_extras` is a string that holds, JSON-encoded, an
//! array of `[a, b]` vertex index pairs. When such a list can be read it
//! replaces the generated edges outright, unvalidated: duplicate and
//! self-joined pairs pass through as they are.

use vstd::prelude::*;
use crate::builder::{emitted, ends_below, triangle_edges, Policy};
use crate::line_list::{
    data_line_list_from_pairs, generate_edge_line_list_data, generate_edge_line_list_indices,
    DataLineList, IndexLineList,
};
use crate::mesh::MeshView;

verus! {

/// What serde_json finds in `text` under the object member `key`: nothing
/// when `text` is not JSON or holds no such member, `Some(None)` when the
/// member is not a string, `Some(Some(s))` when it is the string `s`.
pub uninterp spec fn json_string_member(text: Seq<char>, key: Seq<char>) -> Option<
    Option<Seq<char>>,
>;

/// The pairs that serde_json reads from `text` as an array of two-element
/// arrays of `u32`, or nothing when `text` is not such an array.
pub uninterp spec fn json_index_pairs(text: Seq<char>) -> Option<Seq<(u32, u32)>>;

/// Relies on `serde_json::from_str::<serde_json::Value>` to parse the
/// envelope, `Value::get` to find the member and `Value::as_str` to read it.
#[verifier::external_body]
fn string_member(text: &str, key: &str) -> (r: Option<Option<String>>)
    ensures
        json_string_member(text@, key@) == match r {
            None => None,
            Some(None) => Some(None),
            Some(Some(s)) => Some(Some(s@)),
        },
{
    match serde_json::from_str::<serde_json::Value>(text) {
        Ok(v) => v.get(key).map(|m| m.as_str().map(|s| s.to_string())),
        Err(_) => None,
    }
}

/// Relies on `serde_json::from_str::<Vec<[u32; 2]>>` to decode an array of
/// index pairs.
#[verifier::external_body]
fn decode_index_pairs(text: &str) -> (r: Option<Vec<(u32, u32)>>)
    ensures
        json_index_pairs(text@) == match r {
            None => None,
            Some(v) => Some(v@),
        },
{
    match serde_json::from_str::<Vec<[u32; 2]>>(text) {
        Ok(v) => Some(v.into_iter().map(|p| (p[0], p[1])).collect()),
        Err(_) => None,
    }
}

/// Why an envelope yields no edge list.
#[derive(Clone, Copy, Debug, PartialEq, Eq)]
pub enum EdgeListError {
    /// The envelope is not JSON, or has no edge-list member.
    Missing,
    /// The edge-list member is not a string.
    NotText,
    /// The edge-list string is not an array of index pairs.
    Malformed,
}

/// The envelope member that holds the edge list.
pub open spec fn edge_list_key() -> Seq<char> {
    "gltf_primitive_extras"@
}

/// The outcome of reading an edge list from an envelope whose edge-list
/// member, as serde_json reads it, is `member`.
pub open spec fn edge_list_outcome(member: Option<Option<Seq<char>>>) -> Result<
    Seq<(u32, u32)>,
    EdgeListError,
> {
    match member {
        None => Err(EdgeListError::Missing),
        Some(None) => Err(EdgeListError::NotText),
        Some(Some(s)) => match json_index_pairs(s) {
            None => Err(EdgeListError::Malformed),
            Some(p) => Ok(p),
        },
    }
}

/// The view of a parse result.
pub open spec fn parsed_view(r: Result<Vec<(u32, u32)>, EdgeListError>) -> Result<
    Seq<(u32, u32)>,
    EdgeListError,
> {
    match r {
        Ok(v) => Ok(v@),
        Err(e) => Err(e),
    }
}

/// Reads the edge list that the envelope `extras` carries.
pub fn parse_edge_selection(extras: &str) -> (r: Result<Vec<(u32, u32)>, EdgeListError>)
    ensures
        parsed_view(r) == edge_list_outcome(json_string_member(extras@, edge_list_key())),
{
    match string_member(extras, "gltf_primitive_extras") {
        None => Err(EdgeListError::Missing),
        Some(None) => Err(EdgeListError::NotText),
        Some(Some(s)) => match decode_index_pairs(s.as_str()) {
            None => Err(EdgeListError::Malformed),
            Some(p) => Ok(p),
        },
    }
}

/// The index line list of a mesh given the outcome of reading its external
/// edge list: the list itself when there is one, else the generated edges.
pub fn select_index_line_list(
    mesh: &MeshView,
    parsed: &Result<Vec<(u32, u32)>, EdgeListError>,
) -> (r: IndexLineList)
    ensures
        r.pairs() == match parsed {
            Ok(p) => p@,
            Err(_) => emitted(triangle_edges(mesh.index_seq()), Policy::Unconditional),
        },
{
    match parsed {
        Ok(p) => IndexLineList::from_pairs(p),
        Err(_) => generate_edge_line_list_indices(mesh),
    }
}

/// The index line list of a mesh whose envelope, if any, is `extras`.
pub fn index_line_list_for_mesh(mesh: &MeshView, extras: Option<&str>) -> (r: IndexLineList)
    ensures
        r.pairs() == match extras {
            Some(text) => match edge_list_outcome(json_string_member(text@, edge_list_key())) {
                Ok(p) => p,
                Err(_) => emitted(triangle_edges(mesh.index_seq()), Policy::Unconditional),
            },
            None => emitted(triangle_edges(mesh.index_seq()), Policy::Unconditional),
        },
{
    match extras {
        Some(text) => {
            let parsed = parse_edge_selection(text);
            select_index_line_list(mesh, &parsed)
        },
        None => generate_edge_line_list_indices(mesh),
    }
}

/// Whether both ends of every pair are below `len`.
pub fn pairs_below(pairs: &Vec<(u32, u32)>, len: usize) -> (r: bool)
    ensures
        r == ends_below(pairs@, len as nat),
{
    let mut i: usize = 0;
    while i < pairs.len()
        invariant
            i <= pairs.len(),
            forall|j: int| 0 <= j < i ==> (#[trigger] pairs@[j]).0 < len && pairs@[j].1 < len,
        decreases pairs.len() - i,
    {
        let (a, b) = pairs[i];
        if a as usize >= len || b as usize >= len {
            assert(pairs@[i as int] == (a, b));
            return false;
        }
        i += 1;
    }
    true
}

/// The data line list of a mesh given the outcome of reading its external
/// edge list: snapshots of the list's pairs when there is one, else of the
/// generated edges. Empty unless the mesh carries every snapshot attribute.
pub fn select_data_line_list(
    mesh: &MeshView,
    parsed: &Result<Vec<(u32, u32)>, EdgeListError>,
) -> (r: DataLineList)
    requires
        mesh.indices_in_range(),
        mesh.has_full_attributes() ==> match parsed {
            Ok(p) => ends_below(p@, mesh.snapshot_rows()),
            Err(_) => true,
        },
    ensures
        mesh.has_full_attributes() ==> r.lines@ == mesh.snapshots(
            match parsed {
                Ok(p) => p@,
                Err(_) => emitted(triangle_edges(mesh.index_seq()), mesh.policy()),
            },
        ),
        !mesh.has_full_attributes() ==> r.lines@.len() == 0,
{
    match parsed {
        Ok(p) => {
            if mesh.has_snapshot_attributes() {
                data_line_list_from_pairs(mesh, p)
            } else {
                DataLineList { lines: Vec::new() }
            }
        },
        Err(_) => generate_edge_line_list_data(mesh),
    }
}

/// The data line list of a mesh whose envelope, if any, is `extras`. An
/// external list with a pair that addresses no vertex is not used: the
/// generated edges are taken instead.
pub fn data_line_list_for_mesh(mesh: &MeshView, extras: Option<&str>) -> (r: DataLineList)
    requires
        mesh.indices_in_range(),
    ensures
        mesh.has_full_attributes() ==> r.lines@ == mesh.snapshots(
            match extras {
                Some(text) => match edge_list_outcome(json_string_member(text@, edge_list_key())) {
                    Ok(p) => if ends_below(p, mesh.snapshot_rows()) {
                        p
                    } else {
                        emitted(triangle_edges(mesh.index_seq()), mesh.policy())
                    },
                    Err(_) => emitted(triangle_edges(mesh.index_seq()), mesh.policy()),
                },
                None => emitted(triangle_edges(mesh.index_seq()), mesh.policy()),
            },
        ),
        !mesh.has_full_attributes() ==> r.lines@.len() == 0,
{
    match extras {
        Some(text) => {
            let parsed = parse_edge_selection(text);
            match &parsed {
                Ok(p) => {
                    if mesh.has_snapshot_attributes() {
                        let rows = mesh.snapshot_row_count();
                        if pairs_below(p, rows) {
                            return data_line_list_from_pairs(mesh, p);
                        }
                    }
                    generate_edge_line_list_data(mesh)
                },
                Err(_) => generate_edge_line_list_data(mesh),
            }
        },
        None => generate_edge_line_list_data(mesh),
    }
}

} // verus!
