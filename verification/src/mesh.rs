//! Meshing: turning a chunk's occupancy into renderable placements.
//!
//! The policy is the naive one: one instance per solid cell, identity
//! rotation and no face culling. A second entry point emits the set of cell
//! corner points of the solid cells, deduplicated; for corner points only set
//! membership is guaranteed, not emission order.

use vstd::prelude::*;

use crate::access::{x_of, y_of, z_of};
use crate::chunk::Unit;

verus! {

/// A corner point of a cell, with components named in the `(y, x, z)`
/// coordinate order of the linearization.
#[derive(Clone, Copy, Debug, PartialEq, Eq, Structural, Hash)]
pub struct Point {
    pub y: usize,
    pub x: usize,
    pub z: usize,
}

/// A placement position in `(x, y, z)` order, as the rendering side consumes
/// it.
#[derive(Clone, Copy, Debug, PartialEq, Eq, Structural, Hash)]
pub struct Position {
    pub x: usize,
    pub y: usize,
    pub z: usize,
}

/// The orientation of a placement. The naive meshing policy never rotates a
/// cell, so the identity is the only orientation it emits.
#[derive(Clone, Copy, Debug, PartialEq, Eq, Structural, Hash)]
pub enum Rotation {
    Identity,
}

/// One emitted placement: a cell position and its orientation.
#[derive(Clone, Copy, Debug, PartialEq, Eq, Structural, Hash)]
pub struct Instance {
    pub position: Position,
    pub rotation: Rotation,
}

/// The placement emitted for the cell at flat index `i` of a cube with side
/// length `s`.
pub open spec fn instance_at(s: int, i: int) -> Instance {
    Instance {
        position: Position {
            x: x_of(s, i) as usize,
            y: y_of(s, i) as usize,
            z: z_of(s, i) as usize,
        },
        rotation: Rotation::Identity,
    }
}

/// The placements for the solid cells among the first `n` of `cells`, in
/// flat-index order.
pub open spec fn instances_upto<T: Unit>(s: int, cells: Seq<T>, n: int) -> Seq<Instance>
    decreases n,
{
    if n <= 0 {
        Seq::empty()
    } else if cells[n - 1].spec_solid() {
        instances_upto(s, cells, n - 1).push(instance_at(s, n - 1))
    } else {
        instances_upto(s, cells, n - 1)
    }
}

/// The placements of all solid cells of `cells`, in flat-index order: the
/// contract of the naive meshing policy.
pub open spec fn spec_mesh_instances<T: Unit>(s: int, cells: Seq<T>) -> Seq<Instance> {
    instances_upto(s, cells, cells.len() as int)
}

/// A chunk without a single solid cell meshes to no placements at all; in
/// particular a freshly default-constructed chunk of a cell type whose
/// default is not solid meshes to nothing.
pub proof fn lemma_mesh_empty<T: Unit>(s: int, cells: Seq<T>)
    requires
        forall|i: int| 0 <= i < cells.len() ==> !(#[trigger] cells[i].spec_solid()),
    ensures
        spec_mesh_instances(s, cells).len() == 0,
{
    lemma_instances_upto_empty(s, cells, cells.len() as int);
}

/// Meshing a grid of default cells yields no placements whenever the cell
/// type's default is not solid; in particular for a boolean occupancy grid,
/// whose default is the empty cell.
pub proof fn lemma_default_mesh_empty<T: Unit>(s: int, cells: Seq<T>)
    requires
        !T::spec_default().spec_solid(),
        forall|i: int| 0 <= i < cells.len() ==> #[trigger] cells[i] == T::spec_default(),
    ensures
        spec_mesh_instances(s, cells).len() == 0,
{
    lemma_mesh_empty(s, cells);
}

proof fn lemma_instances_upto_empty<T: Unit>(s: int, cells: Seq<T>, n: int)
    requires
        n <= cells.len(),
        forall|i: int| 0 <= i < cells.len() ==> !(#[trigger] cells[i].spec_solid()),
    ensures
        instances_upto(s, cells, n).len() == 0,
    decreases n,
{
    if n > 0 {
        lemma_instances_upto_empty(s, cells, n - 1);
    }
}

/// Whether `p` is one of the eight corners of the cell at flat index `i` of a
/// cube with side length `s`.
pub open spec fn is_corner_of(s: int, i: int, p: Point) -> bool {
    let y = y_of(s, i);
    let x = x_of(s, i);
    let z = z_of(s, i);
    &&& (p.y == y || p.y == y + 1)
    &&& (p.x == x || p.x == x + 1)
    &&& (p.z == z || p.z == z + 1)
}

/// Whether `p` is a corner of some solid cell among the first `n` of `cells`:
/// the membership contract of the corner-point mesh.
pub open spec fn corner_of_solid<T: Unit>(s: int, cells: Seq<T>, n: int, p: Point) -> bool {
    exists|i: int|
        0 <= i < n && (#[trigger] cells[i].spec_solid()) && is_corner_of(s, i, p)
}

} // verus!
